use quark::gap_mgr::GapMgr;
use quark::range::{PagesInChunk, Range};

#[test]
fn allocates_lowest_first() {
    let mut g = GapMgr::New(0, 100);
    assert_eq!(g.gaps, vec![Range { start: 0, len: 100 }]);
    assert_eq!(g.Alloc(), Some(0));
    assert_eq!(g.Alloc(), Some(1));
    assert_eq!(g.Alloc(), Some(2));
    assert_eq!(g.gaps, vec![Range { start: 3, len: 97 }]);
}

#[test]
fn alloc_after_splits_a_gap() {
    let mut g = GapMgr::New(0, 100);
    assert_eq!(g.AllocAfter(10), Some(10));
    assert_eq!(g.gaps, vec![Range { start: 0, len: 10 }, Range { start: 11, len: 89 }]);
    assert_eq!(g.AllocAfter(10), Some(11));
    assert_eq!(g.Alloc(), Some(0));
}

#[test]
fn alloc_after_past_the_end_fails() {
    let mut g = GapMgr::New(0, 10);
    assert_eq!(g.AllocAfter(10), None);
    for i in 0..10 {
        assert_eq!(g.Alloc(), Some(i));
    }
    assert_eq!(g.Alloc(), None);
}

#[test]
fn free_merges_neighbours() {
    let mut g = GapMgr::New(0, 10);
    for _ in 0..10 {
        g.Alloc();
    }
    assert!(g.gaps.is_empty());
    g.Free(5);
    assert_eq!(g.gaps, vec![Range { start: 5, len: 1 }]);
    g.Free(4);
    assert_eq!(g.gaps, vec![Range { start: 4, len: 2 }]);
    g.Free(6);
    assert_eq!(g.gaps, vec![Range { start: 4, len: 3 }]);
    g.Free(8);
    g.Free(7);
    assert_eq!(g.gaps, vec![Range { start: 4, len: 5 }]);
    assert_eq!(g.Alloc(), Some(4));
}

#[test]
fn take_removes_one_id() {
    let mut g = GapMgr::New(0, 10);
    g.Take(0);
    g.Take(9);
    g.Take(5);
    assert_eq!(g.gaps, vec![Range { start: 1, len: 4 }, Range { start: 6, len: 3 }]);
    let f = g.Fork();
    assert_eq!(f.gaps, g.gaps);
}

#[test]
fn pages_in_chunk() {
    let chunk = 0x20_0000u64;
    assert_eq!(PagesInChunk(&Range::New(0, 0x1000), 0), 1);
    assert_eq!(PagesInChunk(&Range::New(0, 0x40_0000), chunk), 512);
    assert_eq!(PagesInChunk(&Range::New(0x1f_f000, 0x2000), chunk), 1);
    assert_eq!(PagesInChunk(&Range::New(0x40_0000, 0x1000), chunk), 0);
}

#[test]
fn range_intersection() {
    let a = Range::New(10, 10);
    let b = Range::New(15, 10);
    assert_eq!(a.Intersect(&b), Range { start: 15, len: 5 });
    assert_eq!(a.Intersect(&Range::New(30, 5)), Range { start: 30, len: 0 });
    assert!(a.Contains(19));
    assert!(!a.Contains(20));
}

#[test]
fn alloc_then_free_restores_the_gaps() {
    let mut g = GapMgr::New(0, 20);
    g.Take(3);
    g.Take(9);
    let before = g.gaps.clone();
    let x = g.AllocAfter(5).unwrap();
    assert_eq!(x, 5);
    g.Free(x);
    assert_eq!(g.gaps, before);
}
