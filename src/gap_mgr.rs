use vstd::prelude::*;

use crate::range::Range;

verus! {

/// Gaps are non-empty, lie inside `range`, and come in increasing order with
/// at least one used id between two of them: each gap is maximal.
pub open spec fn sorted_gaps(s: Seq<Range>, range: Range) -> bool {
    &&& forall|i: int|
        0 <= i < s.len() ==> (#[trigger] s[i]).len >= 1 && s[i].wf() && range.start <= s[i].start
            && s[i].end_spec() <= range.end_spec()
    &&& forall|i: int, j: int| 0 <= i < j < s.len() ==> #[trigger] s[i].end_spec() < #[trigger] s[j].start
}

/// Whether id `x` lies in one of the gaps.
pub open spec fn in_gaps(s: Seq<Range>, x: int) -> bool {
    exists|i: int| 0 <= i < s.len() && (#[trigger] s[i]).contains_spec(x)
}

proof fn lemma_first_gap_is_min(s: Seq<Range>, range: Range, x: int)
    requires
        sorted_gaps(s, range),
        in_gaps(s, x),
    ensures
        s.len() > 0,
        s[0].start <= x,
{
    let i = choose|i: int| 0 <= i < s.len() && (#[trigger] s[i]).contains_spec(x);
    if i > 0 {
        assert(s[0].end_spec() < s[i].start);
    }
}

proof fn lemma_tail_gaps(s: Seq<Range>, range: Range, x: int)
    requires
        sorted_gaps(s, range),
        s.len() > 0,
    ensures
        sorted_gaps(s.drop_first(), range),
        in_gaps(s.drop_first(), x) <==> (in_gaps(s, x) && x >= s[0].end_spec()),
{
    let t = s.drop_first();
    assert forall|i: int, j: int| 0 <= i < j < t.len() implies #[trigger] t[i].end_spec() < #[trigger] t[j].start by {
        assert(t[i] == s[i + 1] && t[j] == s[j + 1]);
    }
    assert forall|i: int| 0 <= i < t.len() implies (#[trigger] t[i]).len >= 1 && t[i].wf() && range.start
        <= t[i].start && t[i].end_spec() <= range.end_spec() by {
        assert(t[i] == s[i + 1]);
    }
    if in_gaps(t, x) {
        let i = choose|i: int| 0 <= i < t.len() && (#[trigger] t[i]).contains_spec(x);
        assert(s[i + 1].contains_spec(x));
        assert(s[0].end_spec() < s[i + 1].start);
    }
    if in_gaps(s, x) && x >= s[0].end_spec() {
        let i = choose|i: int| 0 <= i < s.len() && (#[trigger] s[i]).contains_spec(x);
        assert(i > 0);
        assert(t[i - 1].contains_spec(x));
    }
}

/// Maximal gaps are canonical: two gap lists over one range that leave the
/// same ids free are the same list.
pub proof fn lemma_gaps_canonical(s: Seq<Range>, t: Seq<Range>, range: Range)
    requires
        sorted_gaps(s, range),
        sorted_gaps(t, range),
        forall|x: int| in_gaps(s, x) == in_gaps(t, x),
    ensures
        s == t,
    decreases s.len(),
{
    if s.len() == 0 {
        if t.len() > 0 {
            assert(t[0].contains_spec(t[0].start as int));
            assert(in_gaps(t, t[0].start as int));
        }
        assert(s =~= t);
    } else {
        assert(s[0].contains_spec(s[0].start as int));
        assert(in_gaps(s, s[0].start as int));
        lemma_first_gap_is_min(t, range, s[0].start as int);
        assert(t[0].contains_spec(t[0].start as int));
        assert(in_gaps(t, t[0].start as int));
        lemma_first_gap_is_min(s, range, t[0].start as int);
        assert(s[0].start == t[0].start);
        if t[0].end_spec() < s[0].end_spec() {
            let y = t[0].end_spec();
            assert(s[0].contains_spec(y));
            assert(in_gaps(t, y));
            let j = choose|j: int| 0 <= j < t.len() && (#[trigger] t[j]).contains_spec(y);
            if j > 0 {
                assert(t[0].end_spec() < t[j].start);
            }
        }
        if s[0].end_spec() < t[0].end_spec() {
            let y = s[0].end_spec();
            assert(t[0].contains_spec(y));
            assert(in_gaps(s, y));
            let j = choose|j: int| 0 <= j < s.len() && (#[trigger] s[j]).contains_spec(y);
            if j > 0 {
                assert(s[0].end_spec() < s[j].start);
            }
        }
        assert(s[0] == t[0]);
        assert forall|x: int| in_gaps(s.drop_first(), x) == in_gaps(t.drop_first(), x) by {
            lemma_tail_gaps(s, range, x);
            lemma_tail_gaps(t, range, x);
        }
        lemma_tail_gaps(s, range, 0);
        lemma_tail_gaps(t, range, 0);
        lemma_gaps_canonical(s.drop_first(), t.drop_first(), range);
        assert(s =~= seq![s[0]] + s.drop_first());
        assert(t =~= seq![t[0]] + t.drop_first());
    }
}

/// Hands out ids of a range, lowest first, and takes them back. The free ids
/// are kept as maximal gaps.
#[derive(Debug)]
pub struct GapMgr {
    pub range: Range,
    pub gaps: Vec<Range>,
}

impl GapMgr {
    pub open spec fn wf(&self) -> bool {
        &&& self.range.wf()
        &&& sorted_gaps(self.gaps@, self.range)
    }

    /// Whether id `x` is free.
    pub open spec fn free(&self, x: int) -> bool {
        in_gaps(self.gaps@, x)
    }

    /// Every free id lies in the range.
    pub proof fn lemma_free_in_range(&self, x: int)
        requires
            self.wf(),
            self.free(x),
        ensures
            self.range.start <= x < self.range.end_spec(),
    {
        let i = choose|i: int| 0 <= i < self.gaps@.len() && (#[trigger] self.gaps@[i]).contains_spec(x);
    }

    /// A manager of `[start, start + len)` with every id free.
    pub fn New(start: u64, len: u64) -> (r: GapMgr)
        requires
            len >= 1,
            start + len <= u64::MAX,
        ensures
            r.wf(),
            r.range == (Range { start, len }),
            r.gaps@ == seq![Range { start, len }],
            forall|x: int| r.free(x) <==> start <= x < start + len,
    {
        let range = Range::New(start, len);
        let mut gaps: Vec<Range> = Vec::new();
        gaps.push(range);
        let r = GapMgr { range, gaps };
        assert forall|x: int| r.free(x) <==> start <= x < start + len by {
            if start <= x < start + len {
                assert(r.gaps@[0].contains_spec(x));
            }
        }
        r
    }

    /// An independent copy with the same free ids.
    pub fn Fork(&self) -> (r: GapMgr)
        requires
            self.wf(),
        ensures
            r.wf(),
            r.range == self.range,
            r.gaps@ == self.gaps@,
            forall|x: int| r.free(x) <==> self.free(x),
    {
        let mut gaps: Vec<Range> = Vec::new();
        let mut i: usize = 0;
        while i < self.gaps.len()
            invariant
                i <= self.gaps.len(),
                gaps@ == self.gaps@.take(i as int),
            decreases self.gaps.len() - i,
        {
            gaps.push(self.gaps[i]);
            proof {
                assert(self.gaps@.take(i + 1) == self.gaps@.take(i as int).push(self.gaps@[i as int]));
            }
            i = i + 1;
        }
        assert(self.gaps@.take(self.gaps.len() as int) == self.gaps@);
        GapMgr { range: self.range, gaps }
    }

    /// The index of the first gap that ends after `id`, or the number of gaps.
    fn first_after(&self, id: u64) -> (p: usize)
        requires
            self.wf(),
        ensures
            p <= self.gaps.len(),
            forall|k: int| 0 <= k < p ==> #[trigger] self.gaps@[k].end_spec() <= id,
            p < self.gaps.len() ==> self.gaps@[p as int].end_spec() > id,
    {
        let mut p: usize = 0;
        while p < self.gaps.len()
            invariant
                p <= self.gaps.len(),
                self.wf(),
                forall|k: int| 0 <= k < p ==> #[trigger] self.gaps@[k].end_spec() <= id,
            decreases self.gaps.len() - p,
        {
            let g = self.gaps[p];
            if g.start + g.len > id {
                return p;
            }
            p = p + 1;
        }
        p
    }

    /// Marks the free id `id` as used.
    #[verifier::rlimit(100)]
    pub fn Take(&mut self, id: u64)
        requires
            old(self).wf(),
            old(self).free(id as int),
        ensures
            final(self).wf(),
            final(self).range == old(self).range,
            forall|x: int| final(self).free(x) <==> old(self).free(x) && x != id,
    {
        let p = self.first_after(id);
        let ghost s = self.gaps@;
        proof {
            let w = choose|i: int| 0 <= i < s.len() && (#[trigger] s[i]).contains_spec(id as int);
            if w < p {
                assert(s[w].end_spec() <= id);
            }
            if w > p {
                assert(s[p as int].end_spec() <= s[w].start);
            }
            assert(w == p);
        }
        let g = self.gaps[p];
        let end = g.start + g.len;
        if g.len == 1 {
            self.gaps.remove(p);
            proof {
                assert forall|x: int| self.free(x) <==> in_gaps(s, x) && x != id by {
                    if self.free(x) {
                        let k = choose|k: int| 0 <= k < self.gaps@.len() && (#[trigger] self.gaps@[k]).contains_spec(x);
                        if k < p {
                            assert(self.gaps@[k] == s[k]);
                            assert(s[k].end_spec() <= s[p as int].start);
                        } else {
                            assert(self.gaps@[k] == s[k + 1]);
                            assert(s[p as int].end_spec() <= s[k + 1].start);
                        }
                    }
                    if in_gaps(s, x) && x != id {
                        let k = choose|k: int| 0 <= k < s.len() && (#[trigger] s[k]).contains_spec(x);
                        if k < p {
                            assert(self.gaps@[k] == s[k]);
                        } else if k > p {
                            assert(self.gaps@[k - 1] == s[k]);
                        }
                    }
                }
            }
        } else if g.start < id {
            let left = Range::New(g.start, id - g.start);
            if id + 1 < end {
                let right = Range::New(id + 1, end - (id + 1));
                self.gaps.set(p, right);
                self.gaps.insert(p, left);
                proof {
                    let t = self.gaps@;
                    assert(t == s.update(p as int, right).insert(p as int, left));
                    assert forall|i: int, j: int| 0 <= i < j < t.len() implies #[trigger] t[i].end_spec() < #[trigger] t[j].start by {
                        if i < p && j == p { assert(s[i].end_spec() <= s[p as int].start); }
                        if i < p && j == p + 1 { assert(s[i].end_spec() <= s[p as int].start); }
                        if i < p && j > p + 1 { assert(s[i].end_spec() <= s[j - 1].start); }
                        if i == p && j > p + 1 { assert(s[p as int].end_spec() <= s[j - 1].start); }
                        if i == p + 1 && j > p + 1 { assert(s[p as int].end_spec() <= s[j - 1].start); }
                        if i > p + 1 { assert(s[i - 1].end_spec() <= s[j - 1].start); }
                    }
                    assert forall|x: int| self.free(x) <==> in_gaps(s, x) && x != id by {
                        if self.free(x) {
                            let k = choose|k: int| 0 <= k < t.len() && (#[trigger] t[k]).contains_spec(x);
                            if k < p {
                                assert(t[k] == s[k]);
                                assert(s[k].end_spec() <= s[p as int].start);
                            } else if k == p || k == p + 1 {
                                assert(s[p as int].contains_spec(x));
                            } else {
                                assert(t[k] == s[k - 1]);
                                assert(s[p as int].end_spec() <= s[k - 1].start);
                            }
                        }
                        if in_gaps(s, x) && x != id {
                            let k = choose|k: int| 0 <= k < s.len() && (#[trigger] s[k]).contains_spec(x);
                            if k < p {
                                assert(t[k] == s[k]);
                            } else if k > p {
                                assert(t[k + 1] == s[k]);
                            } else if x < id {
                                assert(t[p as int].contains_spec(x));
                            } else {
                                assert(t[p + 1].contains_spec(x));
                            }
                        }
                    }
                }
            } else {
                self.gaps.set(p, left);
                proof {
                    let t = self.gaps@;
                    assert forall|i: int, j: int| 0 <= i < j < t.len() implies #[trigger] t[i].end_spec() < #[trigger] t[j].start by {
                        if i == p { assert(s[p as int].end_spec() <= s[j].start); }
                        if j == p { assert(s[i].end_spec() <= s[p as int].start); }
                    }
                    assert forall|x: int| self.free(x) <==> in_gaps(s, x) && x != id by {
                        if self.free(x) {
                            let k = choose|k: int| 0 <= k < t.len() && (#[trigger] t[k]).contains_spec(x);
                            if k < p {
                                assert(s[k].end_spec() <= s[p as int].start);
                            } else if k > p {
                                assert(s[p as int].end_spec() <= s[k].start);
                            } else {
                                assert(s[p as int].contains_spec(x));
                            }
                        }
                        if in_gaps(s, x) && x != id {
                            let k = choose|k: int| 0 <= k < s.len() && (#[trigger] s[k]).contains_spec(x);
                            assert(t[k].contains_spec(x));
                        }
                    }
                }
            }
        } else {
            // The gap starts at `id`: it loses its first id.
            let right = Range::New(id + 1, end - (id + 1));
            self.gaps.set(p, right);
            proof {
                let t = self.gaps@;
                assert forall|i: int, j: int| 0 <= i < j < t.len() implies #[trigger] t[i].end_spec() < #[trigger] t[j].start by {
                    if i == p { assert(s[p as int].end_spec() <= s[j].start); }
                    if j == p { assert(s[i].end_spec() <= s[p as int].start); }
                }
                assert forall|x: int| self.free(x) <==> in_gaps(s, x) && x != id by {
                    if self.free(x) {
                        let k = choose|k: int| 0 <= k < t.len() && (#[trigger] t[k]).contains_spec(x);
                        if k < p {
                            assert(s[k].end_spec() <= s[p as int].start);
                        } else if k > p {
                            assert(s[p as int].end_spec() <= s[k].start);
                        } else {
                            assert(s[p as int].contains_spec(x));
                        }
                    }
                    if in_gaps(s, x) && x != id {
                        let k = choose|k: int| 0 <= k < s.len() && (#[trigger] s[k]).contains_spec(x);
                        assert(t[k].contains_spec(x));
                    }
                }
            }
        }
    }

    /// Takes the lowest free id that is at least `id`; `None` when there is none.
    pub fn AllocAfter(&mut self, id: u64) -> (r: Option<u64>)
        requires
            old(self).wf(),
        ensures
            final(self).wf(),
            final(self).range == old(self).range,
            r is None <==> forall|x: int| id <= x ==> !old(self).free(x),
            r is None ==> final(self).gaps@ == old(self).gaps@,
            r matches Some(v) ==> {
                &&& v >= id
                &&& old(self).free(v as int)
                &&& forall|x: int| id <= x < v ==> !old(self).free(x)
                &&& forall|x: int| final(self).free(x) <==> old(self).free(x) && x != v
            },
    {
        let p = self.first_after(id);
        let ghost s = self.gaps@;
        if p == self.gaps.len() {
            proof {
                assert forall|x: int| id <= x implies !self.free(x) by {
                    if self.free(x) {
                        let k = choose|k: int| 0 <= k < s.len() && (#[trigger] s[k]).contains_spec(x);
                        assert(s[k].end_spec() <= id);
                    }
                }
            }
            return None;
        }
        let g = self.gaps[p];
        let v = if g.start < id { id } else { g.start };
        proof {
            assert(s[p as int].contains_spec(v as int));
            assert(self.free(v as int));
            assert(id <= v);
            assert forall|x: int| id <= x < v implies !self.free(x) by {
                if self.free(x) {
                    let k = choose|k: int| 0 <= k < s.len() && (#[trigger] s[k]).contains_spec(x);
                    if k < p {
                        assert(s[k].end_spec() <= id);
                    } else if k > p {
                        assert(s[p as int].end_spec() <= s[k].start);
                    }
                }
            }
        }
        self.Take(v);
        Some(v)
    }

    /// Takes the lowest free id of the range.
    pub fn Alloc(&mut self) -> (r: Option<u64>)
        requires
            old(self).wf(),
        ensures
            final(self).wf(),
            final(self).range == old(self).range,
            r is None <==> forall|x: int| old(self).range.start <= x ==> !old(self).free(x),
            r is None ==> final(self).gaps@ == old(self).gaps@,
            r matches Some(v) ==> {
                &&& v >= old(self).range.start
                &&& old(self).free(v as int)
                &&& forall|x: int| old(self).range.start <= x < v ==> !old(self).free(x)
                &&& forall|x: int| final(self).free(x) <==> old(self).free(x) && x != v
            },
    {
        let start = self.range.start;
        self.AllocAfter(start)
    }

    /// Gives back the used id `id`, merging it with the gaps next to it.
    #[verifier::rlimit(100)]
    pub fn Free(&mut self, id: u64)
        requires
            old(self).wf(),
            !old(self).free(id as int),
            old(self).range.start <= id < old(self).range.end_spec(),
        ensures
            final(self).wf(),
            final(self).range == old(self).range,
            forall|x: int| final(self).free(x) <==> old(self).free(x) || x == id,
    {
        let p = self.first_after(id);
        let ghost s = self.gaps@;
        proof {
            if p < s.len() {
                if s[p as int].start <= id {
                    assert(s[p as int].contains_spec(id as int));
                }
            }
        }
        let n = self.gaps.len();
        let join_left = p > 0 && self.gaps[p - 1].start + self.gaps[p - 1].len == id;
        let join_right = p < n && self.gaps[p].start == id + 1;
        if join_left && join_right {
            let l = self.gaps[p - 1];
            let r = self.gaps[p];
            let merged = Range::New(l.start, r.start + r.len - l.start);
            self.gaps.set(p - 1, merged);
            self.gaps.remove(p);
            proof {
                let t = self.gaps@;
                assert(t == s.update(p - 1, merged).remove(p as int));
                assert forall|i: int, j: int| 0 <= i < j < t.len() implies #[trigger] t[i].end_spec() < #[trigger] t[j].start by {
                    if i < p - 1 && j == p - 1 { assert(s[i].end_spec() <= s[p - 1].start); }
                    if i < p - 1 && j >= p { assert(s[i].end_spec() <= s[j + 1].start); }
                    if i == p - 1 { assert(s[p as int].end_spec() <= s[j + 1].start); }
                    if i >= p { assert(s[i + 1].end_spec() <= s[j + 1].start); }
                }
                assert forall|x: int| self.free(x) <==> in_gaps(s, x) || x == id by {
                    if self.free(x) {
                        let k = choose|k: int| 0 <= k < t.len() && (#[trigger] t[k]).contains_spec(x);
                        if k < p - 1 {
                            assert(t[k] == s[k]);
                        } else if k == p - 1 {
                            if x < id {
                                assert(s[p - 1].contains_spec(x));
                            } else if x > id {
                                assert(s[p as int].contains_spec(x));
                            }
                        } else {
                            assert(t[k] == s[k + 1]);
                        }
                    }
                    if x == id {
                        assert(t[p - 1].contains_spec(x));
                    } else if in_gaps(s, x) {
                        let k = choose|k: int| 0 <= k < s.len() && (#[trigger] s[k]).contains_spec(x);
                        if k < p - 1 {
                            assert(t[k] == s[k]);
                        } else if k == p - 1 || k == p {
                            assert(t[p - 1].contains_spec(x));
                        } else {
                            assert(t[k - 1] == s[k]);
                        }
                    }
                }
            }
        } else if join_left {
            let l = self.gaps[p - 1];
            let merged = Range::New(l.start, l.len + 1);
            self.gaps.set(p - 1, merged);
            proof {
                let t = self.gaps@;
                assert forall|i: int, j: int| 0 <= i < j < t.len() implies #[trigger] t[i].end_spec() < #[trigger] t[j].start by {
                    if j == p - 1 { assert(s[i].end_spec() <= s[p - 1].start); }
                    if i == p - 1 {
                        if j == p {
                            assert(s[p as int].start != id + 1);
                            assert(s[p as int].end_spec() > id);
                        } else {
                            assert(s[p as int].end_spec() <= s[j].start);
                            assert(s[p as int].start > id);
                        }
                    }
                }
                assert forall|x: int| self.free(x) <==> in_gaps(s, x) || x == id by {
                    if self.free(x) {
                        let k = choose|k: int| 0 <= k < t.len() && (#[trigger] t[k]).contains_spec(x);
                        if k == p - 1 && x < id {
                            assert(s[p - 1].contains_spec(x));
                        } else if k != p - 1 {
                            assert(t[k] == s[k]);
                        }
                    }
                    if x == id {
                        assert(t[p - 1].contains_spec(x));
                    } else if in_gaps(s, x) {
                        let k = choose|k: int| 0 <= k < s.len() && (#[trigger] s[k]).contains_spec(x);
                        assert(t[k].contains_spec(x));
                    }
                }
            }
        } else if join_right {
            let r = self.gaps[p];
            let merged = Range::New(id, r.len + 1);
            self.gaps.set(p, merged);
            proof {
                let t = self.gaps@;
                assert forall|i: int, j: int| 0 <= i < j < t.len() implies #[trigger] t[i].end_spec() < #[trigger] t[j].start by {
                    if i == p { assert(s[p as int].end_spec() <= s[j].start); }
                    if j == p {
                        assert(s[i].end_spec() <= id);
                    }
                }
                assert forall|x: int| self.free(x) <==> in_gaps(s, x) || x == id by {
                    if self.free(x) {
                        let k = choose|k: int| 0 <= k < t.len() && (#[trigger] t[k]).contains_spec(x);
                        if k == p && x > id {
                            assert(s[p as int].contains_spec(x));
                        } else if k != p {
                            assert(t[k] == s[k]);
                        }
                    }
                    if x == id {
                        assert(t[p as int].contains_spec(x));
                    } else if in_gaps(s, x) {
                        let k = choose|k: int| 0 <= k < s.len() && (#[trigger] s[k]).contains_spec(x);
                        assert(t[k].contains_spec(x));
                    }
                }
            }
        } else {
            let single = Range::New(id, 1);
            self.gaps.insert(p, single);
            proof {
                let t = self.gaps@;
                assert(t == s.insert(p as int, single));
                assert forall|i: int, j: int| 0 <= i < j < t.len() implies #[trigger] t[i].end_spec() < #[trigger] t[j].start by {
                    if i < p && j == p { assert(s[i].end_spec() <= id); }
                    if i < p && j > p { assert(s[i].end_spec() <= s[j - 1].start); }
                    if i == p {
                        assert(s[p as int].start > id);
                        assert(s[p as int].end_spec() <= s[j - 1].start || j - 1 == p);
                    }
                    if i > p { assert(s[i - 1].end_spec() <= s[j - 1].start); }
                }
                assert forall|x: int| self.free(x) <==> in_gaps(s, x) || x == id by {
                    if self.free(x) {
                        let k = choose|k: int| 0 <= k < t.len() && (#[trigger] t[k]).contains_spec(x);
                        if k < p {
                            assert(t[k] == s[k]);
                        } else if k > p {
                            assert(t[k] == s[k - 1]);
                        }
                    }
                    if x == id {
                        assert(t[p as int].contains_spec(x));
                    } else if in_gaps(s, x) {
                        let k = choose|k: int| 0 <= k < s.len() && (#[trigger] s[k]).contains_spec(x);
                        if k < p {
                            assert(t[k] == s[k]);
                        } else {
                            assert(t[k + 1] == s[k]);
                        }
                    }
                }
            }
        }
    }
}

/// Allocating an id and freeing it again gives back exactly the gaps there
/// were: `before` is a manager, `after` the same manager once `AllocAfter`
/// took `v` from it (or `Take` did) and `Free` gave `v` back.
pub proof fn lemma_alloc_free_round_trip(before: GapMgr, taken: GapMgr, after: GapMgr, v: int)
    requires
        before.wf(),
        taken.wf(),
        after.wf(),
        taken.range == before.range,
        after.range == before.range,
        before.free(v),
        forall|x: int| taken.free(x) <==> before.free(x) && x != v,
        forall|x: int| after.free(x) <==> taken.free(x) || x == v,
    ensures
        after.gaps@ == before.gaps@,
{
    assert forall|x: int| in_gaps(after.gaps@, x) == in_gaps(before.gaps@, x) by {
        assert(after.free(x) == before.free(x));
    }
    lemma_gaps_canonical(after.gaps@, before.gaps@, before.range);
}

} // verus!
