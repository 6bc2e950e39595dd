use vstd::prelude::*;

verus! {

/// A half-open range of addresses or ids: `[start, start + len)`.
#[derive(Clone, Copy, Debug, PartialEq, Eq, Structural)]
pub struct Range {
    pub start: u64,
    pub len: u64,
}

impl Range {
    /// The range's end does not overflow.
    pub open spec fn wf(&self) -> bool {
        self.start + self.len <= u64::MAX
    }

    pub open spec fn end_spec(&self) -> int {
        self.start + self.len
    }

    pub open spec fn contains_spec(&self, x: int) -> bool {
        self.start <= x < self.start + self.len
    }

    pub fn New(start: u64, len: u64) -> (r: Range)
        ensures
            r.start == start && r.len == len,
    {
        Range { start, len }
    }

    pub fn Start(&self) -> (r: u64)
        ensures
            r == self.start,
    {
        self.start
    }

    pub fn Len(&self) -> (r: u64)
        ensures
            r == self.len,
    {
        self.len
    }

    pub fn End(&self) -> (r: u64)
        requires
            self.wf(),
        ensures
            r == self.end_spec(),
    {
        self.start + self.len
    }

    pub fn Contains(&self, x: u64) -> (r: bool)
        requires
            self.wf(),
        ensures
            r == self.contains_spec(x as int),
    {
        self.start <= x && x < self.start + self.len
    }

    /// The addresses in both ranges; an empty range at the later start when
    /// they do not overlap.
    pub fn Intersect(&self, other: &Range) -> (r: Range)
        requires
            self.wf(),
            other.wf(),
        ensures
            r.wf(),
            r.start == (if self.start < other.start { other.start } else { self.start }),
            forall|x: int| r.contains_spec(x) <==> self.contains_spec(x) && other.contains_spec(x),
            r.len == (if r.start < min_end(*self, *other) { min_end(*self, *other) - r.start } else { 0 }),
    {
        let start = if self.start < other.start { other.start } else { self.start };
        let end = if self.End() > other.End() { other.End() } else { self.End() };
        if start < end {
            Range { start, len: end - start }
        } else {
            Range { start, len: 0 }
        }
    }
}

/// The smaller end of two ranges.
pub open spec fn min_end(a: Range, b: Range) -> int {
    if a.end_spec() < b.end_spec() { a.end_spec() } else { b.end_spec() }
}

pub const PAGE_SIZE: u64 = 4096;
/// File pages are mapped in chunks of 2 MiB.
pub const CHUNK_SHIFT: u64 = 21;
pub const CHUNK_SIZE: u64 = 0x20_0000;
pub const CHUNK_MASK: u64 = 0x1F_FFFF;

/// The number of pages of `r` that fall in the chunk starting at `chunk_start`.
pub open spec fn pages_in_chunk(r: Range, chunk_start: u64) -> int {
    let chunk = Range { start: chunk_start, len: CHUNK_SIZE };
    let s = if r.start < chunk_start { chunk_start as int } else { r.start as int };
    let e = min_end(r, chunk);
    (if s < e { e - s } else { 0 }) / PAGE_SIZE as int
}

/// Counts the pages of `r` inside the chunk at `chunk_start`, which must be
/// chunk-aligned.
pub fn PagesInChunk(r: &Range, chunk_start: u64) -> (n: i32)
    requires
        r.wf(),
        chunk_start % CHUNK_SIZE == 0,
        chunk_start + CHUNK_SIZE <= u64::MAX,
    ensures
        n == pages_in_chunk(*r, chunk_start),
        0 <= n <= 512,
{
    let chunk = Range::New(chunk_start, CHUNK_SIZE);
    let i = r.Intersect(&chunk);
    let len = i.Len();
    assert(len <= 0x20_0000);
    assert(len / 4096 <= 512) by (nonlinear_arith)
        requires
            len <= 0x20_0000,
    ;
    (len / PAGE_SIZE) as i32
}

} // verus!
