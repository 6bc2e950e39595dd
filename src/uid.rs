use vstd::prelude::*;

verus! {

/// Hands out unique ids, counting up from 1.
pub struct UidGen {
    pub next: u64,
}

impl UidGen {
    pub fn New() -> (r: UidGen)
        ensures
            r.next == 1,
    {
        UidGen { next: 1 }
    }
}

/// Takes the next unique id.
pub fn NewUID(gen: &mut UidGen) -> (id: u64)
    requires
        old(gen).next < u64::MAX,
    ensures
        id == old(gen).next,
        final(gen).next == old(gen).next + 1,
{
    let id = gen.next;
    gen.next = gen.next + 1;
    id
}

} // verus!
