use vstd::prelude::*;

verus! {

/// The kind of virtual machine a container group runs in.
#[derive(Clone, Copy, Debug, PartialEq, Eq, Structural)]
pub enum VmType {
    Normal,
    SevSnp,
}

impl VmType {
    /// The numeric code of each kind.
    pub open spec fn code(self) -> u64 {
        match self {
            VmType::Normal => 0,
            VmType::SevSnp => 1,
        }
    }

    /// Decodes a kind from its numeric code; any other code is unknown.
    pub fn from_u64(value: u64) -> (r: Option<VmType>)
        ensures
            r is Some <==> value <= 1,
            r matches Some(t) ==> t.code() == value,
    {
        match value {
            0 => Some(VmType::Normal),
            1 => Some(VmType::SevSnp),
            _ => None,
        }
    }

    pub fn to_u64(&self) -> (r: u64)
        ensures
            r == self.code(),
    {
        match self {
            VmType::Normal => 0,
            VmType::SevSnp => 1,
        }
    }
}

impl Default for VmType {
    fn default() -> (r: Self)
        ensures
            r == VmType::Normal,
    {
        VmType::Normal
    }
}

} // verus!
