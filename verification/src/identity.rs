use vstd::prelude::*;

verus! {

/// An opaque, fixed-width account identifier supplied by the hosting
/// execution environment. Identities are compared for equality only; no
/// ordering is given to them. The all-zero value is a sentinel meaning
/// "no account": the environment never hands it out as a real caller, and
/// the ledger uses it to mark absent records.
#[derive(Clone, Copy, PartialEq, Eq, Structural, Debug)]
pub struct Identity {
    pub id: u128,
}

impl Identity {
    /// The sentinel value that marks "no account".
    pub open spec fn spec_null() -> Identity {
        Identity { id: 0 }
    }

    pub open spec fn spec_is_null(self) -> bool {
        self.id == 0
    }

    /// The sentinel identity.
    pub fn null() -> (r: Identity)
        ensures
            r == Identity::spec_null(),
    {
        Identity { id: 0 }
    }

    /// Whether this identity is the "no account" sentinel.
    pub fn is_null(&self) -> (r: bool)
        ensures
            r == self.spec_is_null(),
    {
        self.id == 0
    }
}

} // verus!
