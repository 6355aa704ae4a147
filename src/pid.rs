//! Process identifiers.
use vstd::prelude::*;

use crate::text::{append_decimal, decimal};

verus! {

/// An operating-system process identifier.
#[derive(Clone, Copy, Debug, PartialEq, Eq, Structural, PartialOrd, Ord, Hash)]
pub struct Pid(pub i64);

impl Pid {
    /// The decimal text of this identifier.
    pub fn to_decimal(&self) -> (r: Vec<u8>)
        ensures
            r@ == decimal(self.0 as int),
    {
        let mut r: Vec<u8> = Vec::new();
        append_decimal(&mut r, self.0);
        assert(r@ =~= decimal(self.0 as int));
        r
    }
}

impl From<u32> for Pid {
    fn from(pid: u32) -> (r: Pid)
        ensures
            r.0 == pid as i64,
    {
        Pid(pid as i64)
    }
}

impl vstd::std_specs::convert::FromSpecImpl<u32> for Pid {
    open spec fn obeys_from_spec() -> bool {
        true
    }

    open spec fn from_spec(pid: u32) -> Pid {
        Pid(pid as i64)
    }
}

} // verus!
