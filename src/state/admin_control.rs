//! A record naming an administrator and a pause switch.

use vstd::prelude::*;

use crate::pubkey::Pubkey;

verus! {

/// An administrator identity with a pause switch.
#[derive(Clone, Copy, Debug)]
pub struct AdminControl {
    /// The administrator; the all-zero address when none is set.
    pub admin: Pubkey,
    /// Whether the administrator has paused operations.
    pub paused: bool,
    /// Derivation bump of the record's address.
    pub bump: u8,
}

impl Default for AdminControl {
    /// No administrator, not paused.
    fn default() -> (r: AdminControl)
        ensures
            r.admin.is_null(),
            !r.paused,
            r.bump == 0,
    {
        AdminControl { admin: Pubkey::default(), paused: false, bump: 0 }
    }
}

} // verus!
