//! The user service of the CRM front end.

use vstd::prelude::*;

verus! {

/// The user service; it holds no state.
pub struct UserServer {}

impl Default for UserServer {
    fn default() -> (s: Self) {
        UserServer {}
    }
}

} // verus!
