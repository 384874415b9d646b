//! Data types of the task/threading hosting portion of the foreign
//! contract.

use vstd::prelude::*;

verus! {

/// Wait operation enumeration.
#[derive(Debug, Copy, Clone, PartialEq, Eq)]
pub enum WAIT_OPTION {
    WAIT_MSGPUMP,
    WAIT_ALERTABLE,
    WAIT_NOTINDEADLOCK,
}

} // verus!
