//! Decisions of the application-manifest interface.

use vstd::prelude::*;
use crate::enums::{ApplicationError, APPLICATION_ERROR_NONE};

verus! {

/// What an application status code means: success is the code for "no
/// error", every other code is the error itself.
pub open spec fn status(err: u32) -> Result<(), ApplicationError> {
    if err == APPLICATION_ERROR_NONE {
        Ok(())
    } else {
        Err(ApplicationError(err))
    }
}

/// Result of an application request from its status code.
pub fn mk_err(err: u32) -> (r: Result<(), ApplicationError>)
    ensures
        r == status(err),
{
    if err == APPLICATION_ERROR_NONE {
        Ok(())
    } else {
        Err(ApplicationError::from_raw(err))
    }
}

} // verus!
