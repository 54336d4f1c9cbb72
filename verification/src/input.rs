//! Decisions of the input interface: status codes, the fetching of
//! compressed skeletal data, and the name of a bone.

use vstd::prelude::*;
use crate::enums::{InputError, INPUT_ERROR_BUFFER_TOO_SMALL, INPUT_ERROR_NONE};
use crate::reply::{grow_to, grown, keep_reported, kept};
use crate::text::{is_text_of, text_before_nul};

verus! {

/// What an input status code means: success is the code for "no error",
/// every other code is the error itself.
pub open spec fn status(err: u32) -> Result<(), InputError> {
    if err == INPUT_ERROR_NONE {
        Ok(())
    } else {
        Err(InputError(err))
    }
}

/// Result of an input request from its status code.
pub fn mk_err(err: u32) -> (r: Result<(), InputError>)
    ensures
        r == status(err),
{
    if err == INPUT_ERROR_NONE {
        Ok(())
    } else {
        Err(InputError::from_raw(err))
    }
}

/// Settles a request for compressed skeletal data. On "buffer too small" the
/// buffer is made long enough for the required bytes, to be offered again.
/// Every other error code is final, and the buffer stays as it is. On
/// success the buffer is cut down to the required bytes and the answer has
/// arrived.
pub fn compressed_bone_data_step(buffer: &mut Vec<u8>, err: u32, required: u32) -> (r: Result<
    bool,
    InputError,
>)
    ensures
        err == INPUT_ERROR_BUFFER_TOO_SMALL ==> r == Ok::<bool, InputError>(false) && final(buffer)@ == grown(old(buffer)@, required as int, 0u8),
        err == INPUT_ERROR_NONE ==> r == Ok::<bool, InputError>(true) && final(buffer)@ == kept(
            old(buffer)@,
            required as int,
        ),
        err != INPUT_ERROR_BUFFER_TOO_SMALL && err != INPUT_ERROR_NONE ==> r == Err::<
            bool,
            InputError,
        >(InputError(err)) && final(buffer)@ == old(buffer)@,
{
    if err == INPUT_ERROR_BUFFER_TOO_SMALL {
        grow_to(buffer, required, 0u8);
        Ok(false)
    } else {
        match mk_err(err) {
            Ok(_) => {
                keep_reported(buffer, required);
                Ok(true)
            },
            Err(e) => Err(e),
        }
    }
}

/// The name of a bone from the reply to the request for it: the error where
/// the runtime raised one, else the text in the buffer, which is missing
/// where the runtime left the buffer without a terminator.
pub fn bone_name(err: u32, buffer: Vec<u8>) -> (r: Result<Option<Vec<u8>>, InputError>)
    ensures
        err != INPUT_ERROR_NONE ==> r == Err::<Option<Vec<u8>>, InputError>(InputError(err)),
        err == INPUT_ERROR_NONE ==> match r {
            Ok(Some(text)) => is_text_of(text@, buffer@),
            Ok(None) => !buffer@.contains(0u8),
            Err(_) => false,
        },
{
    match mk_err(err) {
        Ok(_) => Ok(text_before_nul(buffer)),
        Err(e) => Err(e),
    }
}

} // verus!
