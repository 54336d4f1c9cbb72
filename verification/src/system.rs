//! Decisions of the system interface: device properties, adapter indices
//! and the counts handed across the native boundary.

use vstd::prelude::*;
use crate::enums::{
    FirmwareError, TrackedPropertyError, FIRMWARE_ERROR_NONE, TRACKED_PROP_BUFFER_TOO_SMALL,
    TRACKED_PROP_SUCCESS,
};
use crate::reply::{filled, grow_to, grown, keep_reported, kept, zeroed};
use crate::Sealed;

verus! {

/// Adapter index with which the runtime says that there is no adapter.
pub const NO_ADAPTER: i32 = -1;

/// Length of the buffer that the first request for a string property offers.
pub const STRING_PROPERTY_FIRST_LEN: u32 = 1;

/// Tag that announces an array of 32-bit integers.
pub const PROPERTY_TAG_INT32: u32 = 2;

/// Tag that announces an array of unsigned 64-bit integers.
pub const PROPERTY_TAG_UINT64: u32 = 3;

/// Tag that announces an array of booleans.
pub const PROPERTY_TAG_BOOL: u32 = 4;

/// What the runtime has to be told about the element type of an array
/// property.
pub trait PropertyTypeImpl {
    /// The tag of the element type.
    spec fn tag() -> u32;

    /// The tag to hand to the runtime.
    fn get_type() -> (t: u32)
        ensures
            t == Self::tag(),
    ;
}

/// A type of which the runtime can deliver an array property.
pub trait PropertyType: Sealed + PropertyTypeImpl {

}

impl Sealed for i32 {

}

impl PropertyTypeImpl for i32 {
    open spec fn tag() -> u32 {
        PROPERTY_TAG_INT32
    }

    fn get_type() -> (t: u32) {
        PROPERTY_TAG_INT32
    }
}

impl PropertyType for i32 {

}

impl Sealed for u64 {

}

impl PropertyTypeImpl for u64 {
    open spec fn tag() -> u32 {
        PROPERTY_TAG_UINT64
    }

    fn get_type() -> (t: u32) {
        PROPERTY_TAG_UINT64
    }
}

impl PropertyType for u64 {

}

impl Sealed for bool {

}

impl PropertyTypeImpl for bool {
    open spec fn tag() -> u32 {
        PROPERTY_TAG_BOOL
    }

    fn get_type() -> (t: u32) {
        PROPERTY_TAG_BOOL
    }
}

impl PropertyType for bool {

}

/// The 32-bit pattern of `raw` read as an unsigned number.
pub open spec fn unsigned_bits(raw: i32) -> u32 {
    if raw >= 0 {
        raw as u32
    } else {
        (raw as int + 0x1_0000_0000) as u32
    }
}

/// Result of a property request from its status code.
pub fn property_result(err: u32) -> (r: Result<(), TrackedPropertyError>)
    ensures
        r == if err == TRACKED_PROP_SUCCESS {
            Ok::<(), TrackedPropertyError>(())
        } else {
            Err::<(), TrackedPropertyError>(TrackedPropertyError(err))
        },
{
    if err == TRACKED_PROP_SUCCESS {
        Ok(())
    } else {
        Err(TrackedPropertyError::from_raw(err))
    }
}

/// Result of a firmware request from its status code.
pub fn firmware_result(err: u32) -> (r: Result<(), FirmwareError>)
    ensures
        r == if err == FIRMWARE_ERROR_NONE {
            Ok::<(), FirmwareError>(())
        } else {
            Err::<(), FirmwareError>(FirmwareError(err))
        },
{
    if err == FIRMWARE_ERROR_NONE {
        Ok(())
    } else {
        Err(FirmwareError::from_raw(err))
    }
}

/// The tag to hand to the runtime with a request for an array of `T`.
pub fn array_property_tag<T: PropertyType>() -> (t: u32)
    ensures
        t == T::tag(),
{
    T::get_type()
}

/// How many whole items of `item_size` bytes lie in `bytes` bytes.
pub open spec fn items_in(bytes: int, item_size: int) -> int {
    bytes / item_size
}

/// How many items of `item_size` bytes it takes to hold `bytes` bytes.
pub open spec fn items_for(bytes: int, item_size: int) -> int {
    if bytes % item_size == 0 {
        bytes / item_size
    } else {
        bytes / item_size + 1
    }
}

/// The byte size of `len` items of `item_size` bytes where a 32-bit count
/// names it.
pub open spec fn byte_size(len: int, item_size: int) -> Option<u32> {
    if len * item_size <= u32::MAX as int {
        Some((len * item_size) as u32)
    } else {
        None
    }
}

/// The byte size to announce to the runtime for a buffer of `len` items of
/// `item_size` bytes each, or nothing where a 32-bit count cannot name it.
pub fn array_byte_size(len: usize, item_size: usize) -> (r: Option<u32>)
    ensures
        r == byte_size(len as int, item_size as int),
{
    match len.checked_mul(item_size) {
        Some(bytes) => if bytes <= 0xffff_ffffusize {
            Some(bytes as u32)
        } else {
            None
        },
        None => None,
    }
}

/// Settles a request for an array property. The runtime counts in bytes, the
/// buffer in items of `item_size` bytes. On success the buffer is cut down to
/// the whole items among the reported bytes and the answer has arrived. On
/// "buffer too small" the buffer is made long enough to hold the reported
/// bytes, to be offered again. Every other code is the error, and the buffer
/// stays as it is.
pub fn array_property_step<T: Copy>(
    buffer: &mut Vec<T>,
    err: u32,
    reported: u32,
    item_size: usize,
    fill: T,
) -> (r: Result<bool, TrackedPropertyError>)
    requires
        item_size > 0,
    ensures
        err == TRACKED_PROP_SUCCESS ==> r == Ok::<bool, TrackedPropertyError>(true)
            && final(buffer)@ == kept(
            old(buffer)@,
            items_in(reported as int, item_size as int),
        ),
        err == TRACKED_PROP_BUFFER_TOO_SMALL ==> r == Ok::<bool, TrackedPropertyError>(false)
            && final(buffer)@ == grown(
            old(buffer)@,
            items_for(reported as int, item_size as int),
            fill,
        ),
        err != TRACKED_PROP_SUCCESS && err != TRACKED_PROP_BUFFER_TOO_SMALL ==> r == Err::<
            bool,
            TrackedPropertyError,
        >(TrackedPropertyError(err)) && final(buffer)@ == old(buffer)@,
{
    let bytes = reported as usize;
    let whole = bytes / item_size;
    assert(0 <= whole <= bytes) by (nonlinear_arith)
        requires
            whole == bytes as int / item_size as int,
            item_size > 0,
    ;
    if err == TRACKED_PROP_SUCCESS {
        keep_reported(buffer, whole as u32);
        Ok(true)
    } else if err == TRACKED_PROP_BUFFER_TOO_SMALL {
        if bytes % item_size == 0 {
            grow_to(buffer, whole as u32, fill);
        } else {
            assert(whole < bytes) by (nonlinear_arith)
                requires
                    whole == bytes as int / item_size as int,
                    item_size > 0,
                    bytes as int % item_size as int != 0,
            ;
            grow_to(buffer, (whole + 1) as u32, fill);
        }
        Ok(false)
    } else {
        Err(TrackedPropertyError::from_raw(err))
    }
}

/// The buffer that the first request for a string property offers.
pub fn string_property_buffer() -> (buffer: Vec<u8>)
    ensures
        buffer@ == filled(STRING_PROPERTY_FIRST_LEN as int, 0u8),
{
    zeroed(STRING_PROPERTY_FIRST_LEN as usize)
}

/// Settles a request for a string property. On success the whole buffer is
/// the text, terminator included, and the answer has arrived. On "buffer too
/// small" a fresh buffer of the reported length takes its place, to be
/// offered next. Every other code is the error, and the buffer stays as it
/// is.
pub fn string_property_step(buffer: &mut Vec<u8>, err: u32, reported: u32) -> (r: Result<
    bool,
    TrackedPropertyError,
>)
    ensures
        err == TRACKED_PROP_SUCCESS ==> r == Ok::<bool, TrackedPropertyError>(true) && final(buffer)@ == old(buffer)@,
        err == TRACKED_PROP_BUFFER_TOO_SMALL ==> r == Ok::<bool, TrackedPropertyError>(false)
            && final(buffer)@ == filled(reported as int, 0u8),
        err != TRACKED_PROP_SUCCESS && err != TRACKED_PROP_BUFFER_TOO_SMALL ==> r == Err::<
            bool,
            TrackedPropertyError,
        >(TrackedPropertyError(err)) && final(buffer)@ == old(buffer)@,
{
    if err == TRACKED_PROP_SUCCESS {
        Ok(true)
    } else if err == TRACKED_PROP_BUFFER_TOO_SMALL {
        *buffer = zeroed(reported as usize);
        Ok(false)
    } else {
        Err(TrackedPropertyError::from_raw(err))
    }
}

/// The response to a debug request: the bytes of the buffer that the runtime
/// reported to have written.
pub fn debug_response(buffer: Vec<u8>, reported: u32) -> (response: Vec<u8>)
    ensures
        response@ == kept(buffer@, reported as int),
{
    let mut response = buffer;
    keep_reported(&mut response, reported);
    response
}

/// The adapter index that the runtime reported, or nothing where it reported
/// that there is none. An index is the reported bit pattern read as an
/// unsigned number.
pub fn adapter_index(raw: i32) -> (r: Option<u32>)
    ensures
        r == if raw == NO_ADAPTER {
            None
        } else {
            Some(unsigned_bits(raw))
        },
{
    if raw == NO_ADAPTER {
        None
    } else if raw >= 0 {
        Some(raw as u32)
    } else {
        Some(u32::MAX - ((-1 - raw) as u32))
    }
}

/// The number of poses to announce for a buffer of `len` poses, or nothing
/// where a 32-bit count cannot name it.
pub fn pose_count(len: usize) -> (r: Option<u32>)
    ensures
        r == if len as int <= u32::MAX as int {
            Some(len as u32)
        } else {
            None
        },
{
    if len <= 0xffff_ffffusize {
        Some(len as u32)
    } else {
        None
    }
}

} // verus!
