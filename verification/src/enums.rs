//! Status codes of the runtime as typed values.
//!
//! Every code is a thin layer over the unsigned integer that crosses the
//! native boundary: any integer is a value of the type, and the named
//! constants give the codes that the rest of the crate decides on.

use vstd::prelude::*;

verus! {

/// Initialisation succeeded.
pub const INIT_ERROR_NONE: u32 = 0;

/// The runtime does not offer the requested interface version.
pub const INIT_ERROR_INTERFACE_NOT_FOUND: u32 = 105;

/// An input request succeeded.
pub const INPUT_ERROR_NONE: u32 = 0;

/// The buffer handed to an input request cannot hold the answer.
pub const INPUT_ERROR_BUFFER_TOO_SMALL: u32 = 14;

/// An overlay request succeeded.
pub const OVERLAY_ERROR_NONE: u32 = 0;

/// The array handed to an overlay request cannot hold the answer.
pub const OVERLAY_ERROR_ARRAY_TOO_SMALL: u32 = 22;

/// An application request succeeded.
pub const APPLICATION_ERROR_NONE: u32 = 0;

/// A device property was read.
pub const TRACKED_PROP_SUCCESS: u32 = 0;

/// The buffer handed to a property request cannot hold the value.
pub const TRACKED_PROP_BUFFER_TOO_SMALL: u32 = 3;

/// A firmware request raised no error.
pub const FIRMWARE_ERROR_NONE: u32 = 0;

/// Why the runtime could not be initialised or an interface not be resolved.
#[derive(Copy, Clone, PartialEq, Eq, Debug, Structural)]
pub struct InitError(pub u32);

impl InitError {
    pub fn from_raw(raw: u32) -> (e: Self)
        ensures
            e == InitError(raw),
    {
        InitError(raw)
    }

    pub fn as_raw(self) -> (raw: u32)
        ensures
            raw == self.0,
    {
        self.0
    }
}

/// Why an input request failed.
#[derive(Copy, Clone, PartialEq, Eq, Debug, Structural)]
pub struct InputError(pub u32);

impl InputError {
    pub fn from_raw(raw: u32) -> (e: Self)
        ensures
            e == InputError(raw),
    {
        InputError(raw)
    }

    pub fn as_raw(self) -> (raw: u32)
        ensures
            raw == self.0,
    {
        self.0
    }
}

/// Why an overlay request failed.
#[derive(Copy, Clone, PartialEq, Eq, Debug, Structural)]
pub struct OverlayError(pub u32);

impl OverlayError {
    pub fn from_raw(raw: u32) -> (e: Self)
        ensures
            e == OverlayError(raw),
    {
        OverlayError(raw)
    }

    pub fn as_raw(self) -> (raw: u32)
        ensures
            raw == self.0,
    {
        self.0
    }
}

/// Why an application-manifest request failed.
#[derive(Copy, Clone, PartialEq, Eq, Debug, Structural)]
pub struct ApplicationError(pub u32);

impl ApplicationError {
    pub fn from_raw(raw: u32) -> (e: Self)
        ensures
            e == ApplicationError(raw),
    {
        ApplicationError(raw)
    }

    pub fn as_raw(self) -> (raw: u32)
        ensures
            raw == self.0,
    {
        self.0
    }
}

/// Why a device property could not be read.
#[derive(Copy, Clone, PartialEq, Eq, Debug, Structural)]
pub struct TrackedPropertyError(pub u32);

impl TrackedPropertyError {
    pub fn from_raw(raw: u32) -> (e: Self)
        ensures
            e == TrackedPropertyError(raw),
    {
        TrackedPropertyError(raw)
    }

    pub fn as_raw(self) -> (raw: u32)
        ensures
            raw == self.0,
    {
        self.0
    }
}

/// Why a firmware update was not started.
#[derive(Copy, Clone, PartialEq, Eq, Debug, Structural)]
pub struct FirmwareError(pub u32);

impl FirmwareError {
    pub fn from_raw(raw: u32) -> (e: Self)
        ensures
            e == FirmwareError(raw),
    {
        FirmwareError(raw)
    }

    pub fn as_raw(self) -> (raw: u32)
        ensures
            raw == self.0,
    {
        self.0
    }
}

} // verus!
