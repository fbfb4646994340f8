//! Reason and status codes reported by the bootloader, and the failure
//! classes of a flashing session.

use vstd::prelude::*;

verus! {

/// Why the device entered its bootloader instead of the application.
#[derive(Clone, Copy, Debug, PartialEq, Eq, Structural)]
pub enum BootloaderReason {
    Unknown,
    NotEnteringBootloader,
    BootTokenPresent,
    BootFailedTooManyTimes,
    NoProgramPresent,
    ButtonHeldDown,
}

/// The status that the device reports in the second byte of a response.
#[derive(Clone, Copy, Debug, PartialEq, Eq, Structural)]
pub enum BootloaderError {
    Unknown,
    NoError,
    UnhandledCommand,
    AddressOutOfRange,
    NoAddressSet,
    SubsystemError,
    AddressNotValid,
    SizeNotValid,
    KeyNotValid,
    FlashNotErased,
}

/// Why an operation of a session was given up.
#[derive(Clone, Copy, Debug, PartialEq, Eq, Structural)]
pub enum Failure {
    /// A write or read on the transport itself failed.
    Transport,
    /// A read returned no bytes before its deadline.
    Timeout,
    /// A response did not have the shape that the request calls for.
    Protocol,
    /// The device answered with a non-zero status.
    Device(BootloaderError),
    /// The device reported a flash geometry that 32 bits cannot hold.
    InvalidInfo,
    /// The protocol version of the session lacks the command.
    Unsupported,
}

/// The reason that a wire code stands for; a code outside the known set is
/// `Unknown`.
pub open spec fn reason_of(code: u8) -> BootloaderReason {
    match code {
        0 => BootloaderReason::NotEnteringBootloader,
        1 => BootloaderReason::BootTokenPresent,
        2 => BootloaderReason::BootFailedTooManyTimes,
        3 => BootloaderReason::NoProgramPresent,
        4 => BootloaderReason::ButtonHeldDown,
        _ => BootloaderReason::Unknown,
    }
}

/// The device error that a status byte stands for; a byte outside the known
/// set is `Unknown`.
pub open spec fn error_of(status: u8) -> BootloaderError {
    match status {
        0 => BootloaderError::NoError,
        1 => BootloaderError::UnhandledCommand,
        2 => BootloaderError::AddressOutOfRange,
        3 => BootloaderError::NoAddressSet,
        4 => BootloaderError::SubsystemError,
        5 => BootloaderError::AddressNotValid,
        6 => BootloaderError::SizeNotValid,
        7 => BootloaderError::KeyNotValid,
        8 => BootloaderError::FlashNotErased,
        _ => BootloaderError::Unknown,
    }
}

impl From<u8> for BootloaderReason {
    fn from(kind: u8) -> (reason: Self) {
        dumb_from(kind)
    }
}

impl vstd::std_specs::convert::FromSpecImpl<u8> for BootloaderReason {
    open spec fn obeys_from_spec() -> bool {
        true
    }

    open spec fn from_spec(kind: u8) -> Self {
        reason_of(kind)
    }
}

/// Decodes the reason byte of an Info response.
pub fn dumb_from(kind: u8) -> (reason: BootloaderReason)
    ensures
        reason == reason_of(kind),
{
    match kind {
        0 => BootloaderReason::NotEnteringBootloader,
        1 => BootloaderReason::BootTokenPresent,
        2 => BootloaderReason::BootFailedTooManyTimes,
        3 => BootloaderReason::NoProgramPresent,
        4 => BootloaderReason::ButtonHeldDown,
        _ => BootloaderReason::Unknown,
    }
}

/// Decodes the status byte of a response.
pub fn bootloader_error_from_u8(kind: u8) -> (error: BootloaderError)
    ensures
        error == error_of(kind),
{
    match kind {
        0 => BootloaderError::NoError,
        1 => BootloaderError::UnhandledCommand,
        2 => BootloaderError::AddressOutOfRange,
        3 => BootloaderError::NoAddressSet,
        4 => BootloaderError::SubsystemError,
        5 => BootloaderError::AddressNotValid,
        6 => BootloaderError::SizeNotValid,
        7 => BootloaderError::KeyNotValid,
        8 => BootloaderError::FlashNotErased,
        _ => BootloaderError::Unknown,
    }
}

/// A status byte decodes to `NoError` exactly when it is zero, so a
/// non-zero status never passes for success.
pub proof fn lemma_no_error_iff_zero(status: u8)
    ensures
        error_of(status) == BootloaderError::NoError <==> status == 0,
{
}

} // verus!
