//! Errors of the driver: bus transport failures, protocol violations and
//! failed worker contexts.
use crate::registers::Channel;
use i2cdev::linux::LinuxI2CError;
use vstd::prelude::*;

verus! {

/// The error that i2cdev's Linux transport reports when opening a device,
/// or reading or writing a register, fails. Carried through unchanged.
#[verifier::external_type_specification]
#[verifier::external_body]
pub struct ExLinuxI2CError(LinuxI2CError);

/// A failure of the bus transport.
#[derive(Debug)]
pub struct AsyncBmiI2CError(pub LinuxI2CError);

impl From<LinuxI2CError> for AsyncBmiI2CError {
    fn from(err: LinuxI2CError) -> (r: AsyncBmiI2CError) {
        AsyncBmiI2CError(err)
    }
}

impl vstd::std_specs::convert::FromSpecImpl<LinuxI2CError> for AsyncBmiI2CError {
    open spec fn obeys_from_spec() -> bool {
        true
    }

    open spec fn from_spec(err: LinuxI2CError) -> AsyncBmiI2CError {
        AsyncBmiI2CError(err)
    }
}

/// Everything that can stop the driver from coming up.
#[derive(Debug)]
pub enum ImuError {
    /// Opening the bus, or a register read or write on it, failed.
    Transport(AsyncBmiI2CError),
    /// A channel's identity register held `found` instead of the chip id
    /// expected for that channel.
    Protocol { channel: Channel, found: u8 },
    /// The worker context that ran a bus transaction did not complete.
    Join(String),
}

impl From<AsyncBmiI2CError> for ImuError {
    fn from(err: AsyncBmiI2CError) -> (r: ImuError) {
        ImuError::Transport(err)
    }
}

impl vstd::std_specs::convert::FromSpecImpl<AsyncBmiI2CError> for ImuError {
    open spec fn obeys_from_spec() -> bool {
        true
    }

    open spec fn from_spec(err: AsyncBmiI2CError) -> ImuError {
        ImuError::Transport(err)
    }
}

} // verus!
