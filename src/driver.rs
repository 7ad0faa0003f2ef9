//! The driver handle: both channels, configured, with their bus handles.
use crate::registers::{AccelRange, GyroRange};
use crate::sequencer::InitSequencer;
use vstd::prelude::*;

verus! {

/// A BMI088 whose two channels both completed the power-up sequence.
///
/// `B` is the handle through which a channel reaches its bus device. The
/// only way to obtain a value is `assemble`, from a sequencer that reached
/// `Ready`; a failed or unfinished power-up yields no handle.
pub struct AsyncBmi088<B> {
    accel_i2c: B,
    gyro_i2c: B,
    accel_range: AccelRange,
    gyro_range: GyroRange,
}

impl<B> AsyncBmi088<B> {
    pub closed spec fn spec_accel_range(&self) -> AccelRange {
        self.accel_range
    }

    pub closed spec fn spec_gyro_range(&self) -> GyroRange {
        self.gyro_range
    }

    pub closed spec fn spec_accel_bus(&self) -> B {
        self.accel_i2c
    }

    pub closed spec fn spec_gyro_bus(&self) -> B {
        self.gyro_i2c
    }

    /// Builds the handle from a finished power-up: `Some` exactly when the
    /// sequencer is ready, carrying the ranges it configured and the two bus
    /// handles; `None` (and both bus handles dropped) otherwise.
    pub fn assemble(seq: InitSequencer, accel_i2c: B, gyro_i2c: B) -> (r: Option<AsyncBmi088<B>>)
        ensures
            r.is_some() == seq@.is_ready(),
            r matches Some(h) ==> {
                &&& h.spec_accel_range() == seq@.accel_range
                &&& h.spec_gyro_range() == seq@.gyro_range
                &&& h.spec_accel_bus() == accel_i2c
                &&& h.spec_gyro_bus() == gyro_i2c
            },
    {
        match seq.state() {
            crate::sequencer::DriverState::Ready => Some(
                AsyncBmi088 {
                    accel_i2c,
                    gyro_i2c,
                    accel_range: seq.accel_range(),
                    gyro_range: seq.gyro_range(),
                },
            ),
            _ => None,
        }
    }

    /// The range the accelerometer was configured with.
    #[verifier::when_used_as_spec(spec_accel_range)]
    pub fn accel_range(&self) -> (r: AccelRange)
        ensures
            r == self.spec_accel_range(),
    {
        self.accel_range
    }

    /// The range the gyroscope was configured with.
    #[verifier::when_used_as_spec(spec_gyro_range)]
    pub fn gyro_range(&self) -> (r: GyroRange)
        ensures
            r == self.spec_gyro_range(),
    {
        self.gyro_range
    }

    /// The bus handle of the accelerometer.
    pub fn accel_bus(&self) -> (r: &B)
        ensures
            *r == self.spec_accel_bus(),
    {
        &self.accel_i2c
    }

    /// The bus handle of the gyroscope.
    pub fn gyro_bus(&self) -> (r: &B)
        ensures
            *r == self.spec_gyro_bus(),
    {
        &self.gyro_i2c
    }
}

} // verus!
