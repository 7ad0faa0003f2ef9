//! Bus addresses, register addresses and command values of the BMI088.
use vstd::prelude::*;

verus! {

/// Bus address of the accelerometer die.
pub const ACCEL_I2C_ADDR: u16 = 0x18;

/// Bus address of the gyroscope die.
pub const GYRO_I2C_ADDR: u16 = 0x68;

/// Accelerometer identity register and the value it must hold.
pub const ACC_CHIP_ID: u8 = 0x00;

pub const ACC_CHIP_ID_VALUE: u8 = 0x1E;

/// Accelerometer soft-reset register and the command that resets the die.
pub const ACC_SOFTRESET: u8 = 0x7E;

pub const SOFT_RESET_CMD: u8 = 0xB6;

/// Accelerometer power-control register; `ACC_ENABLE` switches the
/// accelerometer on and leaves the temperature sensor off.
pub const ACC_PWR_CTRL: u8 = 0x7D;

pub const ACC_ENABLE: u8 = 0x04;

/// Accelerometer configuration register; `ACC_CONF_OSR4` selects an
/// oversampling ratio of four.
pub const ACC_CONF: u8 = 0x40;

pub const ACC_CONF_OSR4: u8 = 0x80;

/// Accelerometer range register.
pub const ACC_RANGE: u8 = 0x41;

/// Gyroscope identity register and the value it must hold.
pub const GYRO_CHIP_ID: u8 = 0x00;

pub const GYRO_CHIP_ID_VALUE: u8 = 0x0F;

/// Gyroscope range register.
pub const GYRO_RANGE: u8 = 0x0F;

/// Gyroscope bandwidth register and the setting written to it.
pub const GYRO_BANDWIDTH: u8 = 0x10;

pub const GYRO_BANDWIDTH_SETTING: u8 = 0x07;

/// Gyroscope power-mode register; `GYRO_NORMAL_MODE` selects normal mode.
pub const GYRO_POWER_MODE: u8 = 0x11;

pub const GYRO_NORMAL_MODE: u8 = 0x00;

/// Minimum pause, in milliseconds, after a soft reset before the
/// accelerometer accepts further commands.
pub const SETTLE_MILLIS: u64 = 50;

/// One of the two logical sensors of the unit.
#[derive(Clone, Copy, Debug, PartialEq, Eq, Structural)]
pub enum Channel {
    Accel,
    Gyro,
}

/// The identity value that a channel's chip-id register must hold.
pub open spec fn expected_identity(channel: Channel) -> u8 {
    match channel {
        Channel::Accel => ACC_CHIP_ID_VALUE,
        Channel::Gyro => GYRO_CHIP_ID_VALUE,
    }
}

impl Channel {
    /// The identity value that this channel's chip-id register must hold.
    pub fn identity_value(self) -> (r: u8)
        ensures
            r == expected_identity(self),
    {
        match self {
            Channel::Accel => ACC_CHIP_ID_VALUE,
            Channel::Gyro => GYRO_CHIP_ID_VALUE,
        }
    }

    /// The bus address of this channel's die.
    pub fn bus_address(self) -> (r: u16)
        ensures
            r == (match self {
                Channel::Accel => ACCEL_I2C_ADDR,
                Channel::Gyro => GYRO_I2C_ADDR,
            }),
    {
        match self {
            Channel::Accel => ACCEL_I2C_ADDR,
            Channel::Gyro => GYRO_I2C_ADDR,
        }
    }
}

/// Full-scale range of the accelerometer.
#[derive(Clone, Copy, Debug, PartialEq, Eq, Structural)]
pub enum AccelRange {
    G3,
    G6,
    G12,
    G24,
}

impl AccelRange {
    /// The value written to the range register for this range.
    pub open spec fn spec_bits(self) -> u8 {
        match self {
            AccelRange::G3 => 0x00,
            AccelRange::G6 => 0x01,
            AccelRange::G12 => 0x02,
            AccelRange::G24 => 0x03,
        }
    }

    #[verifier::when_used_as_spec(spec_bits)]
    pub fn bits(self) -> (r: u8)
        ensures
            r == self.spec_bits(),
    {
        match self {
            AccelRange::G3 => 0x00,
            AccelRange::G6 => 0x01,
            AccelRange::G12 => 0x02,
            AccelRange::G24 => 0x03,
        }
    }
}

/// Full-scale range of the gyroscope, in degrees per second.
#[derive(Clone, Copy, Debug, PartialEq, Eq, Structural)]
pub enum GyroRange {
    Dps2000,
    Dps1000,
    Dps500,
    Dps250,
    Dps125,
}

impl GyroRange {
    /// The value written to the range register for this range.
    pub open spec fn spec_bits(self) -> u8 {
        match self {
            GyroRange::Dps2000 => 0x00,
            GyroRange::Dps1000 => 0x01,
            GyroRange::Dps500 => 0x02,
            GyroRange::Dps250 => 0x03,
            GyroRange::Dps125 => 0x04,
        }
    }

    #[verifier::when_used_as_spec(spec_bits)]
    pub fn bits(self) -> (r: u8)
        ensures
            r == self.spec_bits(),
    {
        match self {
            GyroRange::Dps2000 => 0x00,
            GyroRange::Dps1000 => 0x01,
            GyroRange::Dps500 => 0x02,
            GyroRange::Dps250 => 0x03,
            GyroRange::Dps125 => 0x04,
        }
    }
}

} // verus!
