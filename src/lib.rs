//! Driver core for the BMI088 inertial measurement unit: register map,
//! error taxonomy, the power-up sequencer and the driver handle it yields.
pub mod driver;
pub mod error;
pub mod registers;
pub mod sequencer;

pub use driver::AsyncBmi088;
pub use error::{AsyncBmiI2CError, ImuError};
pub use registers::{AccelRange, Channel, GyroRange};
pub use sequencer::{Action, Command, DriverState, InitSequencer};
