//! Driver for a particulate-matter sensor on a two-wire bus: a device
//! handle over a bus transport, and a verified decoder for the 29-byte data
//! frame the sensor answers with.

pub mod bus;
pub mod device;
pub mod frame;
mod nb_types;
pub mod render;

pub use bus::{I2cRead, I2cWrite, ReadLog, WriteLog};
pub use device::{
    measurement_from_read, select_outcome, Hm3301, DEFAULT_I2C_ADDR, SELECT_I2C_CMD,
};
pub use frame::{decode_frame, expected_checksum, Error, Measurement, FRAME_LEN};
