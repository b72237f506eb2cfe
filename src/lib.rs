//! Driver for the SGP30 gas sensor on an I2C bus.
//!
//! Every response word from the sensor is followed by a CRC-8 checksum; a
//! response is trusted only when all of its checksums match.
pub mod checksum;
pub mod codec;
pub mod device;

pub use checksum::calculate_crc;
pub use codec::{
    decode_feature_set, decode_pair, decode_self_test, decode_serial, decode_word,
    fixed_point_from_milli, push_word,
};
pub use device::{DelayMs, DelayUs, Error, I2cBus, Sgp30, I2C_ADDRESS};
