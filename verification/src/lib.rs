//! Driver core for a digital gas-sensing chip on a two-wire serial bus.
//!
//! The crate holds the protocol engine only: the register map, the
//! fixed-point encoding of environmental data, the decoding of measurement
//! blocks, and the step machines that sequence the lifecycle and firmware
//! flashing procedures. Performing the bus transactions themselves is the
//! caller's part: each machine hands out one [`bus::BusAction`] at a time and
//! is stepped with the [`bus::BusEvent`] the transport produced.

pub mod bus;
pub mod codec;
pub mod error;
pub mod flashing;
pub mod lifecycle;
pub mod measure;
pub mod regs;

pub use codec::encode_fixed;
pub use error::Ccs811Error;
pub use lifecycle::Ccs811Mode;
pub use lifecycle::Ccs811Mode as MODE;
pub use measure::Ccs811Data;
