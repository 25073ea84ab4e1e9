//! Wire-level emulation of a game-controller protocol: frame codec, input
//! report packing, SPI-flash read emulation, and the command dispatcher that
//! drives the handshake and streaming session.

pub mod counter;
pub mod dispatch;
pub mod error;
pub mod frame;
pub mod report;
pub mod spi;
