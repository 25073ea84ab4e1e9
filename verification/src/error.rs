use vstd::prelude::*;

verus! {

/// Errors raised by the protocol engine. Transport failures are the caller's
/// concern: the library never performs I/O itself.
#[derive(Debug, Clone, Copy, PartialEq, Eq, Structural)]
pub enum ProtocolError {
    /// A frame payload longer than the 62 bytes a frame can carry.
    PayloadTooLarge,
    /// An SPI read against a selector the flash table does not hold.
    SpiMiss,
    /// An SPI read whose offset/length range falls outside the stored region
    /// or whose data would not fit in a reply frame.
    SpiBadRange,
}

} // verus!
