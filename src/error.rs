//! Why decoding a partitioning scheme failed.
use vstd::prelude::*;

verus! {

/// The ways in which decoding one partitioning scheme can fail.
#[derive(Debug, Clone, Copy, PartialEq, Eq, Structural)]
pub enum PartError {
    /// Fewer bytes are available than the on-disk format requires.
    TruncatedInput,
    /// The MBR boot signature or the GPT header magic does not match.
    InvalidSignature,
    /// The underlying block source could not be read.
    IoFailure,
    /// An EBR chain holds more links than any sane disk would.
    UnboundedChain,
    /// A relative EBR address added to its base does not fit in 32 bits.
    AddressOverflow,
}

} // verus!
