use vstd::prelude::*;

verus! {

/// Why an operation on a track record was refused.
#[derive(Clone, Copy, Debug, PartialEq, Eq, Structural)]
pub enum ErrorCode {
    /// The track has already been tokenized.
    TrackAlreadyTokenized,
    /// The track is not tokenized yet (reserved: no operation raises it).
    TrackNotTokenized,
    /// The caller is not the creator recorded on the track.
    UnauthorizedArtist,
    /// Not enough tokens are left (reserved: no operation raises it).
    InsufficientTokenSupply,
    /// A step of the royalty arithmetic left the range of `u64`.
    MathOverflow,
}

} // verus!
