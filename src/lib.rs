//! Tokenized ownership of a creative work ("track") and the split of the
//! royalties it earns between its creator and the holders of its tokens.
//!
//! The library holds the rules: how a track record is created, how it becomes
//! tokenized exactly once, and how a royalty payment is split with checked
//! arithmetic behind an authorization check. Moving value, minting tokens and
//! storing records are left to the ledger that runs these rules.
pub mod error;
pub mod key;
pub mod royalty;
pub mod track;

pub use error::ErrorCode;
pub use key::PublicKey;
pub use royalty::{
    compute_royalty_split, distribute_royalties, DistributeRoyalties, RoyaltyDistributed,
    RoyaltySplit,
};
pub use track::{
    initialize_track, tokenize_track, InitializeTrack, MintOrder, TokenizeTrack, Track,
    TrackAuthority,
};
