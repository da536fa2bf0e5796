use vstd::prelude::*;

use crate::error::ErrorCode;
use crate::key::PublicKey;
use crate::track::{after_tokenize, Track};

verus! {

/// Basis points in a whole: a royalty percentage of 10000 is 100%.
pub const BASIS_POINTS: u64 = 10000;

/// How one royalty payment is divided.
#[derive(Clone, Copy, Debug, PartialEq, Eq, Structural)]
pub struct RoyaltySplit {
    /// Left to the token holders, as a lump sum.
    pub token_holders_share: u64,
    /// Paid to the creator at once.
    pub artist_share: u64,
}

/// The notice that a royalty payment was distributed.
#[derive(Clone, Copy, Debug, PartialEq, Eq)]
pub struct RoyaltyDistributed {
    /// Address of the track record.
    pub track: PublicKey,
    /// The whole payment.
    pub total_amount: u64,
    /// The part owed to the token holders.
    pub token_holders_share: u64,
    /// The part paid to the creator.
    pub artist_share: u64,
}

/// The accounts that distributing a royalty payment involves.
#[derive(Clone, Debug)]
pub struct DistributeRoyalties {
    /// The record of the track.
    pub track: Track,
    /// The address of the record.
    pub track_address: PublicKey,
    /// The signer who claims to be the creator; receives the creator's share.
    pub artist: PublicKey,
    /// The signer who pays the creator's share.
    pub royalty_payer: PublicKey,
}

/// The token holders' share of `amount` at `percentage` basis points, rounded
/// down.
pub open spec fn holders_share_of(amount: int, percentage: int) -> int {
    amount * percentage / BASIS_POINTS as int
}

/// The split of `amount` at `percentage` basis points, or `None` where a step
/// leaves the range of `u64`: the product, or the creator's part below zero.
pub open spec fn royalty_split(amount: u64, percentage: u16) -> Option<RoyaltySplit> {
    if amount * percentage > u64::MAX {
        None
    } else if holders_share_of(amount as int, percentage as int) > amount {
        None
    } else {
        let h = holders_share_of(amount as int, percentage as int);
        Some(RoyaltySplit { token_holders_share: h as u64, artist_share: (amount - h) as u64 })
    }
}

/// What distributing `amount` does to `track` when `caller` claims to be its
/// creator and the record stands at `address`: the new record and the notice,
/// or the error.
pub open spec fn distribution_outcome(
    track: Track,
    address: PublicKey,
    caller: PublicKey,
    amount: u64,
) -> Result<(Track, RoyaltyDistributed), ErrorCode> {
    if track.artist@ != caller@ {
        Err(ErrorCode::UnauthorizedArtist)
    } else {
        match royalty_split(amount, track.royalty_percentage) {
            None => Err(ErrorCode::MathOverflow),
            Some(split) => {
                if track.total_royalties_collected + amount > u64::MAX {
                    Err(ErrorCode::MathOverflow)
                } else {
                    Ok(
                        (
                            Track {
                                total_royalties_collected: (track.total_royalties_collected
                                    + amount) as u64,
                                ..track
                            },
                            RoyaltyDistributed {
                                track: address,
                                total_amount: amount,
                                token_holders_share: split.token_holders_share,
                                artist_share: split.artist_share,
                            },
                        ),
                    )
                }
            },
        }
    }
}

/// Splits `royalty_amount` between the token holders, who get
/// `royalty_percentage` basis points of it rounded down, and the creator, who
/// gets the rest. Fails with `MathOverflow` where a step leaves `u64`.
pub fn compute_royalty_split(royalty_amount: u64, royalty_percentage: u16) -> (r: Result<
    RoyaltySplit,
    ErrorCode,
>)
    ensures
        match royalty_split(royalty_amount, royalty_percentage) {
            Some(s) => r == Ok::<RoyaltySplit, ErrorCode>(s),
            None => r == Err::<RoyaltySplit, ErrorCode>(ErrorCode::MathOverflow),
        },
{
    let product = match royalty_amount.checked_mul(royalty_percentage as u64) {
        Some(p) => p,
        None => {
            return Err(ErrorCode::MathOverflow);
        },
    };
    let token_holders_share = match product.checked_div(BASIS_POINTS) {
        Some(h) => h,
        None => {
            return Err(ErrorCode::MathOverflow);
        },
    };
    let artist_share = match royalty_amount.checked_sub(token_holders_share) {
        Some(a) => a,
        None => {
            return Err(ErrorCode::MathOverflow);
        },
    };
    Ok(RoyaltySplit { token_holders_share, artist_share })
}

/// Distributes a royalty payment of `royalty_amount`: checks that the caller
/// is the track's creator, splits the amount, and adds it to the royalties
/// collected. On success the returned notice holds the split; its
/// `artist_share` is what the payer owes the creator. On failure the record is
/// left as it was.
pub fn distribute_royalties(ctx: &mut DistributeRoyalties, royalty_amount: u64) -> (r: Result<
    RoyaltyDistributed,
    ErrorCode,
>)
    ensures
        final(ctx).track_address == old(ctx).track_address,
        final(ctx).artist == old(ctx).artist,
        final(ctx).royalty_payer == old(ctx).royalty_payer,
        match distribution_outcome(
            old(ctx).track,
            old(ctx).track_address,
            old(ctx).artist,
            royalty_amount,
        ) {
            Ok((t, event)) => r == Ok::<RoyaltyDistributed, ErrorCode>(event) && final(ctx).track
                == t,
            Err(e) => r == Err::<RoyaltyDistributed, ErrorCode>(e) && final(ctx).track == old(
                ctx,
            ).track,
        },
        old(ctx).track.wf() ==> final(ctx).track.wf(),
{
    if ctx.track.artist != ctx.artist {
        return Err(ErrorCode::UnauthorizedArtist);
    }
    let split = match compute_royalty_split(royalty_amount, ctx.track.royalty_percentage) {
        Ok(s) => s,
        Err(e) => {
            return Err(e);
        },
    };
    let total = match ctx.track.total_royalties_collected.checked_add(royalty_amount) {
        Some(t) => t,
        None => {
            return Err(ErrorCode::MathOverflow);
        },
    };
    ctx.track.total_royalties_collected = total;
    Ok(
        RoyaltyDistributed {
            track: ctx.track_address,
            total_amount: royalty_amount,
            token_holders_share: split.token_holders_share,
            artist_share: split.artist_share,
        },
    )
}

/// With a percentage of at most 10000 basis points, the split of an amount
/// fails only where the product of amount and percentage leaves `u64`;
/// otherwise the two shares add up to the amount exactly, and the token
/// holders' share is the product divided by 10000, rounded down.
pub proof fn lemma_split_is_exact(amount: u64, percentage: u16)
    requires
        percentage <= BASIS_POINTS,
    ensures
        royalty_split(amount, percentage) is None <==> amount * percentage > u64::MAX,
        royalty_split(amount, percentage) matches Some(s) ==> s.token_holders_share
            + s.artist_share == amount && s.token_holders_share == amount * percentage
            / BASIS_POINTS as int,
{
    let a = amount as int;
    let p = percentage as int;
    assert(a * p / 10000 <= a) by (nonlinear_arith)
        requires
            0 <= a,
            0 <= p <= 10000,
    ;
}

/// A caller who is not the creator of the track is refused as unauthorized,
/// whatever the amount.
pub proof fn lemma_distribution_needs_creator(
    track: Track,
    address: PublicKey,
    caller: PublicKey,
    amount: u64,
)
    requires
        track.artist@ != caller@,
    ensures
        distribution_outcome(track, address, caller, amount) == Err::<
            (Track, RoyaltyDistributed),
            ErrorCode,
        >(ErrorCode::UnauthorizedArtist),
{
}

/// Two distributions by the creator, each within the range of `u64`, both
/// succeed, and the royalties collected grow by the sum of the two amounts.
pub proof fn lemma_distributions_accumulate(
    track: Track,
    address: PublicKey,
    caller: PublicKey,
    first: u64,
    second: u64,
)
    requires
        track.artist@ == caller@,
        track.royalty_percentage <= BASIS_POINTS,
        first * track.royalty_percentage <= u64::MAX,
        second * track.royalty_percentage <= u64::MAX,
        track.total_royalties_collected + first + second <= u64::MAX,
    ensures
        distribution_outcome(track, address, caller, first) matches Ok((t1, _))
            && distribution_outcome(t1, address, caller, second) matches Ok((t2, _))
            && t2.total_royalties_collected == track.total_royalties_collected + first + second,
{
    lemma_split_is_exact(first, track.royalty_percentage);
    lemma_split_is_exact(second, track.royalty_percentage);
}

/// Once tokenized, a record stays tokenized with the same mint: neither a
/// further tokenization nor a distribution changes either, and a distribution
/// only ever raises the royalties collected, by the amount distributed.
pub proof fn lemma_tokenized_is_final(
    track: Track,
    address: PublicKey,
    caller: PublicKey,
    mint: PublicKey,
    amount: u64,
)
    requires
        track.is_tokenized,
    ensures
        after_tokenize(track, caller, mint) == track,
        distribution_outcome(track, address, caller, amount) matches Ok((t, _)) ==> t.is_tokenized
            && t.token_mint == track.token_mint && t.total_royalties_collected
            == track.total_royalties_collected + amount,
{
}

} // verus!
