use vstd::prelude::*;
use vstd::array::array_as_slice;
use vstd::slice::slice_to_vec;
use vstd::utf8::encode_utf8;

use crate::error::ErrorCode;
use crate::key::{unset_key, PublicKey};

verus! {

/// Largest length of a title, in bytes.
pub const MAX_TITLE_LEN: usize = 100;

/// Largest length of a metadata reference, in bytes.
pub const MAX_METADATA_URI_LEN: usize = 200;

/// Length in bytes of the UTF-8 encoding of `s`.
pub open spec fn byte_len(s: Seq<char>) -> int {
    encode_utf8(s).len() as int
}

/// The record of one track: who made it, what it is, and the state of its
/// tokens and royalties.
#[derive(Clone, Debug)]
pub struct Track {
    /// The creator; set at creation and never changed.
    pub artist: PublicKey,
    /// Human-readable name; part of the record's address.
    pub title: String,
    /// Reference to the description of the content.
    pub metadata_uri: String,
    /// The mint of the ownership tokens; unset until tokenization.
    pub token_mint: PublicKey,
    /// Number of ownership tokens minted at tokenization.
    pub total_supply: u64,
    /// Reserved for the sale of tokens; no operation changes it.
    pub tokens_sold: u64,
    /// Reserved for the sale of tokens; no operation reads it.
    pub price_per_token: u64,
    /// Share of each royalty payment owed to token holders, in basis points.
    pub royalty_percentage: u16,
    /// Sum of all royalty amounts distributed so far.
    pub total_royalties_collected: u64,
    /// Whether the tokens have been minted.
    pub is_tokenized: bool,
    /// The salt that, with the creator and the title, re-derives the record's
    /// address.
    pub bump: u8,
}

impl Track {
    /// The record's invariant: bounded texts, and a mint that is set exactly
    /// when the track is tokenized.
    pub open spec fn wf(&self) -> bool {
        &&& byte_len(self.title@) <= MAX_TITLE_LEN
        &&& byte_len(self.metadata_uri@) <= MAX_METADATA_URI_LEN
        &&& self.is_tokenized <==> self.token_mint@ != unset_key()
    }
}

/// The accounts that creating a track involves.
#[derive(Clone, Copy, Debug)]
pub struct InitializeTrack {
    /// The creator, who signs and pays for the new record.
    pub artist: PublicKey,
    /// The salt that the ledger found for the record's address.
    pub track_bump: u8,
}

/// Creates the record of a new track, not yet tokenized and with no royalties.
///
/// The royalty percentage is stored as given: a value above 10000 basis points
/// is not refused here, and makes the royalty split fail for most amounts.
pub fn initialize_track(
    ctx: &InitializeTrack,
    title: String,
    metadata_uri: String,
    total_supply: u64,
    price_per_token: u64,
    royalty_percentage: u16,
) -> (r: Track)
    requires
        byte_len(title@) <= MAX_TITLE_LEN,
        byte_len(metadata_uri@) <= MAX_METADATA_URI_LEN,
    ensures
        r.wf(),
        r.artist == ctx.artist,
        r.title == title,
        r.metadata_uri == metadata_uri,
        r.total_supply == total_supply,
        r.price_per_token == price_per_token,
        r.royalty_percentage == royalty_percentage,
        r.bump == ctx.track_bump,
        r.tokens_sold == 0,
        r.total_royalties_collected == 0,
        !r.is_tokenized,
        r.token_mint@ == unset_key(),
{
    Track {
        artist: ctx.artist,
        title,
        metadata_uri,
        token_mint: PublicKey::unset(),
        total_supply,
        tokens_sold: 0,
        price_per_token,
        royalty_percentage,
        total_royalties_collected: 0,
        is_tokenized: false,
        bump: ctx.track_bump,
    }
}

/// The first seed of every track record's address: the bytes of "track".
pub open spec fn track_seed_prefix() -> Seq<u8> {
    seq![0x74u8, 0x72u8, 0x61u8, 0x63u8, 0x6bu8]
}

/// The power of a track record to sign for itself: its address is re-derived
/// from these values, so whoever holds them can authorize, on the record's
/// behalf, the one operation it is allowed, the mint of its tokens.
#[derive(Clone, Debug)]
pub struct TrackAuthority {
    /// The creator of the track.
    pub artist: PublicKey,
    /// The title of the track.
    pub title: String,
    /// The salt of the record's address.
    pub bump: u8,
}

impl TrackAuthority {
    /// The seeds of the record's address, in order: "track", the creator's
    /// key, the title's bytes, and the salt.
    pub open spec fn spec_seeds(&self) -> Seq<Seq<u8>> {
        seq![track_seed_prefix(), self.artist@, encode_utf8(self.title@), seq![self.bump]]
    }

    /// The seeds of the record's address, as bytes.
    pub fn seeds(&self) -> (r: Vec<Vec<u8>>)
        ensures
            r@.len() == 4,
            forall|i: int| 0 <= i < 4 ==> #[trigger] r@[i]@ == self.spec_seeds()[i],
    {
        let prefix: Vec<u8> = vec![0x74u8, 0x72u8, 0x61u8, 0x63u8, 0x6bu8];
        let artist = slice_to_vec(array_as_slice(&self.artist.bytes));
        let title = slice_to_vec(self.title.as_str().as_bytes());
        let bump: Vec<u8> = vec![self.bump];
        let r = vec![prefix, artist, title, bump];
        assert(r@[0]@ =~= track_seed_prefix());
        assert(r@[3]@ =~= seq![self.bump]);
        r
    }
}

/// The order to mint a track's tokens, which the ledger carries out.
#[derive(Clone, Debug)]
pub struct MintOrder {
    /// The mint of the ownership tokens.
    pub mint: PublicKey,
    /// The token account that receives them.
    pub to: PublicKey,
    /// The record, signing as the mint's authority.
    pub authority: TrackAuthority,
    /// How many tokens to mint.
    pub amount: u64,
}

/// The accounts that tokenizing a track involves.
#[derive(Clone, Debug)]
pub struct TokenizeTrack {
    /// The record of the track.
    pub track: Track,
    /// The new mint of the ownership tokens.
    pub token_mint: PublicKey,
    /// The creator's token account for that mint.
    pub artist_token_account: PublicKey,
    /// The signer who claims to be the creator.
    pub artist: PublicKey,
}

/// Why `caller` may not tokenize `track`, checked in this order: it is
/// tokenized already, or the caller is not its creator.
pub open spec fn tokenize_error(track: Track, caller: PublicKey) -> Option<ErrorCode> {
    if track.is_tokenized {
        Some(ErrorCode::TrackAlreadyTokenized)
    } else if track.artist@ != caller@ {
        Some(ErrorCode::UnauthorizedArtist)
    } else {
        None
    }
}

/// The record after a tokenization by `caller` with the mint `mint`: marked
/// tokenized with that mint, or unchanged where the tokenization is refused.
pub open spec fn after_tokenize(track: Track, caller: PublicKey, mint: PublicKey) -> Track {
    match tokenize_error(track, caller) {
        Some(_) => track,
        None => Track { token_mint: mint, is_tokenized: true, ..track },
    }
}

/// The mint order of a tokenization with the accounts of `ctx`.
pub open spec fn mint_order_for(ctx: TokenizeTrack) -> MintOrder {
    MintOrder {
        mint: ctx.token_mint,
        to: ctx.artist_token_account,
        authority: TrackAuthority {
            artist: ctx.track.artist,
            title: ctx.track.title,
            bump: ctx.track.bump,
        },
        amount: ctx.track.total_supply,
    }
}

/// Tokenizes a track: checks that it is not tokenized yet and that the caller
/// is its creator, then records the mint and marks the track tokenized. The
/// returned order mints the whole supply to the creator's token account, with
/// the record as authority. On failure the record is left as it was.
pub fn tokenize_track(ctx: &mut TokenizeTrack) -> (r: Result<MintOrder, ErrorCode>)
    requires
        old(ctx).token_mint@ != unset_key(),
    ensures
        final(ctx).token_mint == old(ctx).token_mint,
        final(ctx).artist_token_account == old(ctx).artist_token_account,
        final(ctx).artist == old(ctx).artist,
        final(ctx).track == after_tokenize(old(ctx).track, old(ctx).artist, old(ctx).token_mint),
        match tokenize_error(old(ctx).track, old(ctx).artist) {
            Some(e) => r == Err::<MintOrder, ErrorCode>(e),
            None => r == Ok::<MintOrder, ErrorCode>(mint_order_for(*old(ctx))),
        },
        old(ctx).track.wf() ==> final(ctx).track.wf(),
{
    if ctx.track.is_tokenized {
        return Err(ErrorCode::TrackAlreadyTokenized);
    }
    if ctx.track.artist != ctx.artist {
        return Err(ErrorCode::UnauthorizedArtist);
    }
    let order = MintOrder {
        mint: ctx.token_mint,
        to: ctx.artist_token_account,
        authority: TrackAuthority {
            artist: ctx.track.artist,
            title: ctx.track.title.clone(),
            bump: ctx.track.bump,
        },
        amount: ctx.track.total_supply,
    };
    ctx.track.token_mint = ctx.token_mint;
    ctx.track.is_tokenized = true;
    Ok(order)
}

/// Tokenization happens once: after a tokenization that succeeded, a second
/// one, by any caller and with any mint, is refused as already tokenized and
/// leaves the record, its mint included, as the first one left it.
pub proof fn lemma_tokenize_only_once(
    track: Track,
    caller: PublicKey,
    mint: PublicKey,
    second_caller: PublicKey,
    second_mint: PublicKey,
)
    requires
        tokenize_error(track, caller) is None,
    ensures
        after_tokenize(track, caller, mint).is_tokenized,
        after_tokenize(track, caller, mint).token_mint == mint,
        tokenize_error(after_tokenize(track, caller, mint), second_caller) == Some(
            ErrorCode::TrackAlreadyTokenized,
        ),
        after_tokenize(after_tokenize(track, caller, mint), second_caller, second_mint)
            == after_tokenize(track, caller, mint),
{
}

/// A caller who is not the creator of a track that is not tokenized yet is
/// refused as unauthorized, and the record stays as it was.
pub proof fn lemma_tokenize_needs_creator(track: Track, caller: PublicKey, mint: PublicKey)
    requires
        !track.is_tokenized,
        track.artist@ != caller@,
    ensures
        tokenize_error(track, caller) == Some(ErrorCode::UnauthorizedArtist),
        after_tokenize(track, caller, mint) == track,
{
}

} // verus!
