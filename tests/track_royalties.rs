use track_royalties::{
    compute_royalty_split, distribute_royalties, initialize_track, tokenize_track,
    DistributeRoyalties, ErrorCode, InitializeTrack, PublicKey, RoyaltyDistributed,
    RoyaltySplit, TokenizeTrack, Track,
};

fn key(b: u8) -> PublicKey {
    PublicKey::new([b; 32])
}

fn new_track(royalty_percentage: u16) -> Track {
    let ctx = InitializeTrack { artist: key(1), track_bump: 254 };
    initialize_track(
        &ctx,
        "Song".to_string(),
        "ipfs://meta".to_string(),
        1_000,
        5,
        royalty_percentage,
    )
}

fn distribution(track: Track, artist: PublicKey) -> DistributeRoyalties {
    DistributeRoyalties { track, track_address: key(9), artist, royalty_payer: key(7) }
}

fn tokenization(track: Track, artist: PublicKey) -> TokenizeTrack {
    TokenizeTrack { track, token_mint: key(3), artist_token_account: key(4), artist }
}

#[test]
fn initialize_yields_fresh_record() {
    let t = new_track(1000);
    assert!(!t.is_tokenized);
    assert_eq!(t.tokens_sold, 0);
    assert_eq!(t.total_royalties_collected, 0);
    assert!(t.token_mint.is_unset());
    assert_eq!(t.token_mint, PublicKey::default());
    assert_eq!(t.artist, key(1));
    assert_eq!(t.title, "Song");
    assert_eq!(t.metadata_uri, "ipfs://meta");
    assert_eq!(t.total_supply, 1_000);
    assert_eq!(t.price_per_token, 5);
    assert_eq!(t.royalty_percentage, 1000);
    assert_eq!(t.bump, 254);
}

#[test]
fn initialize_does_not_refuse_percentage_above_whole() {
    // The bound of 10000 basis points is the caller's to keep.
    let t = new_track(10001);
    assert_eq!(t.royalty_percentage, 10001);
    let mut ctx = distribution(t, key(1));
    assert_eq!(distribute_royalties(&mut ctx, 1_000_000), Err(ErrorCode::MathOverflow));
    assert_eq!(ctx.track.total_royalties_collected, 0);
}

#[test]
fn tokenize_marks_record_and_orders_mint() {
    let mut ctx = tokenization(new_track(1000), key(1));
    let order = tokenize_track(&mut ctx).unwrap();
    assert!(ctx.track.is_tokenized);
    assert_eq!(ctx.track.token_mint, key(3));
    assert_eq!(order.mint, key(3));
    assert_eq!(order.to, key(4));
    assert_eq!(order.amount, 1_000);
    assert_eq!(order.authority.artist, key(1));
    assert_eq!(order.authority.title, "Song");
    assert_eq!(order.authority.bump, 254);
    let seeds = order.authority.seeds();
    assert_eq!(seeds.len(), 4);
    assert_eq!(seeds[0], b"track".to_vec());
    assert_eq!(seeds[1], vec![1u8; 32]);
    assert_eq!(seeds[2], b"Song".to_vec());
    assert_eq!(seeds[3], vec![254u8]);
}

#[test]
fn tokenize_twice_fails() {
    let mut ctx = tokenization(new_track(1000), key(1));
    assert!(tokenize_track(&mut ctx).is_ok());
    ctx.token_mint = key(5);
    assert_eq!(tokenize_track(&mut ctx).unwrap_err(), ErrorCode::TrackAlreadyTokenized);
    assert_eq!(ctx.track.token_mint, key(3));
    assert!(ctx.track.is_tokenized);
}

#[test]
fn tokenize_by_non_creator_fails() {
    let mut ctx = tokenization(new_track(1000), key(2));
    assert_eq!(tokenize_track(&mut ctx).unwrap_err(), ErrorCode::UnauthorizedArtist);
    assert!(!ctx.track.is_tokenized);
    assert!(ctx.track.token_mint.is_unset());
    assert_eq!(ctx.track.total_supply, 1_000);
}

#[test]
fn tokenize_already_tokenized_checked_before_creator() {
    let mut ctx = tokenization(new_track(1000), key(1));
    assert!(tokenize_track(&mut ctx).is_ok());
    ctx.artist = key(2);
    assert_eq!(tokenize_track(&mut ctx).unwrap_err(), ErrorCode::TrackAlreadyTokenized);
}

#[test]
fn split_shares_add_up() {
    let cases: [(u64, u16); 6] =
        [(0, 0), (1, 1), (999, 3333), (1_000_000, 10000), (12_345, 0), (7, 9999)];
    for (amount, pct) in cases {
        let s = compute_royalty_split(amount, pct).unwrap();
        assert_eq!(s.token_holders_share + s.artist_share, amount);
        assert_eq!(s.token_holders_share, amount * pct as u64 / 10000);
    }
}

#[test]
fn split_rounds_holders_share_down() {
    assert_eq!(
        compute_royalty_split(999, 3333),
        Ok(RoyaltySplit { token_holders_share: 332, artist_share: 667 })
    );
}

#[test]
fn split_above_whole_fails() {
    assert_eq!(compute_royalty_split(1, 20000), Err(ErrorCode::MathOverflow));
    assert_eq!(
        compute_royalty_split(1, 10001),
        Ok(RoyaltySplit { token_holders_share: 1, artist_share: 0 })
    );
}

#[test]
fn distribute_ten_percent() {
    let mut ctx = distribution(new_track(1000), key(1));
    let before = ctx.track.total_royalties_collected;
    let ev = distribute_royalties(&mut ctx, 1_000_000).unwrap();
    assert_eq!(
        ev,
        RoyaltyDistributed {
            track: key(9),
            total_amount: 1_000_000,
            token_holders_share: 100_000,
            artist_share: 900_000,
        }
    );
    assert_eq!(ctx.track.total_royalties_collected, before + 1_000_000);
}

#[test]
fn distribute_multiplication_overflow() {
    let mut ctx = distribution(new_track(10000), key(1));
    assert_eq!(distribute_royalties(&mut ctx, u64::MAX), Err(ErrorCode::MathOverflow));
    assert_eq!(ctx.track.total_royalties_collected, 0);
}

#[test]
fn distribute_by_non_creator_fails() {
    let mut ctx = distribution(new_track(10000), key(2));
    assert_eq!(distribute_royalties(&mut ctx, 1_000), Err(ErrorCode::UnauthorizedArtist));
    assert_eq!(distribute_royalties(&mut ctx, u64::MAX), Err(ErrorCode::UnauthorizedArtist));
    assert_eq!(ctx.track.total_royalties_collected, 0);
}

#[test]
fn distributions_accumulate() {
    let mut ctx = distribution(new_track(1000), key(1));
    assert!(distribute_royalties(&mut ctx, 500_000).is_ok());
    assert!(distribute_royalties(&mut ctx, 500_000).is_ok());
    assert_eq!(ctx.track.total_royalties_collected, 1_000_000);
}

#[test]
fn distribute_total_overflow() {
    let mut t = new_track(0);
    t.total_royalties_collected = u64::MAX - 10;
    let mut ctx = distribution(t, key(1));
    assert_eq!(distribute_royalties(&mut ctx, 11), Err(ErrorCode::MathOverflow));
    assert_eq!(ctx.track.total_royalties_collected, u64::MAX - 10);
    let ev = distribute_royalties(&mut ctx, 10).unwrap();
    assert_eq!(ev.artist_share, 10);
    assert_eq!(ev.token_holders_share, 0);
    assert_eq!(ctx.track.total_royalties_collected, u64::MAX);
}

#[test]
fn distribute_on_untokenized_record() {
    let mut ctx = distribution(new_track(5000), key(1));
    assert!(!ctx.track.is_tokenized);
    let ev = distribute_royalties(&mut ctx, 3).unwrap();
    assert_eq!(ev.token_holders_share, 1);
    assert_eq!(ev.artist_share, 2);
}

#[test]
fn public_key_equality_and_unset() {
    assert_eq!(key(1), key(1));
    assert_ne!(key(1), key(2));
    let mut b = [0u8; 32];
    assert!(PublicKey::new(b).is_unset());
    b[31] = 1;
    assert!(!PublicKey::new(b).is_unset());
    assert_ne!(PublicKey::new(b), PublicKey::unset());
    assert_eq!(PublicKey::new(b).to_bytes(), b);
}
