use music_nft::registry::TRACK_SEED;
use music_nft::track::{fields_fit, MAX_TITLE_LEN};
use music_nft::{
    initialize, mint_music_nft, transfer_nft, Initialize, MintMusicNFT, MusicNFTError, Pubkey,
    Registry, TokenInstruction, TransferNFT,
};

fn key(b: u8) -> Pubkey {
    Pubkey::new([b; 32])
}

fn program() -> Pubkey {
    key(200)
}

fn create(
    registry: &mut Registry,
    artist: Pubkey,
    mint: Pubkey,
    title: &str,
    royalty: u8,
) -> Result<TokenInstruction, MusicNFTError> {
    mint_music_nft(
        registry,
        &MintMusicNFT { artist, mint },
        title.to_string(),
        "Artist1".to_string(),
        "A first song".to_string(),
        "ipfs://song-a".to_string(),
        royalty,
    )
}

#[test]
fn song_a_is_created_issued_and_sold() {
    let artist1 = key(1);
    let buyer1 = key(2);
    let m = key(3);
    let mut registry = Registry::new(program());
    let r = create(&mut registry, artist1, m, "Song A", 10);
    assert_eq!(
        r,
        Ok(TokenInstruction::MintTo { mint: m, to: artist1, authority: artist1, amount: 1 })
    );
    let track = registry.track(&m).expect("the record exists");
    assert_eq!(track.owner, artist1);
    assert_eq!(track.royalty_percentage, 10);
    assert_eq!(track.title, "Song A");
    assert_eq!(track.artist, "Artist1");
    assert_eq!(track.mint, m);
    assert_eq!(registry.balance_of(&m, &artist1), 1);

    let accounts = TransferNFT { owner: artist1, new_owner: buyer1, mint: m };
    let r = transfer_nft(&mut registry, &accounts, 1);
    assert_eq!(
        r,
        Ok(TokenInstruction::Transfer {
            mint: m,
            from: artist1,
            to: buyer1,
            authority: artist1,
            amount: 1,
        })
    );
    assert_eq!(registry.track(&m).unwrap().owner, buyer1);
    assert_eq!(registry.balance_of(&m, &artist1), 0);
    assert_eq!(registry.balance_of(&m, &buyer1), 1);
}

#[test]
fn initialize_succeeds() {
    assert_eq!(initialize(&Initialize { initializer: key(9) }), Ok(()));
}

#[test]
fn royalty_above_hundred_is_refused() {
    let mut registry = Registry::new(program());
    for royalty in [101u8, 150, 255] {
        let r = create(&mut registry, key(1), key(3), "Song A", royalty);
        assert_eq!(r, Err(MusicNFTError::InvalidRoyaltyPercentage));
        assert!(registry.track(&key(3)).is_none());
        assert_eq!(registry.balance_of(&key(3), &key(1)), 0);
    }
}

#[test]
fn royalty_bounds_are_accepted() {
    let mut registry = Registry::new(program());
    assert!(create(&mut registry, key(1), key(3), "Song A", 100).is_ok());
    assert!(create(&mut registry, key(1), key(4), "Song B", 0).is_ok());
    assert_eq!(registry.track(&key(3)).unwrap().royalty_percentage, 100);
    assert_eq!(registry.track(&key(4)).unwrap().royalty_percentage, 0);
}

#[test]
fn overlong_title_is_refused() {
    let mut registry = Registry::new(program());
    let title = "a".repeat(MAX_TITLE_LEN + 1);
    let r = create(&mut registry, key(1), key(3), &title, 10);
    assert_eq!(r, Err(MusicNFTError::FieldTooLong));
    assert!(registry.track(&key(3)).is_none());
    assert_eq!(registry.balance_of(&key(3), &key(1)), 0);
}

#[test]
fn title_at_cap_is_accepted() {
    let mut registry = Registry::new(program());
    let title = "a".repeat(MAX_TITLE_LEN);
    assert!(create(&mut registry, key(1), key(3), &title, 10).is_ok());
}

#[test]
fn caps_count_bytes_not_characters() {
    let e = String::from("\u{e9}");
    let short = e.repeat(100);
    let long = e.repeat(101);
    let empty = String::new();
    assert!(fields_fit(&short, &empty, &empty, &empty));
    assert!(!fields_fit(&long, &empty, &empty, &empty));
    assert!(!fields_fit(&empty, &"b".repeat(101), &empty, &empty));
    assert!(fields_fit(&empty, &"b".repeat(100), &empty, &empty));
    assert!(!fields_fit(&empty, &empty, &"c".repeat(501), &empty));
    assert!(fields_fit(&empty, &empty, &"c".repeat(500), &empty));
    assert!(!fields_fit(&empty, &empty, &empty, &"d".repeat(201)));
    assert!(fields_fit(&empty, &empty, &empty, &"d".repeat(200)));
}

#[test]
fn royalty_is_checked_before_fields() {
    let mut registry = Registry::new(program());
    let title = "a".repeat(MAX_TITLE_LEN + 1);
    let r = create(&mut registry, key(1), key(3), &title, 101);
    assert_eq!(r, Err(MusicNFTError::InvalidRoyaltyPercentage));
}

#[test]
fn second_creation_for_a_mint_is_refused() {
    let mut registry = Registry::new(program());
    assert!(create(&mut registry, key(1), key(3), "Song A", 10).is_ok());
    let r = create(&mut registry, key(5), key(3), "Song B", 20);
    assert_eq!(r, Err(MusicNFTError::AlreadyExists));
    let track = registry.track(&key(3)).unwrap();
    assert_eq!(track.title, "Song A");
    assert_eq!(track.owner, key(1));
    assert_eq!(track.royalty_percentage, 10);
    assert_eq!(registry.balance_of(&key(3), &key(1)), 1);
    assert_eq!(registry.balance_of(&key(3), &key(5)), 0);
}

#[test]
fn transfer_by_non_owner_is_refused() {
    let mut registry = Registry::new(program());
    assert!(create(&mut registry, key(1), key(3), "Song A", 10).is_ok());
    let accounts = TransferNFT { owner: key(2), new_owner: key(4), mint: key(3) };
    assert_eq!(transfer_nft(&mut registry, &accounts, 1), Err(MusicNFTError::NotOwner));
    assert_eq!(registry.track(&key(3)).unwrap().owner, key(1));
    assert_eq!(registry.balance_of(&key(3), &key(1)), 1);
    assert_eq!(registry.balance_of(&key(3), &key(4)), 0);
}

#[test]
fn transfer_of_unknown_mint_is_refused() {
    let mut registry = Registry::new(program());
    let accounts = TransferNFT { owner: key(1), new_owner: key(2), mint: key(3) };
    assert_eq!(transfer_nft(&mut registry, &accounts, 1), Err(MusicNFTError::NotFound));
}

#[test]
fn transfer_beyond_balance_is_refused() {
    let mut registry = Registry::new(program());
    assert!(create(&mut registry, key(1), key(3), "Song A", 10).is_ok());
    let accounts = TransferNFT { owner: key(1), new_owner: key(2), mint: key(3) };
    assert_eq!(transfer_nft(&mut registry, &accounts, 2), Err(MusicNFTError::InsufficientFunds));
    assert_eq!(registry.track(&key(3)).unwrap().owner, key(1));
    assert_eq!(registry.balance_of(&key(3), &key(1)), 1);
}

#[test]
fn transfer_to_self_keeps_the_balance() {
    let mut registry = Registry::new(program());
    assert!(create(&mut registry, key(1), key(3), "Song A", 10).is_ok());
    let accounts = TransferNFT { owner: key(1), new_owner: key(1), mint: key(3) };
    assert!(transfer_nft(&mut registry, &accounts, 1).is_ok());
    assert_eq!(registry.track(&key(3)).unwrap().owner, key(1));
    assert_eq!(registry.balance_of(&key(3), &key(1)), 1);
}

#[test]
fn transfer_chain_follows_the_owner() {
    let mut registry = Registry::new(program());
    assert!(create(&mut registry, key(1), key(3), "Song A", 10).is_ok());
    let first = TransferNFT { owner: key(1), new_owner: key(2), mint: key(3) };
    assert!(transfer_nft(&mut registry, &first, 1).is_ok());
    let stale = TransferNFT { owner: key(1), new_owner: key(4), mint: key(3) };
    assert_eq!(transfer_nft(&mut registry, &stale, 1), Err(MusicNFTError::NotOwner));
    let second = TransferNFT { owner: key(2), new_owner: key(4), mint: key(3) };
    assert!(transfer_nft(&mut registry, &second, 1).is_ok());
    assert_eq!(registry.track(&key(3)).unwrap().owner, key(4));
    assert_eq!(registry.balance_of(&key(3), &key(2)), 0);
    assert_eq!(registry.balance_of(&key(3), &key(4)), 1);
}

#[test]
fn tracks_of_different_mints_are_separate() {
    let mut registry = Registry::new(program());
    assert!(create(&mut registry, key(1), key(3), "Song A", 10).is_ok());
    assert!(create(&mut registry, key(1), key(4), "Song B", 20).is_ok());
    assert_eq!(registry.track(&key(3)).unwrap().title, "Song A");
    assert_eq!(registry.track(&key(4)).unwrap().title, "Song B");
    assert_eq!(registry.balance_of(&key(4), &key(1)), 1);
}

#[test]
fn record_address_is_derived_from_the_mint() {
    let registry = Registry::new(program());
    let (a3, bump3) = registry.track_address(&key(3)).expect("a bump seed is found");
    let (again, bump_again) = registry.track_address(&key(3)).unwrap();
    let (a4, _) = registry.track_address(&key(4)).unwrap();
    assert_eq!(a3, again);
    assert_eq!(bump3, bump_again);
    assert_ne!(a3, key(3));
    assert_ne!(a3, program());
    assert_ne!(a3, a4);
    assert_eq!(&TRACK_SEED, b"music-nft");
}

#[test]
fn record_keeps_the_derived_bump() {
    let mut registry = Registry::new(program());
    assert!(create(&mut registry, key(1), key(3), "Song A", 10).is_ok());
    let (address, bump) = registry.track_address(&key(3)).unwrap();
    assert_eq!(registry.track(&key(3)).unwrap().bump, bump);
    assert_eq!(registry.track_at(&address).unwrap().title, "Song A");
}

#[test]
fn other_program_derives_other_addresses() {
    let first = Registry::new(program());
    let second = Registry::new(key(201));
    assert_ne!(first.track_address(&key(3)).unwrap().0, second.track_address(&key(3)).unwrap().0);
}

#[test]
fn restored_record_can_be_handed_on() {
    let mut source = Registry::new(program());
    assert!(create(&mut source, key(1), key(3), "Song A", 10).is_ok());
    let stored = source.track(&key(3)).unwrap().clone();

    let mut registry = Registry::new(program());
    assert!(registry.restore_track(stored.clone()));
    assert!(!registry.restore_track(stored));
    assert!(registry.restore_balance(&key(3), &key(1), 1));
    assert_eq!(registry.balance_of(&key(3), &key(1)), 1);

    let accounts = TransferNFT { owner: key(1), new_owner: key(2), mint: key(3) };
    assert!(transfer_nft(&mut registry, &accounts, 1).is_ok());
    assert_eq!(registry.track(&key(3)).unwrap().owner, key(2));
    assert_eq!(registry.balance_of(&key(3), &key(2)), 1);
}

#[test]
fn restore_refuses_a_wrong_bump_and_an_untracked_balance() {
    let mut source = Registry::new(program());
    assert!(create(&mut source, key(1), key(3), "Song A", 10).is_ok());
    let mut stored = source.track(&key(3)).unwrap().clone();
    stored.bump = stored.bump.wrapping_add(1);

    let mut registry = Registry::new(program());
    assert!(!registry.restore_track(stored));
    assert!(registry.track(&key(3)).is_none());
    assert!(!registry.restore_balance(&key(3), &key(1), 1));
    assert!(registry.restore_balance(&key(3), &key(1), 0));
    assert_eq!(registry.balance_of(&key(3), &key(1)), 0);
}

#[test]
fn registry_keeps_its_program() {
    let registry = Registry::new(program());
    assert_eq!(*registry.program(), program());
    assert!(registry.track(&key(3)).is_none());
    assert_eq!(registry.balance_of(&key(3), &key(1)), 0);
}
