use vstd::prelude::*;

use crate::instructions::{
    mint_music_nft_post, transfer_nft_post, MintMusicNFT, TokenInstruction, TransferNFT,
};
use crate::registry::Registry;
use crate::track::{fields_within_caps, MusicNFTError};

verus! {

/// A royalty percentage above 100 is refused with `InvalidRoyaltyPercentage`,
/// and neither a record nor a unit comes into being.
pub proof fn royalty_above_cap_is_refused(
    before: Registry,
    after: Registry,
    accounts: MintMusicNFT,
    title: String,
    artist: String,
    description: String,
    metadata_uri: String,
    royalty_percentage: u8,
    r: Result<TokenInstruction, MusicNFTError>,
)
    requires
        mint_music_nft_post(
            before,
            after,
            accounts,
            title,
            artist,
            description,
            metadata_uri,
            royalty_percentage,
            r,
        ),
        royalty_percentage > 100,
    ensures
        r == Err::<TokenInstruction, MusicNFTError>(MusicNFTError::InvalidRoyaltyPercentage),
        after == before,
{
}

/// With a valid royalty, a text field over its cap is refused with
/// `FieldTooLong`, and nothing is stored.
pub proof fn overlong_field_is_refused(
    before: Registry,
    after: Registry,
    accounts: MintMusicNFT,
    title: String,
    artist: String,
    description: String,
    metadata_uri: String,
    royalty_percentage: u8,
    r: Result<TokenInstruction, MusicNFTError>,
)
    requires
        mint_music_nft_post(
            before,
            after,
            accounts,
            title,
            artist,
            description,
            metadata_uri,
            royalty_percentage,
            r,
        ),
        royalty_percentage <= 100,
        !fields_within_caps(title@, artist@, description@, metadata_uri@),
    ensures
        r == Err::<TokenInstruction, MusicNFTError>(MusicNFTError::FieldTooLong),
        after == before,
{
}

/// Once a track was created for a mint, creating one again for the same
/// mint, with valid fields, is refused with `AlreadyExists` and leaves the
/// first record as it was.
pub proof fn second_creation_is_refused(
    first: Registry,
    second: Registry,
    third: Registry,
    accounts: MintMusicNFT,
    title: String,
    artist: String,
    description: String,
    metadata_uri: String,
    royalty_percentage: u8,
    r1: Result<TokenInstruction, MusicNFTError>,
    again: MintMusicNFT,
    title2: String,
    artist2: String,
    description2: String,
    metadata_uri2: String,
    royalty_percentage2: u8,
    r2: Result<TokenInstruction, MusicNFTError>,
)
    requires
        mint_music_nft_post(
            first,
            second,
            accounts,
            title,
            artist,
            description,
            metadata_uri,
            royalty_percentage,
            r1,
        ),
        r1 is Ok,
        again.mint == accounts.mint,
        mint_music_nft_post(
            second,
            third,
            again,
            title2,
            artist2,
            description2,
            metadata_uri2,
            royalty_percentage2,
            r2,
        ),
        royalty_percentage2 <= 100,
        fields_within_caps(title2@, artist2@, description2@, metadata_uri2@),
    ensures
        r2 == Err::<TokenInstruction, MusicNFTError>(MusicNFTError::AlreadyExists),
        third == second,
        third.track_of(accounts.mint@) == second.track_of(accounts.mint@),
{
}

/// After a successful creation the artist holds exactly one unit of the
/// mint and owns its record.
pub proof fn creation_issues_one_unit_to_artist(
    before: Registry,
    after: Registry,
    accounts: MintMusicNFT,
    title: String,
    artist: String,
    description: String,
    metadata_uri: String,
    royalty_percentage: u8,
    r: Result<TokenInstruction, MusicNFTError>,
)
    requires
        mint_music_nft_post(
            before,
            after,
            accounts,
            title,
            artist,
            description,
            metadata_uri,
            royalty_percentage,
            r,
        ),
        r is Ok,
    ensures
        after.balance(accounts.mint@, accounts.artist@) == 1,
        after.track_of(accounts.mint@) is Some,
        after.track_of(accounts.mint@)->Some_0.owner == accounts.artist,
        after.track_of(accounts.mint@)->Some_0.royalty_percentage == royalty_percentage,
{
}

/// The owner, signing, hands the track to another holder: the record names
/// the receiver, and `amount` units leave the owner and reach the receiver,
/// when the owner holds them and the receiver's balance can take them.
pub proof fn owner_transfer_moves_track_and_units(
    before: Registry,
    after: Registry,
    accounts: TransferNFT,
    amount: u64,
    r: Result<TokenInstruction, MusicNFTError>,
)
    requires
        transfer_nft_post(before, after, accounts, amount, r),
        before.track_of(accounts.mint@) is Some,
        before.track_of(accounts.mint@)->Some_0.owner@ == accounts.owner@,
        accounts.owner@ != accounts.new_owner@,
        amount <= before.balance(accounts.mint@, accounts.owner@),
        before.balance(accounts.mint@, accounts.new_owner@) + amount <= u64::MAX,
    ensures
        r is Ok,
        after.track_of(accounts.mint@) is Some,
        after.track_of(accounts.mint@)->Some_0.owner == accounts.new_owner,
        after.balance(accounts.mint@, accounts.owner@) == before.balance(
            accounts.mint@,
            accounts.owner@,
        ) - amount,
        after.balance(accounts.mint@, accounts.new_owner@) == before.balance(
            accounts.mint@,
            accounts.new_owner@,
        ) + amount,
{
}

/// A signer other than the owner is refused with `NotOwner`; no balance and
/// no owner changes.
pub proof fn non_owner_transfer_is_refused(
    before: Registry,
    after: Registry,
    accounts: TransferNFT,
    amount: u64,
    r: Result<TokenInstruction, MusicNFTError>,
)
    requires
        transfer_nft_post(before, after, accounts, amount, r),
        before.track_of(accounts.mint@) is Some,
        before.track_of(accounts.mint@)->Some_0.owner@ != accounts.owner@,
    ensures
        r == Err::<TokenInstruction, MusicNFTError>(MusicNFTError::NotOwner),
        after == before,
{
}

/// Handing on the track of a mint that has no record is refused with
/// `NotFound`.
pub proof fn unknown_track_transfer_is_refused(
    before: Registry,
    after: Registry,
    accounts: TransferNFT,
    amount: u64,
    r: Result<TokenInstruction, MusicNFTError>,
)
    requires
        transfer_nft_post(before, after, accounts, amount, r),
        before.track_of(accounts.mint@) is None,
    ensures
        r == Err::<TokenInstruction, MusicNFTError>(MusicNFTError::NotFound),
        after == before,
{
}

} // verus!
