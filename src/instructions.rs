use vstd::prelude::*;

use crate::pubkey::Pubkey;
use crate::registry::{track_address_of, Registry};
use crate::track::{fields_fit, fields_within_caps, MusicNFT, MusicNFTError, MAX_ROYALTY_PERCENTAGE};

verus! {

/// The accounts of the instruction that sets the program up.
#[derive(Clone, Copy, Debug, PartialEq, Eq)]
pub struct Initialize {
    pub initializer: Pubkey,
}

/// The accounts of the instruction that creates a track and issues its token:
/// the signing artist and the new mint.
#[derive(Clone, Copy, Debug, PartialEq, Eq)]
pub struct MintMusicNFT {
    pub artist: Pubkey,
    pub mint: Pubkey,
}

/// The accounts of the instruction that hands a track on: the signing
/// owner, the receiver and the track's mint.
#[derive(Clone, Copy, Debug, PartialEq, Eq)]
pub struct TransferNFT {
    pub owner: Pubkey,
    pub new_owner: Pubkey,
    pub mint: Pubkey,
}

/// The call into the token program that a successful instruction asks for.
/// Each holder's units sit in that holder's associated token account of the
/// mint.
#[derive(Clone, Copy, Debug, PartialEq, Eq)]
pub enum TokenInstruction {
    /// Mint `amount` new units to `to`, signed by `authority`.
    MintTo { mint: Pubkey, to: Pubkey, authority: Pubkey, amount: u64 },
    /// Move `amount` units from `from` to `to`, signed by `authority`.
    Transfer { mint: Pubkey, from: Pubkey, to: Pubkey, authority: Pubkey, amount: u64 },
}

/// Sets the program up; it has nothing to check.
pub fn initialize(accounts: &Initialize) -> (r: Result<(), MusicNFTError>)
    ensures
        r is Ok,
{
    Ok(())
}

/// How creating a track ends: the royalty is checked first, then the text
/// fields, then the record's address.
pub open spec fn mint_outcome(
    registry: Registry,
    mint: Seq<u8>,
    title: Seq<char>,
    artist: Seq<char>,
    description: Seq<char>,
    metadata_uri: Seq<char>,
    royalty_percentage: u8,
) -> Result<(), MusicNFTError> {
    if royalty_percentage > MAX_ROYALTY_PERCENTAGE {
        Err(MusicNFTError::InvalidRoyaltyPercentage)
    } else if !fields_within_caps(title, artist, description, metadata_uri) {
        Err(MusicNFTError::FieldTooLong)
    } else {
        match track_address_of(mint, registry.program_id()) {
            None => Err(MusicNFTError::NoViableBump),
            Some((address, _)) => if registry.tracks().contains_key(address) {
                Err(MusicNFTError::AlreadyExists)
            } else {
                Ok(())
            },
        }
    }
}

/// What `mint_music_nft` does: on failure nothing changes; on success the
/// record stands at the address derived from the mint, owned by the artist,
/// and the artist holds the one unit minted.
pub open spec fn mint_music_nft_post(
    before: Registry,
    after: Registry,
    accounts: MintMusicNFT,
    title: String,
    artist: String,
    description: String,
    metadata_uri: String,
    royalty_percentage: u8,
    r: Result<TokenInstruction, MusicNFTError>,
) -> bool {
    &&& after.wf()
    &&& after.program_id() == before.program_id()
    &&& match r {
        Err(e) => {
            &&& mint_outcome(
                before,
                accounts.mint@,
                title@,
                artist@,
                description@,
                metadata_uri@,
                royalty_percentage,
            ) == Err::<(), MusicNFTError>(e)
            &&& after == before
        },
        Ok(instruction) => {
            let (address, bump) = track_address_of(accounts.mint@, before.program_id())->Some_0;
            &&& mint_outcome(
                before,
                accounts.mint@,
                title@,
                artist@,
                description@,
                metadata_uri@,
                royalty_percentage,
            ) is Ok
            &&& after.tracks() == before.tracks().insert(
                address,
                (MusicNFT {
                    title,
                    artist,
                    description,
                    metadata_uri,
                    mint: accounts.mint,
                    owner: accounts.artist,
                    royalty_percentage,
                    bump,
                }),
            )
            &&& before.balance(accounts.mint@, accounts.artist@) == 0
            &&& after.balances() == before.balances().insert(
                (accounts.mint@, accounts.artist@),
                1,
            )
            &&& instruction == (TokenInstruction::MintTo {
                mint: accounts.mint,
                to: accounts.artist,
                authority: accounts.artist,
                amount: 1,
            })
        },
    }
}

/// Creates the record of a track for a new mint and issues one unit of the
/// mint to the artist.
pub fn mint_music_nft(
    registry: &mut Registry,
    accounts: &MintMusicNFT,
    title: String,
    artist: String,
    description: String,
    metadata_uri: String,
    royalty_percentage: u8,
) -> (r: Result<TokenInstruction, MusicNFTError>)
    requires
        old(registry).wf(),
    ensures
        mint_music_nft_post(
            *old(registry),
            *final(registry),
            *accounts,
            title,
            artist,
            description,
            metadata_uri,
            royalty_percentage,
            r,
        ),
{
    if royalty_percentage > MAX_ROYALTY_PERCENTAGE {
        return Err(MusicNFTError::InvalidRoyaltyPercentage);
    }
    if !fields_fit(&title, &artist, &description, &metadata_uri) {
        return Err(MusicNFTError::FieldTooLong);
    }
    let (address, bump) = match registry.track_address(&accounts.mint) {
        Some(found) => found,
        None => {
            return Err(MusicNFTError::NoViableBump);
        },
    };
    if registry.track_at(&address).is_some() {
        return Err(MusicNFTError::AlreadyExists);
    }
    proof {
        registry.lemma_untracked_holds_nothing(accounts.mint@, accounts.artist@);
    }
    let track = MusicNFT {
        title,
        artist,
        description,
        metadata_uri,
        mint: accounts.mint,
        owner: accounts.artist,
        royalty_percentage,
        bump,
    };
    registry.insert_track(address, track);
    registry.set_balance(&accounts.mint, &accounts.artist, 1);
    Ok(
        TokenInstruction::MintTo {
            mint: accounts.mint,
            to: accounts.artist,
            authority: accounts.artist,
            amount: 1,
        },
    )
}

/// How handing a track on ends: the record is looked up, then the signer is
/// checked against its owner, then the balances.
pub open spec fn transfer_outcome(
    registry: Registry,
    owner: Seq<u8>,
    new_owner: Seq<u8>,
    mint: Seq<u8>,
    amount: u64,
) -> Result<(), MusicNFTError> {
    match registry.track_of(mint) {
        None => Err(MusicNFTError::NotFound),
        Some(track) => if track.owner@ != owner {
            Err(MusicNFTError::NotOwner)
        } else if registry.balance(mint, owner) < amount {
            Err(MusicNFTError::InsufficientFunds)
        } else if owner != new_owner && registry.balance(mint, new_owner) + amount > u64::MAX {
            Err(MusicNFTError::Overflow)
        } else {
            Ok(())
        },
    }
}

/// The balances after `amount` units of `mint` went from `from` to `to`.
pub open spec fn moved(
    balances: Map<(Seq<u8>, Seq<u8>), u64>,
    registry: Registry,
    mint: Seq<u8>,
    from: Seq<u8>,
    to: Seq<u8>,
    amount: u64,
) -> Map<(Seq<u8>, Seq<u8>), u64> {
    if from == to {
        balances
    } else {
        balances.insert((mint, from), (registry.balance(mint, from) - amount) as u64).insert(
            (mint, to),
            (registry.balance(mint, to) + amount) as u64,
        )
    }
}

/// What `transfer_nft` does: on failure nothing changes; on success the
/// record names the new owner and `amount` units have moved to it.
pub open spec fn transfer_nft_post(
    before: Registry,
    after: Registry,
    accounts: TransferNFT,
    amount: u64,
    r: Result<TokenInstruction, MusicNFTError>,
) -> bool {
    &&& after.wf()
    &&& after.program_id() == before.program_id()
    &&& match r {
        Err(e) => {
            &&& transfer_outcome(
                before,
                accounts.owner@,
                accounts.new_owner@,
                accounts.mint@,
                amount,
            ) == Err::<(), MusicNFTError>(e)
            &&& after == before
        },
        Ok(instruction) => {
            let (address, _) = track_address_of(accounts.mint@, before.program_id())->Some_0;
            &&& transfer_outcome(
                before,
                accounts.owner@,
                accounts.new_owner@,
                accounts.mint@,
                amount,
            ) is Ok
            &&& after.tracks() == before.tracks().insert(
                address,
                (MusicNFT { owner: accounts.new_owner, ..before.tracks()[address] }),
            )
            &&& after.balances() == moved(
                before.balances(),
                before,
                accounts.mint@,
                accounts.owner@,
                accounts.new_owner@,
                amount,
            )
            &&& instruction == (TokenInstruction::Transfer {
                mint: accounts.mint,
                from: accounts.owner,
                to: accounts.new_owner,
                authority: accounts.owner,
                amount,
            })
        },
    }
}

/// Hands the track of `accounts.mint` from its owner, who signs, to
/// `accounts.new_owner`, with `amount` units of the mint.
pub fn transfer_nft(registry: &mut Registry, accounts: &TransferNFT, amount: u64) -> (r: Result<
    TokenInstruction,
    MusicNFTError,
>)
    requires
        old(registry).wf(),
    ensures
        transfer_nft_post(*old(registry), *final(registry), *accounts, amount, r),
{
    let address = match registry.track_address(&accounts.mint) {
        Some((address, _)) => address,
        None => {
            return Err(MusicNFTError::NotFound);
        },
    };
    match registry.track_at(&address) {
        None => {
            return Err(MusicNFTError::NotFound);
        },
        Some(track) => {
            if !track.owner.same_as(&accounts.owner) {
                return Err(MusicNFTError::NotOwner);
            }
        },
    }
    let from_balance = registry.balance_of(&accounts.mint, &accounts.owner);
    if from_balance < amount {
        return Err(MusicNFTError::InsufficientFunds);
    }
    if !accounts.owner.same_as(&accounts.new_owner) {
        let to_balance = registry.balance_of(&accounts.mint, &accounts.new_owner);
        if to_balance > u64::MAX - amount {
            return Err(MusicNFTError::Overflow);
        }
        registry.set_balance(&accounts.mint, &accounts.owner, from_balance - amount);
        registry.set_balance(&accounts.mint, &accounts.new_owner, to_balance + amount);
    }
    registry.set_owner(&address, accounts.new_owner);
    Ok(
        TokenInstruction::Transfer {
            mint: accounts.mint,
            from: accounts.owner,
            to: accounts.new_owner,
            authority: accounts.owner,
            amount,
        },
    )
}

} // verus!
