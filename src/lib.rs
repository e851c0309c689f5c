//! A registry of music NFT records: each track is bound to one token mint,
//! created together with one minted unit for its artist, and handed on
//! together with that unit.

pub mod instructions;
pub mod laws;
pub mod pubkey;
pub mod registry;
pub mod track;

pub use pubkey::Pubkey;
pub use track::{MusicNFT, MusicNFTError};
pub use registry::Registry;
pub use instructions::{
    initialize, mint_music_nft, transfer_nft, Initialize, MintMusicNFT, TokenInstruction, TransferNFT,
};
