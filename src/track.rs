use vstd::prelude::*;
use vstd::utf8::encode_utf8;

use crate::pubkey::Pubkey;

verus! {

/// Largest title, in bytes of UTF-8.
pub const MAX_TITLE_LEN: usize = 200;

/// Largest artist name, in bytes of UTF-8.
pub const MAX_ARTIST_LEN: usize = 100;

/// Largest description, in bytes of UTF-8.
pub const MAX_DESCRIPTION_LEN: usize = 500;

/// Largest metadata URI, in bytes of UTF-8.
pub const MAX_METADATA_URI_LEN: usize = 200;

/// Largest royalty percentage.
pub const MAX_ROYALTY_PERCENTAGE: u8 = 100;

/// The record of one track, bound to the token mint that stands for it.
#[derive(Clone, Debug, PartialEq, Eq)]
pub struct MusicNFT {
    pub title: String,
    pub artist: String,
    pub description: String,
    pub metadata_uri: String,
    /// The token mint whose single unit stands for ownership of the track.
    pub mint: Pubkey,
    /// The current holder; the creating artist at first.
    pub owner: Pubkey,
    /// Descriptive only: never paid out.
    pub royalty_percentage: u8,
    /// The bump seed that derives the record's address from its mint.
    pub bump: u8,
}

/// Why an instruction was refused. A refused instruction changes nothing.
#[derive(Clone, Copy, Debug, PartialEq, Eq, Structural)]
pub enum MusicNFTError {
    /// The royalty percentage is above 100.
    InvalidRoyaltyPercentage,
    /// The signer does not own the track.
    NotOwner,
    /// A record already stands at the address derived from the mint.
    AlreadyExists,
    /// A text field is longer than its cap.
    FieldTooLong,
    /// No record stands at the address derived from the mint.
    NotFound,
    /// No bump seed derives a valid address from the mint.
    NoViableBump,
    /// The sender holds fewer units than it sends.
    InsufficientFunds,
    /// The receiver's balance would overflow.
    Overflow,
}

/// The number of bytes that the UTF-8 encoding of `s` takes.
pub open spec fn byte_len(s: Seq<char>) -> nat {
    encode_utf8(s).len()
}

/// Whether every text field is within its cap.
pub open spec fn fields_within_caps(
    title: Seq<char>,
    artist: Seq<char>,
    description: Seq<char>,
    metadata_uri: Seq<char>,
) -> bool {
    &&& byte_len(title) <= MAX_TITLE_LEN
    &&& byte_len(artist) <= MAX_ARTIST_LEN
    &&& byte_len(description) <= MAX_DESCRIPTION_LEN
    &&& byte_len(metadata_uri) <= MAX_METADATA_URI_LEN
}

/// Checks every text field against its cap.
pub fn fields_fit(
    title: &String,
    artist: &String,
    description: &String,
    metadata_uri: &String,
) -> (r: bool)
    ensures
        r == fields_within_caps(title@, artist@, description@, metadata_uri@),
{
    title.as_str().as_bytes().len() <= MAX_TITLE_LEN && artist.as_str().as_bytes().len() <= MAX_ARTIST_LEN
        && description.as_str().as_bytes().len() <= MAX_DESCRIPTION_LEN && metadata_uri.as_str().as_bytes().len()
        <= MAX_METADATA_URI_LEN
}

} // verus!
