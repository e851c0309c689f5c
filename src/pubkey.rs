use vstd::prelude::*;

verus! {

broadcast use vstd::array::group_array_axioms;

/// A 32-byte account identity: a wallet, a token mint or a program.
#[derive(Clone, Copy, Debug, PartialEq, Eq, Hash)]
pub struct Pubkey {
    pub bytes: [u8; 32],
}

impl View for Pubkey {
    type V = Seq<u8>;

    open spec fn view(&self) -> Seq<u8> {
        self.bytes@
    }
}

impl Pubkey {
    pub fn new(bytes: [u8; 32]) -> (r: Pubkey)
        ensures
            r.bytes == bytes,
            r@ == bytes@,
    {
        Pubkey { bytes }
    }

    pub fn to_bytes(&self) -> (r: [u8; 32])
        ensures
            r == self.bytes,
    {
        self.bytes
    }

    /// Whether two keys hold the same bytes.
    pub fn same_as(&self, other: &Pubkey) -> (r: bool)
        ensures
            r == (self@ == other@),
    {
        let mut i: usize = 0;
        while i < 32
            invariant
                0 <= i <= 32,
                forall|j: int| 0 <= j < i ==> self@[j] == other@[j],
            decreases 32 - i,
        {
            if self.bytes[i] != other.bytes[i] {
                assert(self@[i as int] != other@[i as int]);
                return false;
            }
            i = i + 1;
        }
        assert(self@ =~= other@);
        true
    }
}

/// What `Pubkey::try_find_program_address` yields for the seeds `prefix` and
/// `key` under `program_id`: the derived address with its bump seed, if a bump
/// seed was found.
pub uninterp spec fn program_address_of(
    prefix: Seq<u8>,
    key: Seq<u8>,
    program_id: Seq<u8>,
) -> Option<(Seq<u8>, u8)>;

/// Relies on `Pubkey::try_find_program_address` of solana-program: a pure
/// search over bump seeds, so the result is a function of the seeds and the
/// program id alone.
#[verifier::external_body]
pub(crate) fn find_program_address(prefix: &[u8], key: &Pubkey, program_id: &Pubkey) -> (r:
    Option<(Pubkey, u8)>)
    ensures
        match r {
            Some((address, bump)) => program_address_of(prefix@, key@, program_id@) == Some(
                (address@, bump),
            ),
            None => program_address_of(prefix@, key@, program_id@) is None,
        },
{
    let program = anchor_lang::prelude::Pubkey::new_from_array(program_id.bytes);
    let seeds: [&[u8]; 2] = [prefix, &key.bytes];
    anchor_lang::prelude::Pubkey::try_find_program_address(&seeds, &program).map(
        |(address, bump)| (Pubkey { bytes: address.to_bytes() }, bump),
    )
}

} // verus!
