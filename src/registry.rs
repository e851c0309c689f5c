use vstd::prelude::*;

use crate::pubkey::{find_program_address, program_address_of, Pubkey};
use crate::track::MusicNFT;

verus! {

/// The first seed from which a track record's address is derived; the mint
/// is the second. It spells "music-nft".
pub const TRACK_SEED: [u8; 9] = [109, 117, 115, 105, 99, 45, 110, 102, 116];

/// The address at which the record of `mint` stands under `program_id`, with
/// its bump seed.
pub open spec fn track_address_of(mint: Seq<u8>, program_id: Seq<u8>) -> Option<(Seq<u8>, u8)> {
    program_address_of(TRACK_SEED@, mint, program_id)
}

/// A track record with the address it is stored at.
struct TrackEntry {
    address: Pubkey,
    track: MusicNFT,
}

/// The balance of one holder in one mint.
struct Holding {
    mint: Pubkey,
    holder: Pubkey,
    amount: u64,
}

/// The state that the instructions act on: the track records of one program,
/// keyed by their derived address, and the token balances of their mints.
pub struct Registry {
    program_id: Pubkey,
    records: Vec<TrackEntry>,
    holdings: Vec<Holding>,
    track_map: Ghost<Map<Seq<u8>, MusicNFT>>,
    balance_map: Ghost<Map<(Seq<u8>, Seq<u8>), u64>>,
}

impl Registry {
    /// The program under which record addresses are derived.
    pub closed spec fn program_id(&self) -> Seq<u8> {
        self.program_id@
    }

    /// The records, keyed by their address.
    pub closed spec fn tracks(&self) -> Map<Seq<u8>, MusicNFT> {
        self.track_map@
    }

    /// The balances, keyed by mint and holder; a missing key holds nothing.
    pub closed spec fn balances(&self) -> Map<(Seq<u8>, Seq<u8>), u64> {
        self.balance_map@
    }

    /// What `holder` holds of `mint`.
    pub open spec fn balance(&self, mint: Seq<u8>, holder: Seq<u8>) -> nat {
        if self.balances().contains_key((mint, holder)) {
            self.balances()[(mint, holder)] as nat
        } else {
            0
        }
    }

    /// The record that stands at the address derived from `mint`.
    pub open spec fn track_of(&self, mint: Seq<u8>) -> Option<MusicNFT> {
        match track_address_of(mint, self.program_id()) {
            Some((address, _)) => if self.tracks().contains_key(address) {
                Some(self.tracks()[address])
            } else {
                None
            },
            None => None,
        }
    }

    closed spec fn records_wf(&self) -> bool {
        &&& forall|i: int, j: int|
            0 <= i < j < self.records@.len() ==> self.records@[i].address@
                != self.records@[j].address@
        &&& forall|i: int|
            0 <= i < self.records@.len() ==> {
                &&& self.track_map@.contains_key(#[trigger] self.records@[i].address@)
                &&& self.track_map@[self.records@[i].address@] == self.records@[i].track
            }
        &&& forall|k: Seq<u8>|
            #[trigger] self.track_map@.contains_key(k) ==> exists|i: int|
                0 <= i < self.records@.len() && self.records@[i].address@ == k
        &&& forall|k: Seq<u8>|
            #[trigger] self.track_map@.contains_key(k) ==> track_address_of(
                self.track_map@[k].mint@,
                self.program_id@,
            ) == Some((k, self.track_map@[k].bump))
    }

    closed spec fn holdings_wf(&self) -> bool {
        &&& forall|i: int, j: int|
            0 <= i < j < self.holdings@.len() ==> (
            self.holdings@[i].mint@,
            self.holdings@[i].holder@,
        ) != (self.holdings@[j].mint@, self.holdings@[j].holder@)
        &&& forall|i: int|
            0 <= i < self.holdings@.len() ==> {
                &&& self.balance_map@.contains_key(
                    (#[trigger] self.holdings@[i].mint@, self.holdings@[i].holder@),
                )
                &&& self.balance_map@[(self.holdings@[i].mint@, self.holdings@[i].holder@)]
                    == self.holdings@[i].amount
            }
        &&& forall|k: (Seq<u8>, Seq<u8>)|
            #[trigger] self.balance_map@.contains_key(k) ==> exists|i: int|
                0 <= i < self.holdings@.len() && (
                self.holdings@[i].mint@,
                self.holdings@[i].holder@,
            ) == k
    }

    /// Well-formed: the records and balances agree with their views, each
    /// record stands at the address derived from its mint, and only mints
    /// with a record have units held.
    pub closed spec fn wf(&self) -> bool {
        &&& self.records_wf()
        &&& self.holdings_wf()
        &&& forall|k: (Seq<u8>, Seq<u8>)|
            #[trigger] self.balance_map@.contains_key(k) && self.balance_map@[k] > 0
                ==> self.track_of(k.0) is Some
    }

    proof fn lemma_records_frame(a: Registry, b: Registry)
        requires
            a.records_wf(),
            a.records@ == b.records@,
            a.track_map@ == b.track_map@,
            a.program_id == b.program_id,
        ensures
            b.records_wf(),
    {
        assert forall|k: Seq<u8>| #[trigger] b.track_map@.contains_key(k) implies exists|i: int|
            0 <= i < b.records@.len() && b.records@[i].address@ == k by {
            let i = choose|i: int| 0 <= i < a.records@.len() && a.records@[i].address@ == k;
            assert(b.records@[i] == a.records@[i]);
        }
    }

    proof fn lemma_holdings_frame(a: Registry, b: Registry)
        requires
            a.holdings_wf(),
            a.holdings@ == b.holdings@,
            a.balance_map@ == b.balance_map@,
        ensures
            b.holdings_wf(),
    {
        assert forall|k: (Seq<u8>, Seq<u8>)| #[trigger] b.balance_map@.contains_key(k) implies exists|
            i: int,
        | 0 <= i < b.holdings@.len() && (b.holdings@[i].mint@, b.holdings@[i].holder@) == k by {
            let i = choose|i: int|
                0 <= i < a.holdings@.len() && (a.holdings@[i].mint@, a.holdings@[i].holder@) == k;
            assert(b.holdings@[i] == a.holdings@[i]);
        }
    }

    /// A mint without a record has no units held.
    pub proof fn lemma_untracked_holds_nothing(&self, mint: Seq<u8>, holder: Seq<u8>)
        requires
            self.wf(),
            self.track_of(mint) is None,
        ensures
            self.balance(mint, holder) == 0,
    {
        if self.balance_map@.contains_key((mint, holder)) && self.balance_map@[(mint, holder)] > 0 {
            assert(self.track_of((mint, holder).0) is Some);
        }
    }

    /// An empty registry for the program `program_id`.
    pub fn new(program_id: Pubkey) -> (r: Registry)
        ensures
            r.wf(),
            r.program_id() == program_id@,
            r.tracks() == Map::<Seq<u8>, MusicNFT>::empty(),
            r.balances() == Map::<(Seq<u8>, Seq<u8>), u64>::empty(),
    {
        Registry {
            program_id,
            records: Vec::new(),
            holdings: Vec::new(),
            track_map: Ghost(Map::empty()),
            balance_map: Ghost(Map::empty()),
        }
    }

    /// The program under which record addresses are derived.
    pub fn program(&self) -> (r: &Pubkey)
        ensures
            r@ == self.program_id(),
    {
        &self.program_id
    }

    fn record_index(&self, address: &Pubkey) -> (r: Option<usize>)
        requires
            self.wf(),
        ensures
            match r {
                Some(i) => i < self.records@.len() && self.records@[i as int].address@ == address@
                    && self.tracks().contains_key(address@) && self.tracks()[address@]
                    == self.records@[i as int].track,
                None => !self.tracks().contains_key(address@),
            },
    {
        let mut i: usize = 0;
        while i < self.records.len()
            invariant
                self.wf(),
                0 <= i <= self.records@.len(),
                forall|j: int| 0 <= j < i ==> self.records@[j].address@ != address@,
            decreases self.records@.len() - i,
        {
            if self.records[i].address.same_as(address) {
                return Some(i);
            }
            i = i + 1;
        }
        None
    }

    /// The record stored at `address`, if any.
    pub fn track_at(&self, address: &Pubkey) -> (r: Option<&MusicNFT>)
        requires
            self.wf(),
        ensures
            match r {
                Some(t) => self.tracks().contains_key(address@) && *t == self.tracks()[address@],
                None => !self.tracks().contains_key(address@),
            },
    {
        match self.record_index(address) {
            Some(i) => Some(&self.records[i].track),
            None => None,
        }
    }

    fn holding_index(&self, mint: &Pubkey, holder: &Pubkey) -> (r: Option<usize>)
        requires
            self.wf(),
        ensures
            match r {
                Some(i) => i < self.holdings@.len() && self.holdings@[i as int].mint@ == mint@
                    && self.holdings@[i as int].holder@ == holder@ && self.balances().contains_key(
                    (mint@, holder@),
                ) && self.balances()[(mint@, holder@)] == self.holdings@[i as int].amount,
                None => !self.balances().contains_key((mint@, holder@)),
            },
    {
        let mut i: usize = 0;
        while i < self.holdings.len()
            invariant
                self.wf(),
                0 <= i <= self.holdings@.len(),
                forall|j: int|
                    0 <= j < i ==> (self.holdings@[j].mint@, self.holdings@[j].holder@) != (
                    mint@,
                    holder@,
                ),
            decreases self.holdings@.len() - i,
        {
            if self.holdings[i].mint.same_as(mint) && self.holdings[i].holder.same_as(holder) {
                return Some(i);
            }
            i = i + 1;
        }
        None
    }

    /// What `holder` holds of `mint`.
    pub fn balance_of(&self, mint: &Pubkey, holder: &Pubkey) -> (r: u64)
        requires
            self.wf(),
        ensures
            r == self.balance(mint@, holder@),
    {
        match self.holding_index(mint, holder) {
            Some(i) => self.holdings[i].amount,
            None => 0,
        }
    }

    /// Stores `track` at `address`, which must be free and derived from the
    /// track's mint.
    pub(crate) fn insert_track(&mut self, address: Pubkey, track: MusicNFT)
        requires
            old(self).wf(),
            !old(self).tracks().contains_key(address@),
            track_address_of(track.mint@, old(self).program_id()) == Some((address@, track.bump)),
        ensures
            final(self).wf(),
            final(self).program_id() == old(self).program_id(),
            final(self).tracks() == old(self).tracks().insert(address@, track),
            final(self).balances() == old(self).balances(),
    {
        let ghost old_self = *self;
        let ghost key = address@;
        self.track_map = Ghost(self.track_map@.insert(address@, track));
        self.records.push(TrackEntry { address, track });
        proof {
            Self::lemma_holdings_frame(old_self, *self);
        }
        assert(self.records_wf()) by {
            assert forall|k: Seq<u8>| #[trigger] self.track_map@.contains_key(k) implies exists|
                i: int,
            |
                0 <= i < self.records@.len() && self.records@[i].address@ == k by {
                if k == key {
                    assert(self.records@[self.records@.len() - 1].address@ == k);
                } else {
                    assert(old_self.track_map@.contains_key(k));
                    let i = choose|i: int|
                        0 <= i < old_self.records@.len() && old_self.records@[i].address@ == k;
                    assert(self.records@[i] == old_self.records@[i]);
                }
            }
        }
        assert(self.wf()) by {
            assert forall|k: (Seq<u8>, Seq<u8>)|
                #[trigger] self.balance_map@.contains_key(k) && self.balance_map@[k] > 0
                    implies self.track_of(k.0) is Some by {
                assert(old_self.track_of(k.0) is Some);
            }
        }
    }

    /// Sets what `holder` holds of `mint` to `amount`. Units may be held
    /// only of a mint with a record.
    pub(crate) fn set_balance(&mut self, mint: &Pubkey, holder: &Pubkey, amount: u64)
        requires
            old(self).wf(),
            amount > 0 ==> old(self).track_of(mint@) is Some,
        ensures
            final(self).wf(),
            final(self).program_id() == old(self).program_id(),
            final(self).tracks() == old(self).tracks(),
            final(self).balances() == old(self).balances().insert((mint@, holder@), amount),
    {
        let ghost old_self = *self;
        let ghost key = (mint@, holder@);
        match self.holding_index(mint, holder) {
            Some(i) => {
                self.holdings[i].amount = amount;
                self.balance_map = Ghost(self.balance_map@.insert(key, amount));
                assert(self.holdings_wf()) by {
                    assert forall|k: (Seq<u8>, Seq<u8>)|
                        #[trigger] self.balance_map@.contains_key(k) implies exists|j: int|
                            0 <= j < self.holdings@.len() && (
                            self.holdings@[j].mint@,
                            self.holdings@[j].holder@,
                        ) == k by {
                        if k != key {
                            assert(old_self.balance_map@.contains_key(k));
                            let j = choose|j: int|
                                0 <= j < old_self.holdings@.len() && (
                                old_self.holdings@[j].mint@,
                                old_self.holdings@[j].holder@,
                            ) == k;
                            assert(self.holdings@[j].mint@ == old_self.holdings@[j].mint@);
                        } else {
                            assert(self.holdings@[i as int].mint@ == mint@);
                        }
                    }
                }
            },
            None => {
                self.holdings.push(Holding { mint: *mint, holder: *holder, amount });
                self.balance_map = Ghost(self.balance_map@.insert(key, amount));
                assert(self.holdings_wf()) by {
                    assert forall|k: (Seq<u8>, Seq<u8>)|
                        #[trigger] self.balance_map@.contains_key(k) implies exists|j: int|
                            0 <= j < self.holdings@.len() && (
                            self.holdings@[j].mint@,
                            self.holdings@[j].holder@,
                        ) == k by {
                        if k != key {
                            assert(old_self.balance_map@.contains_key(k));
                            let j = choose|j: int|
                                0 <= j < old_self.holdings@.len() && (
                                old_self.holdings@[j].mint@,
                                old_self.holdings@[j].holder@,
                            ) == k;
                            assert(self.holdings@[j] == old_self.holdings@[j]);
                        } else {
                            assert(self.holdings@[self.holdings@.len() - 1].mint@ == mint@);
                        }
                    }
                }
            },
        }
        proof {
            Self::lemma_records_frame(old_self, *self);
        }
        assert(self.wf()) by {
            assert forall|k: (Seq<u8>, Seq<u8>)|
                #[trigger] self.balance_map@.contains_key(k) && self.balance_map@[k] > 0
                    implies self.track_of(k.0) is Some by {
                if k != key {
                    assert(old_self.balance_map@.contains_key(k));
                    assert(old_self.track_of(k.0) is Some);
                }
            }
        }
    }

    /// Makes `owner` the owner of the record at `address`.
    pub(crate) fn set_owner(&mut self, address: &Pubkey, owner: Pubkey)
        requires
            old(self).wf(),
            old(self).tracks().contains_key(address@),
        ensures
            final(self).wf(),
            final(self).program_id() == old(self).program_id(),
            final(self).tracks() == old(self).tracks().insert(
                address@,
                (MusicNFT { owner, ..old(self).tracks()[address@] }),
            ),
            final(self).balances() == old(self).balances(),
    {
        let ghost old_self = *self;
        let ghost key = address@;
        match self.record_index(address) {
            Some(i) => {
                self.records[i].track.owner = owner;
                let ghost updated = self.records@[i as int].track;
                self.track_map = Ghost(self.track_map@.insert(key, updated));
                assert(self.records_wf()) by {
                    assert forall|k: Seq<u8>| #[trigger] self.track_map@.contains_key(k) implies exists|
                        j: int,
                    |
                        0 <= j < self.records@.len() && self.records@[j].address@ == k by {
                        if k != key {
                            let j = choose|j: int|
                                0 <= j < old_self.records@.len() && old_self.records@[j].address@
                                    == k;
                            assert(self.records@[j].address@ == old_self.records@[j].address@);
                        } else {
                            assert(self.records@[i as int].address@ == key);
                        }
                    }
                }
                proof {
                    Self::lemma_holdings_frame(old_self, *self);
                }
                assert(self.wf()) by {
                    assert forall|k: (Seq<u8>, Seq<u8>)|
                        #[trigger] self.balance_map@.contains_key(k) && self.balance_map@[k] > 0
                            implies self.track_of(k.0) is Some by {
                        assert(old_self.track_of(k.0) is Some);
                    }
                }
            },
            None => {},
        }
    }

    /// The address at which the record of `mint` stands, with its bump seed.
    pub fn track_address(&self, mint: &Pubkey) -> (r: Option<(Pubkey, u8)>)
        ensures
            match r {
                Some((address, bump)) => track_address_of(mint@, self.program_id()) == Some(
                    (address@, bump),
                ),
                None => track_address_of(mint@, self.program_id()) is None,
            },
    {
        find_program_address(TRACK_SEED.as_slice(), mint, &self.program_id)
    }

    /// The record of the track of `mint`, if any.
    pub fn track(&self, mint: &Pubkey) -> (r: Option<&MusicNFT>)
        requires
            self.wf(),
        ensures
            match r {
                Some(t) => self.track_of(mint@) == Some(*t),
                None => self.track_of(mint@) is None,
            },
    {
        match self.track_address(mint) {
            Some((address, _)) => self.track_at(&address),
            None => None,
        }
    }

    /// Takes in a record kept elsewhere: it is stored when its bump seed
    /// derives its address from its mint and that address is free.
    pub fn restore_track(&mut self, track: MusicNFT) -> (r: bool)
        requires
            old(self).wf(),
        ensures
            final(self).wf(),
            final(self).program_id() == old(self).program_id(),
            final(self).balances() == old(self).balances(),
            r == match track_address_of(track.mint@, old(self).program_id()) {
                Some((address, bump)) => bump == track.bump && !old(self).tracks().contains_key(
                    address,
                ),
                None => false,
            },
            r ==> final(self).tracks() == old(self).tracks().insert(
                track_address_of(track.mint@, old(self).program_id())->Some_0.0,
                track,
            ),
            !r ==> *final(self) == *old(self),
    {
        match self.track_address(&track.mint) {
            Some((address, bump)) => {
                if bump != track.bump || self.track_at(&address).is_some() {
                    return false;
                }
                self.insert_track(address, track);
                true
            },
            None => false,
        }
    }

    /// Takes in what `holder` holds of `mint`, kept elsewhere: it is stored
    /// when it is nothing or the mint has a record.
    pub fn restore_balance(&mut self, mint: &Pubkey, holder: &Pubkey, amount: u64) -> (r: bool)
        requires
            old(self).wf(),
        ensures
            final(self).wf(),
            final(self).program_id() == old(self).program_id(),
            final(self).tracks() == old(self).tracks(),
            r == (amount == 0 || old(self).track_of(mint@) is Some),
            r ==> final(self).balances() == old(self).balances().insert((mint@, holder@), amount),
            !r ==> *final(self) == *old(self),
    {
        if amount > 0 && self.track(mint).is_none() {
            return false;
        }
        self.set_balance(mint, holder, amount);
        true
    }
}

} // verus!
