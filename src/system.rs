use vstd::prelude::*;
use crate::storage::StorageMap;
use crate::types::{AccountId, BlockNumber, Nonce};

verus! {

/// The nonce that `nonces` records for `who`: zero where it has no entry.
pub open spec fn nonce_in(nonces: Map<Seq<char>, Nonce>, who: Seq<char>) -> Nonce {
    if nonces.contains_key(who) {
        nonces[who]
    } else {
        0
    }
}

/// `nonces` after one increment of `who`'s nonce. Nonces wrap to zero past
/// the largest value: the increment has no failure path.
pub open spec fn nonces_after_inc(nonces: Map<Seq<char>, Nonce>, who: Seq<char>) -> Map<
    Seq<char>,
    Nonce,
> {
    let n = nonce_in(nonces, who);
    nonces.insert(
        who,
        if n == Nonce::MAX {
            0
        } else {
            (n + 1) as Nonce
        },
    )
}

/// The system pallet: the block counter and each account's nonce.
#[derive(Debug)]
pub struct Pallet {
    pub block_number: BlockNumber,
    pub nonce: StorageMap<Nonce>,
}

impl Pallet {
    pub open spec fn wf(&self) -> bool {
        self.nonce.wf()
    }

    /// Block counter zero, no nonces.
    pub fn new() -> (r: Self)
        ensures
            r.wf(),
            r.block_number == 0,
            r.nonce@ == Map::<Seq<char>, Nonce>::empty(),
    {
        Pallet { block_number: 0, nonce: StorageMap::new() }
    }

    pub fn get_block_number(&self) -> (r: BlockNumber)
        ensures
            r == self.block_number,
    {
        self.block_number
    }

    /// Advances the block counter by one.
    pub fn set_block_number(&mut self)
        requires
            old(self).block_number < BlockNumber::MAX,
        ensures
            final(self).block_number == old(self).block_number + 1,
            final(self).nonce == old(self).nonce,
    {
        self.block_number = self.block_number + 1;
    }

    /// The nonce of `who`, zero for an account never seen. Reading inserts
    /// nothing.
    pub fn nonce_of(&self, who: &AccountId) -> (r: Nonce)
        requires
            self.wf(),
        ensures
            r == nonce_in(self.nonce@, who@),
    {
        match self.nonce.get(who) {
            Some(n) => *n,
            None => 0,
        }
    }

    /// Increments the nonce of `who`, wrapping to zero past the largest value.
    pub fn inc_nonce(&mut self, who: &AccountId)
        requires
            old(self).wf(),
        ensures
            final(self).wf(),
            final(self).block_number == old(self).block_number,
            final(self).nonce@ == nonces_after_inc(old(self).nonce@, who@),
    {
        let nonce = self.nonce_of(who);
        let new_nonce = nonce.wrapping_add(1);
        self.nonce.insert(who.clone(), new_nonce);
    }
}

} // verus!
