//! The search loop: draw a salt, derive its address, test it, until one matches.

use vstd::prelude::*;
use crate::address::{compute, create2_address, init_code_hash, keccak_of};
use crate::pattern::{lemma_empty_pattern_accepts, MatchPredicate};
use crate::sampler::SaltSampler;

verus! {

/// A salt together with the address that it derives.
#[derive(Debug, Clone, Copy, PartialEq, Eq)]
pub struct Found {
    pub salt: [u8; 32],
    pub address: [u8; 20],
}

/// Everything fixed for a run: the deployer, the hash of the init code,
/// taken once, and the predicate.
#[derive(Debug)]
pub struct Searcher {
    pub deployer: [u8; 20],
    pub code_hash: [u8; 32],
    pub predicate: MatchPredicate,
}

impl Searcher {
    /// The address that `salt` derives in this run.
    pub open spec fn address_of(&self, salt: Seq<u8>) -> Seq<u8> {
        create2_address(self.deployer@, salt, self.code_hash@)
    }

    /// Whether `salt` derives an address that the predicate accepts.
    pub open spec fn hits(&self, salt: Seq<u8>) -> bool {
        self.predicate.accepts_spec(self.address_of(salt))
    }

    /// Whether `f` is a salt and its address, accepted by the predicate.
    pub open spec fn is_match(&self, f: Found) -> bool {
        f.address@ == self.address_of(f.salt@) && self.hits(f.salt@)
    }

    /// Sets up a run, hashing the init code once.
    pub fn new(deployer: [u8; 20], init_code: &[u8], predicate: MatchPredicate) -> (r: Searcher)
        ensures
            r.deployer == deployer,
            r.code_hash@ == keccak_of(init_code@),
            r.predicate == predicate,
    {
        Searcher { deployer, code_hash: init_code_hash(init_code), predicate }
    }

    /// One step of the loop: derive the address of `salt` and test it.
    pub fn try_salt(&self, salt: &[u8; 32]) -> (r: Option<Found>)
        ensures
            r is Some == self.hits(salt@),
            r matches Some(f) ==> f.salt == *salt && f.address@ == self.address_of(salt@),
    {
        let address = compute(&self.deployer, salt, &self.code_hash);
        if self.predicate.matches(&address) {
            Some(Found { salt: *salt, address })
        } else {
            None
        }
    }

    /// Tries the salts in order and stops at the first that matches.
    pub fn search(&self, salts: &[[u8; 32]]) -> (r: Option<Found>)
        ensures
            match r {
                Some(f) => self.is_match(f) && exists|i: int|
                    0 <= i < salts@.len() && salts@[i] == f.salt
                        && forall|j: int| 0 <= j < i ==> !self.hits(salts@[j]@),
                None => forall|j: int| 0 <= j < salts@.len() ==> !self.hits(salts@[j]@),
            },
            self.predicate.pattern_spec().len() == 0 && salts@.len() > 0
                ==> (r matches Some(f) && f.salt == salts@[0]),
    {
        proof {
            if self.predicate.pattern_spec().len() == 0 && salts@.len() > 0 {
                lemma_empty_pattern_first_salt(self, salts@[0]@);
            }
        }
        let mut i: usize = 0;
        while i < salts.len()
            invariant
                i <= salts@.len(),
                forall|j: int| 0 <= j < i ==> !self.hits(salts@[j]@),
                self.predicate.pattern_spec().len() == 0 && salts@.len() > 0 ==> self.hits(salts@[0]@) && i == 0,
            decreases salts@.len() - i,
        {
            let found = self.try_salt(&salts[i]);
            if let Some(f) = found {
                assert(salts@[i as int] == f.salt);
                return Some(f);
            }
            i = i + 1;
        }
        None
    }

    /// Draws at most `max_attempts` salts from the sampler and returns the
    /// first that matches; with an empty pattern the first salt drawn does.
    pub fn mine(&self, sampler: &mut SaltSampler, max_attempts: u64) -> (r: Option<Found>)
        ensures
            r matches Some(f) ==> self.is_match(f),
            max_attempts > 0 && self.predicate.pattern_spec().len() == 0 ==> r is Some,
    {
        let mut left = max_attempts;
        while left > 0
            invariant
                left <= max_attempts,
                max_attempts > 0 && self.predicate.pattern_spec().len() == 0 ==> left == max_attempts,
            decreases left,
        {
            let salt = sampler.next_salt();
            let found = self.try_salt(&salt);
            if let Some(f) = found {
                return Some(f);
            }
            proof {
                if self.predicate.pattern_spec().len() == 0 {
                    lemma_empty_pattern_accepts(self.predicate.mode_spec(), self.address_of(salt@));
                    assert(self.predicate.pattern_spec() =~= Seq::<u8>::empty());
                }
            }
            left = left - 1;
        }
        None
    }
}

/// With an empty pattern every salt hits, whatever the mode: the search
/// stops at the first salt it tries.
pub proof fn lemma_empty_pattern_first_salt(s: &Searcher, salt: Seq<u8>)
    requires
        s.predicate.pattern_spec().len() == 0,
    ensures
        s.hits(salt),
{
    lemma_empty_pattern_accepts(s.predicate.mode_spec(), s.address_of(salt));
    assert(s.predicate.pattern_spec() =~= Seq::<u8>::empty());
}

} // verus!
