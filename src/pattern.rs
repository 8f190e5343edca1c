//! The match predicate: does an address start, or end, with a pattern?

use vstd::prelude::*;
use crate::address::ADDRESS_LEN;
use crate::error::ConfigError;

verus! {

/// Where in the address the pattern must stand.
#[derive(Debug, Clone, Copy, PartialEq, Eq, Structural)]
pub enum MatchMode {
    Prefix,
    Suffix,
}

/// Whether `address` carries `pattern` at the place that `mode` names.
pub open spec fn accepts(mode: MatchMode, pattern: Seq<u8>, address: Seq<u8>) -> bool {
    match mode {
        MatchMode::Prefix => address.subrange(0, pattern.len() as int) == pattern,
        MatchMode::Suffix => address.subrange(address.len() - pattern.len(), address.len() as int) == pattern,
    }
}

/// A mode and a pattern of at most twenty bytes.
#[derive(Debug)]
pub struct MatchPredicate {
    mode: MatchMode,
    pattern: Vec<u8>,
}

impl MatchPredicate {
    #[verifier::type_invariant]
    spec fn fits(&self) -> bool {
        self.pattern.len() <= ADDRESS_LEN
    }

    /// The mode of this predicate.
    pub closed spec fn mode_spec(&self) -> MatchMode {
        self.mode
    }

    /// The pattern of this predicate.
    pub closed spec fn pattern_spec(&self) -> Seq<u8> {
        self.pattern@
    }

    /// Whether this predicate accepts the address.
    pub open spec fn accepts_spec(&self, address: Seq<u8>) -> bool {
        accepts(self.mode_spec(), self.pattern_spec(), address)
    }

    /// Builds a predicate; a pattern longer than an address is refused.
    pub fn new(mode: MatchMode, pattern: Vec<u8>) -> (r: Result<MatchPredicate, ConfigError>)
        ensures
            match r {
                Ok(p) => pattern@.len() <= ADDRESS_LEN && p.mode_spec() == mode && p.pattern_spec() == pattern@,
                Err(e) => pattern@.len() > ADDRESS_LEN && e == (ConfigError::PatternTooLong { len: pattern@.len() as usize }),
            },
    {
        if pattern.len() > ADDRESS_LEN {
            Err(ConfigError::PatternTooLong { len: pattern.len() })
        } else {
            Ok(MatchPredicate { mode, pattern })
        }
    }

    /// The mode of this predicate.
    pub fn mode(&self) -> (r: MatchMode)
        ensures
            r == self.mode_spec(),
    {
        self.mode
    }

    /// The pattern of this predicate.
    pub fn pattern(&self) -> (r: &Vec<u8>)
        ensures
            r@ == self.pattern_spec(),
    {
        &self.pattern
    }

    /// Tests the address against the pattern, byte by byte.
    pub fn matches(&self, address: &[u8; 20]) -> (r: bool)
        ensures
            r == self.accepts_spec(address@),
    {
        proof { use_type_invariant(self); }
        let n = self.pattern.len();
        let offset: usize = match self.mode {
            MatchMode::Prefix => 0,
            MatchMode::Suffix => ADDRESS_LEN - n,
        };
        let ghost want = address@.subrange(offset as int, offset + n);
        assert(address@.len() == ADDRESS_LEN);
        assert(self.accepts_spec(address@) == (want == self.pattern@));
        let mut i: usize = 0;
        while i < n
            invariant
                n == self.pattern@.len(),
                n <= ADDRESS_LEN,
                offset + n <= ADDRESS_LEN,
                want == address@.subrange(offset as int, offset + n),
                self.accepts_spec(address@) == (want == self.pattern@),
                i <= n,
                forall|k: int| 0 <= k < i ==> want[k] == self.pattern@[k],
            decreases n - i,
        {
            if address[offset + i] != self.pattern[i] {
                assert(want[i as int] != self.pattern@[i as int]);
                return false;
            }
            i = i + 1;
        }
        assert(want =~= self.pattern@);
        true
    }
}

/// An address accepted in prefix mode begins with the pattern.
pub proof fn lemma_prefix_accepted(pattern: Seq<u8>, address: Seq<u8>)
    requires
        address.len() == ADDRESS_LEN,
        pattern.len() <= ADDRESS_LEN,
        accepts(MatchMode::Prefix, pattern, address),
    ensures
        forall|k: int| 0 <= k < pattern.len() ==> address[k] == pattern[k],
{
    assert forall|k: int| 0 <= k < pattern.len() implies address[k] == pattern[k] by {
        assert(address.subrange(0, pattern.len() as int)[k] == address[k]);
    }
}

/// An address accepted in suffix mode ends with the pattern.
pub proof fn lemma_suffix_accepted(pattern: Seq<u8>, address: Seq<u8>)
    requires
        address.len() == ADDRESS_LEN,
        pattern.len() <= ADDRESS_LEN,
        accepts(MatchMode::Suffix, pattern, address),
    ensures
        forall|k: int| 0 <= k < pattern.len() ==> address[ADDRESS_LEN - pattern.len() + k] == pattern[k],
{
    let start = ADDRESS_LEN - pattern.len();
    assert forall|k: int| 0 <= k < pattern.len() implies address[start + k] == pattern[k] by {
        assert(address.subrange(start, ADDRESS_LEN as int)[k] == address[start + k]);
    }
}

/// The empty pattern accepts every address, in either mode.
pub proof fn lemma_empty_pattern_accepts(mode: MatchMode, address: Seq<u8>)
    ensures
        accepts(mode, Seq::<u8>::empty(), address),
{
    assert(address.subrange(0, 0) =~= Seq::<u8>::empty());
    assert(address.subrange(address.len() as int, address.len() as int) =~= Seq::<u8>::empty());
}

} // verus!
