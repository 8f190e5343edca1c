//! Configuration errors, all detected before any search begins.

use vstd::prelude::*;

verus! {

/// Why a search configuration was refused.
#[derive(Debug, Clone, Copy, PartialEq, Eq, Structural)]
pub enum ConfigError {
    /// The pattern holds more bytes than an address has; it could never match.
    PatternTooLong { len: usize },
    /// The pattern text is not an even number of hex digits.
    MalformedPattern,
    /// The deployer text is not forty hex digits, with an optional `0x` before them.
    MalformedDeployer,
}

impl ConfigError {
    /// A human-readable diagnostic for this error.
    pub fn message(&self) -> (r: String)
        ensures
            r@.len() > 0,
    {
        proof {
            reveal_strlit("pattern is longer than an address (20 bytes)");
            reveal_strlit("pattern is not an even number of hex digits");
            reveal_strlit("deployer is not a 20-byte hex address");
        }
        match self {
            ConfigError::PatternTooLong { .. } => "pattern is longer than an address (20 bytes)".to_string(),
            ConfigError::MalformedPattern => "pattern is not an even number of hex digits".to_string(),
            ConfigError::MalformedDeployer => "deployer is not a 20-byte hex address".to_string(),
        }
    }
}

} // verus!
