//! The fuzzy comparison of account names.
//!
//! Scores are Jaro-Winkler similarities in `[0.0, 1.0]`. They are carried as
//! their IEEE-754 bit patterns: on non-negative numbers the order of the bit
//! patterns is the order of the numbers, so a score reaches the threshold
//! exactly when its bits reach the threshold's bits.

use vstd::prelude::*;
use crate::text::{normalize, normalized};

verus! {

/// Bit pattern of the score 0.9, the least similarity that counts as a match.
pub const THRESHOLD_BITS: u64 = 0x3FEC_CCCC_CCCC_CCCD;

/// Bit pattern of the score 1.0.
pub const IDENTITY_BITS: u64 = 0x3FF0_0000_0000_0000;

/// Bit pattern of the Jaro-Winkler similarity of `a` and `b`.
pub uninterp spec fn jaro_winkler_bits(a: Seq<char>, b: Seq<char>) -> u64;

/// Whether two names, already normalised, are similar enough to match:
/// their score reaches the threshold. Equal names always do, their score
/// being 1.0.
pub open spec fn similar(a: Seq<char>, b: Seq<char>) -> bool {
    a == b || jaro_winkler_bits(a, b) >= THRESHOLD_BITS
}

/// Whether an export's agent name matches a canonical account name: both
/// are normalised, then compared against the threshold.
pub open spec fn names_match(agent: Seq<char>, account_name: Seq<char>) -> bool {
    similar(normalized(agent), normalized(account_name))
}

/// `strsim::jaro_winkler`, with the score handed out as its bit pattern.
/// The score of a string with itself is exactly 1.0: every character matches
/// in place, nothing is transposed, and the prefix bonus adds zero.
#[verifier::external_body]
fn jaro_winkler(a: &str, b: &str) -> (bits: u64)
    ensures
        bits == jaro_winkler_bits(a@, b@),
        a@ == b@ ==> bits == IDENTITY_BITS,
{
    strsim::jaro_winkler(a, b).to_bits()
}

/// Whether a score, given by its bit pattern, reaches the threshold.
pub fn reaches_threshold(bits: u64) -> (r: bool)
    ensures
        r == (bits >= THRESHOLD_BITS),
{
    bits >= THRESHOLD_BITS
}

/// Compares two normalised names against the threshold.
pub fn is_similar(a: &str, b: &str) -> (r: bool)
    ensures
        r == similar(a@, b@),
{
    reaches_threshold(jaro_winkler(a, b))
}

/// Names that differ only in case and in surrounding whitespace match.
pub proof fn lemma_equal_when_normalized_match(agent: Seq<char>, account_name: Seq<char>)
    requires
        normalized(agent) == normalized(account_name),
    ensures
        names_match(agent, account_name),
{
}

/// Decides whether `agent` matches `account_name`.
pub fn is_match(agent: &str, account_name: &str) -> (r: bool)
    ensures
        r == names_match(agent@, account_name@),
{
    let cleaned_agent = normalize(agent);
    let stored_clean = normalize(account_name);
    is_similar(cleaned_agent.as_str(), stored_clean.as_str())
}

} // verus!
