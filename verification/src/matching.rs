//! Resolution of an agent name to a canonical record: the first record, in
//! the order given, whose account name is similar enough. Order decides,
//! not the score.

use vstd::prelude::*;
use crate::records::CanonicalRecord;
use crate::similarity::{is_similar, names_match};
use crate::text::{normalize, normalized};

verus! {

/// Index of the first record at or after `start` whose account name matches
/// `agent`.
pub open spec fn first_match_from(
    agent: Seq<char>,
    canonical: Seq<CanonicalRecord>,
    start: int,
) -> Option<int>
    decreases canonical.len() - start,
{
    if start < 0 || start >= canonical.len() {
        None
    } else if names_match(agent, canonical[start].account_name@) {
        Some(start)
    } else {
        first_match_from(agent, canonical, start + 1)
    }
}

/// Index of the first record whose account name matches `agent`.
pub open spec fn first_match(agent: Seq<char>, canonical: Seq<CanonicalRecord>) -> Option<int> {
    first_match_from(agent, canonical, 0)
}

/// Whether any record's account name matches `agent`.
pub open spec fn has_match(agent: Seq<char>, canonical: Seq<CanonicalRecord>) -> bool {
    exists|i: int|
        0 <= i < canonical.len() && names_match(agent, #[trigger] canonical[i].account_name@)
}

/// The first match is a match, nothing before it is one, and there is none
/// exactly when no record matches.
pub proof fn lemma_first_match(agent: Seq<char>, canonical: Seq<CanonicalRecord>, start: int)
    requires
        0 <= start,
    ensures
        match first_match_from(agent, canonical, start) {
            Some(i) => start <= i < canonical.len() && names_match(
                agent,
                canonical[i].account_name@,
            ) && forall|j: int|
                start <= j < i ==> !names_match(agent, #[trigger] canonical[j].account_name@),
            None => forall|j: int|
                start <= j < canonical.len() ==> !names_match(
                    agent,
                    #[trigger] canonical[j].account_name@,
                ),
        },
    decreases canonical.len() - start,
{
    if start < canonical.len() && !names_match(agent, canonical[start].account_name@) {
        lemma_first_match(agent, canonical, start + 1);
    }
}

/// A first match exists exactly when some record matches.
pub proof fn lemma_first_match_exists(agent: Seq<char>, canonical: Seq<CanonicalRecord>)
    ensures
        first_match(agent, canonical) is Some <==> has_match(agent, canonical),
{
    lemma_first_match(agent, canonical, 0);
}

/// An agent that equals the account name of some record, case and
/// surrounding whitespace aside, resolves to that record or to an earlier
/// one.
pub proof fn lemma_equal_name_resolves(agent: Seq<char>, canonical: Seq<CanonicalRecord>, j: int)
    requires
        0 <= j < canonical.len(),
        normalized(agent) == normalized(canonical[j].account_name@),
    ensures
        first_match(agent, canonical) matches Some(i) && i <= j,
{
    lemma_first_match(agent, canonical, 0);
}

/// Finds the first canonical record whose account name matches `agent`:
/// the scan stops at the first record that reaches the threshold, whatever
/// the later ones would score.
pub fn find_first_match(agent: &str, canonical: &Vec<CanonicalRecord>) -> (found: Option<usize>)
    ensures
        match found {
            Some(i) => i < canonical.len() && first_match(agent@, canonical@) == Some(i as int),
            None => first_match(agent@, canonical@) is None,
        },
{
    proof {
        lemma_first_match(agent@, canonical@, 0);
    }
    let cleaned_agent = normalize(agent);
    let mut i: usize = 0;
    while i < canonical.len()
        invariant
            i <= canonical.len(),
            cleaned_agent@ == normalized(agent@),
            first_match(agent@, canonical@) == first_match_from(agent@, canonical@, i as int),
        decreases canonical.len() - i,
    {
        let stored_clean = normalize(canonical[i].account_name.as_str());
        if is_similar(cleaned_agent.as_str(), stored_clean.as_str()) {
            return Some(i);
        }
        i += 1;
    }
    None
}

} // verus!
