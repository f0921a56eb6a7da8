//! The reconciliation pipeline: each export row is resolved to a canonical
//! record, rows whose contact already produced an event are passed over,
//! and every other row with an identifier yields one enrichment event.

use vstd::prelude::*;
use crate::identifier::{extract_file_number, file_link, file_number, link_to, text_of};
use crate::matching::{find_first_match, first_match, lemma_first_match};
use crate::records::{CanonicalRecord, ContactHookKey, ExportRow, SeenEmails};
use crate::text::normalized;

verus! {

/// Name of the column that holds the agent's name.
pub const AGENT_COLUMN: &'static str = "Agent";

/// Name of the column that holds the file text.
pub const FILE_COLUMN: &'static str = "File";

/// What is decided about one row.
pub enum Decision {
    /// The row lacks the agent or the file column.
    Incomplete,
    /// No canonical record matches the agent.
    Unmatched,
    /// The contact of the matched record already produced an event.
    Duplicate { record: int },
    /// The file text holds no identifier.
    Unresolved { record: int },
    /// An event goes out for the matched record and the identifier.
    Dispatch { record: int, number: Seq<char> },
}

/// What follows for a row from the record its agent resolved to, if any,
/// and from the identifier found in its file text, if any, given the emails
/// that produced an event so far.
pub open spec fn settle(
    found: Option<int>,
    number: Option<Seq<char>>,
    canonical: Seq<CanonicalRecord>,
    seen: Set<Seq<char>>,
) -> Decision {
    match found {
        None => Decision::Unmatched,
        Some(record) => if seen.contains(canonical[record].contact_email@) {
            Decision::Duplicate { record }
        } else {
            match number {
                None => Decision::Unresolved { record },
                Some(number) => Decision::Dispatch { record, number },
            }
        },
    }
}

/// The decision about `row`, given the emails that produced an event so far.
pub open spec fn decide(
    row: Map<Seq<char>, Seq<char>>,
    canonical: Seq<CanonicalRecord>,
    seen: Set<Seq<char>>,
) -> Decision {
    if !row.contains_key(AGENT_COLUMN@) || !row.contains_key(FILE_COLUMN@) {
        Decision::Incomplete
    } else {
        settle(
            first_match(row[AGENT_COLUMN@], canonical),
            file_number(row[FILE_COLUMN@]),
            canonical,
            seen,
        )
    }
}

/// The emails that produced an event once `decision` is carried out.
pub open spec fn seen_after(
    decision: Decision,
    canonical: Seq<CanonicalRecord>,
    seen: Set<Seq<char>>,
) -> Set<Seq<char>> {
    match decision {
        Decision::Dispatch { record, .. } => seen.insert(canonical[record].contact_email@),
        _ => seen,
    }
}

/// An event that went out: the row it came from, the record it was matched
/// to, and the identifier found in the row.
pub struct Dispatched {
    pub row: int,
    pub record: int,
    pub number: Seq<char>,
}

/// Where a run stands after some rows.
pub struct Progress {
    /// Contact emails that produced an event.
    pub seen: Set<Seq<char>>,
    /// The events, in the order in which they went out.
    pub dispatched: Seq<Dispatched>,
    /// The rows that matched a new contact but held no identifier.
    pub unresolved: Seq<int>,
}

/// The run after the first `n` rows.
pub open spec fn progress(rows: Seq<ExportRow>, canonical: Seq<CanonicalRecord>, n: int) -> Progress
    decreases n,
{
    if n <= 0 {
        Progress { seen: Set::empty(), dispatched: Seq::empty(), unresolved: Seq::empty() }
    } else {
        let before = progress(rows, canonical, n - 1);
        let decision = decide(rows[n - 1]@, canonical, before.seen);
        Progress {
            seen: seen_after(decision, canonical, before.seen),
            dispatched: match decision {
                Decision::Dispatch { record, number } => before.dispatched.push(
                    Dispatched { row: n - 1, record, number },
                ),
                _ => before.dispatched,
            },
            unresolved: if decision is Unresolved {
                before.unresolved.push(n - 1)
            } else {
                before.unresolved
            },
        }
    }
}

/// The run after all rows.
pub open spec fn outcome_of(rows: Seq<ExportRow>, canonical: Seq<CanonicalRecord>) -> Progress {
    progress(rows, canonical, rows.len() as int)
}

/// Whether `event` is the payload for record `record` and the identifier
/// `number`: the normalised email of the record's contact, and the link to
/// the identifier.
pub open spec fn is_event_for(
    event: ContactHookKey,
    record: int,
    number: Seq<char>,
    canonical: Seq<CanonicalRecord>,
) -> bool {
    &&& event.email@ == normalized(canonical[record].contact_email@)
    &&& event.file_number@ == link_to(number)
}

/// Whether `events` are the payloads for `dispatched`, one for one and in
/// order.
pub open spec fn are_events_for(
    events: Seq<ContactHookKey>,
    dispatched: Seq<Dispatched>,
    canonical: Seq<CanonicalRecord>,
) -> bool {
    &&& events.len() == dispatched.len()
    &&& forall|k: int|
        0 <= k < events.len() ==> is_event_for(
            #[trigger] events[k],
            dispatched[k].record,
            dispatched[k].number,
            canonical,
        )
}

/// Whether `indices` holds the same numbers as `rows`.
pub open spec fn are_rows(indices: Seq<usize>, rows: Seq<int>) -> bool {
    &&& indices.len() == rows.len()
    &&& forall|k: int| 0 <= k < indices.len() ==> #[trigger] indices[k] as int == rows[k]
}

/// What was done with one row.
#[derive(Debug, PartialEq, Eq)]
pub enum RowOutcome {
    /// The row lacks the agent or the file column.
    Incomplete,
    /// No canonical record matches the agent.
    Unmatched,
    /// The contact of record `record` already produced an event.
    Duplicate { record: usize },
    /// The row matched record `record`, but its file text holds no
    /// identifier.
    Unresolved { record: usize },
    /// `event` is to be sent for record `record`.
    Dispatch { record: usize, event: ContactHookKey },
}

impl RowOutcome {
    /// Whether this outcome carries out `decision`.
    pub open spec fn carries_out(
        self,
        decision: Decision,
        canonical: Seq<CanonicalRecord>,
    ) -> bool {
        match self {
            RowOutcome::Incomplete => decision is Incomplete,
            RowOutcome::Unmatched => decision is Unmatched,
            RowOutcome::Duplicate { record } => decision == (Decision::Duplicate {
                record: record as int,
            }),
            RowOutcome::Unresolved { record } => decision == (Decision::Unresolved {
                record: record as int,
            }),
            RowOutcome::Dispatch { record, event } => {
                &&& decision matches Decision::Dispatch { record: r, number }
                &&& r == record as int
                &&& is_event_for(event, r, number, canonical)
            },
        }
    }
}

/// The result of a run.
pub struct Reconciliation {
    /// The events to send, in order.
    pub events: Vec<ContactHookKey>,
    /// Indices of the rows that matched a new contact but held no
    /// identifier.
    pub unresolved: Vec<usize>,
    /// The contact emails for which an event was produced.
    pub seen: SeenEmails,
}

/// A decision names a record only if it is one of `canonical`.
pub proof fn lemma_decision_in_range(
    row: Map<Seq<char>, Seq<char>>,
    canonical: Seq<CanonicalRecord>,
    seen: Set<Seq<char>>,
)
    ensures
        match decide(row, canonical, seen) {
            Decision::Duplicate { record } => 0 <= record < canonical.len() && seen.contains(
                canonical[record].contact_email@,
            ),
            Decision::Unresolved { record } => 0 <= record < canonical.len() && !seen.contains(
                canonical[record].contact_email@,
            ),
            Decision::Dispatch { record, .. } => 0 <= record < canonical.len() && !seen.contains(
                canonical[record].contact_email@,
            ),
            _ => true,
        },
{
    if row.contains_key(AGENT_COLUMN@) {
        lemma_first_match(row[AGENT_COLUMN@], canonical, 0);
    }
}

/// The contact email behind an event that went out.
pub open spec fn contact_of(sent: Dispatched, canonical: Seq<CanonicalRecord>) -> Seq<char> {
    canonical[sent.record].contact_email@
}

/// Whether a row names an agent and a file, its agent resolves to a
/// canonical record, and that record's contact email is `email`.
pub open spec fn resolves_to(
    row: ExportRow,
    canonical: Seq<CanonicalRecord>,
    email: Seq<char>,
) -> bool {
    &&& row@.contains_key(AGENT_COLUMN@)
    &&& row@.contains_key(FILE_COLUMN@)
    &&& first_match(row@[AGENT_COLUMN@], canonical) matches Some(record)
    &&& canonical[record].contact_email@ == email
}

/// Whether the file text of a row holds an identifier.
pub open spec fn has_identifier(row: ExportRow) -> bool {
    file_number(row@[FILE_COLUMN@]) is Some
}

/// At most one event goes out per contact email: the events of a run come
/// from rows already handled and from records of `canonical`, the emails
/// seen are exactly the contacts of those events, and no two events share a
/// contact. So the count of emails seen is the count of events.
pub proof fn lemma_one_event_per_contact(
    rows: Seq<ExportRow>,
    canonical: Seq<CanonicalRecord>,
    n: int,
)
    requires
        0 <= n <= rows.len(),
    ensures
        forall|k: int|
            0 <= k < progress(rows, canonical, n).dispatched.len() ==> {
                let sent = #[trigger] progress(rows, canonical, n).dispatched[k];
                &&& 0 <= sent.row < n
                &&& 0 <= sent.record < canonical.len()
                &&& progress(rows, canonical, n).seen.contains(contact_of(sent, canonical))
            },
        forall|email: Seq<char>|
            progress(rows, canonical, n).seen.contains(email) ==> exists|k: int|
                0 <= k < progress(rows, canonical, n).dispatched.len() && contact_of(
                    #[trigger] progress(rows, canonical, n).dispatched[k],
                    canonical,
                ) == email,
        forall|j: int, k: int|
            0 <= j < k < progress(rows, canonical, n).dispatched.len() ==> contact_of(
                #[trigger] progress(rows, canonical, n).dispatched[j],
                canonical,
            ) != contact_of(#[trigger] progress(rows, canonical, n).dispatched[k], canonical),
        progress(rows, canonical, n).dispatched.len() <= n,
        progress(rows, canonical, n).seen.finite(),
        progress(rows, canonical, n).seen.len() == progress(rows, canonical, n).dispatched.len(),
    decreases n,
{
    if n > 0 {
        lemma_one_event_per_contact(rows, canonical, n - 1);
        let before = progress(rows, canonical, n - 1);
        let after = progress(rows, canonical, n);
        lemma_decision_in_range(rows[n - 1]@, canonical, before.seen);
        match decide(rows[n - 1]@, canonical, before.seen) {
            Decision::Dispatch { record, number } => {
                let sent = Dispatched { row: n - 1, record, number };
                let last = before.dispatched.len() as int;
                assert(after.dispatched == before.dispatched.push(sent));
                assert(after.dispatched[last] == sent);
                assert forall|k: int| 0 <= k < last implies #[trigger] after.dispatched[k]
                    == before.dispatched[k] by {}
                assert forall|email: Seq<char>| after.seen.contains(email) implies exists|k: int|
                    0 <= k < after.dispatched.len() && contact_of(
                        #[trigger] after.dispatched[k],
                        canonical,
                    ) == email by {
                    if email == contact_of(sent, canonical) {
                        assert(contact_of(after.dispatched[last], canonical) == email);
                    } else {
                        assert(before.seen.contains(email));
                        let k = choose|k: int|
                            0 <= k < before.dispatched.len() && contact_of(
                                #[trigger] before.dispatched[k],
                                canonical,
                            ) == email;
                        assert(contact_of(after.dispatched[k], canonical) == email);
                    }
                }
            },
            _ => {},
        }
    }
}

/// Two rows that resolve to the same contact email produce one event,
/// provided that at least one of them holds an identifier.
pub proof fn lemma_same_contact_dispatches_once(
    first: ExportRow,
    second: ExportRow,
    canonical: Seq<CanonicalRecord>,
    email: Seq<char>,
)
    requires
        resolves_to(first, canonical, email),
        resolves_to(second, canonical, email),
        has_identifier(first) || has_identifier(second),
    ensures
        outcome_of(seq![first, second], canonical).dispatched.len() == 1,
{
    let rows = seq![first, second];
    reveal_with_fuel(progress, 3);
    assert(rows[0] == first && rows[1] == second);
    assert(progress(rows, canonical, 0).seen =~= Set::<Seq<char>>::empty());
}

/// Two rows that resolve to different contact emails, each holding an
/// identifier, produce two events.
pub proof fn lemma_distinct_contacts_dispatch_twice(
    first: ExportRow,
    second: ExportRow,
    canonical: Seq<CanonicalRecord>,
    first_email: Seq<char>,
    second_email: Seq<char>,
)
    requires
        resolves_to(first, canonical, first_email),
        resolves_to(second, canonical, second_email),
        first_email != second_email,
        has_identifier(first),
        has_identifier(second),
    ensures
        outcome_of(seq![first, second], canonical).dispatched.len() == 2,
{
    let rows = seq![first, second];
    reveal_with_fuel(progress, 3);
    assert(rows[0] == first && rows[1] == second);
    assert(progress(rows, canonical, 0).seen =~= Set::<Seq<char>>::empty());
}

/// The index in an optional position.
pub open spec fn index_of(found: Option<usize>) -> Option<int> {
    match found {
        Some(i) => Some(i as int),
        None => None,
    }
}

/// Settles a row once its agent has been resolved and its file text
/// searched: `found` is the record the agent resolved to, `number` the
/// identifier found. A contact that already produced an event is passed
/// over; a new contact without an identifier is reported; a new contact with
/// an identifier gets its event, and only then is its email added to `seen`.
pub fn settle_row(
    found: Option<usize>,
    number: Option<String>,
    canonical: &Vec<CanonicalRecord>,
    seen: &mut SeenEmails,
) -> (outcome: RowOutcome)
    requires
        found matches Some(record) ==> record < canonical.len(),
    ensures
        outcome.carries_out(
            settle(index_of(found), text_of(number), canonical@, old(seen)@),
            canonical@,
        ),
        final(seen)@ == seen_after(
            settle(index_of(found), text_of(number), canonical@, old(seen)@),
            canonical@,
            old(seen)@,
        ),
{
    let record = match found {
        Some(record) => record,
        None => {
            return RowOutcome::Unmatched;
        },
    };
    let email = &canonical[record].contact_email;
    if seen.contains(email.as_str()) {
        return RowOutcome::Duplicate { record };
    }
    match number {
        None => RowOutcome::Unresolved { record },
        Some(number) => {
            let link = file_link(number.as_str());
            let event = ContactHookKey::new(email.as_str(), link.as_str());
            seen.insert(email.clone());
            RowOutcome::Dispatch { record, event }
        },
    }
}

/// Handles one row: resolves its agent to the first matching canonical
/// record, searches its file text for an identifier, and settles the row.
/// A row that lacks the agent or the file column is left alone.
pub fn reconcile_row(
    row: &ExportRow,
    canonical: &Vec<CanonicalRecord>,
    seen: &mut SeenEmails,
) -> (outcome: RowOutcome)
    ensures
        outcome.carries_out(decide(row@, canonical@, old(seen)@), canonical@),
        final(seen)@ == seen_after(decide(row@, canonical@, old(seen)@), canonical@, old(seen)@),
{
    let agent = match row.get(AGENT_COLUMN) {
        Some(agent) => agent,
        None => {
            return RowOutcome::Incomplete;
        },
    };
    let file = match row.get(FILE_COLUMN) {
        Some(file) => file,
        None => {
            return RowOutcome::Incomplete;
        },
    };
    let found = find_first_match(agent.as_str(), canonical);
    let number = extract_file_number(file.as_str());
    settle_row(found, number, canonical, seen)
}

/// Runs the pipeline over `rows`, in order, starting with no email seen.
pub fn reconcile(rows: &Vec<ExportRow>, canonical: &Vec<CanonicalRecord>) -> (result:
    Reconciliation)
    ensures
        are_events_for(result.events@, outcome_of(rows@, canonical@).dispatched, canonical@),
        are_rows(result.unresolved@, outcome_of(rows@, canonical@).unresolved),
        result.seen@ == outcome_of(rows@, canonical@).seen,
{
    let mut events: Vec<ContactHookKey> = Vec::new();
    let mut unresolved: Vec<usize> = Vec::new();
    let mut seen = SeenEmails::new();
    let mut i: usize = 0;
    while i < rows.len()
        invariant
            i <= rows.len(),
            are_events_for(events@, progress(rows@, canonical@, i as int).dispatched, canonical@),
            are_rows(unresolved@, progress(rows@, canonical@, i as int).unresolved),
            seen@ == progress(rows@, canonical@, i as int).seen,
        decreases rows.len() - i,
    {
        let outcome = reconcile_row(&rows[i], canonical, &mut seen);
        match outcome {
            RowOutcome::Dispatch { record, event } => {
                events.push(event);
            },
            RowOutcome::Unresolved { .. } => {
                unresolved.push(i);
            },
            _ => {},
        }
        i += 1;
    }
    Reconciliation { events, unresolved, seen }
}

} // verus!
