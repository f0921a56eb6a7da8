//! The tabular extractor: parses the export and keeps the rows whose agent
//! resolves to a canonical record.

use vstd::prelude::*;
use crate::matching::{
    find_first_match, first_match, has_match, lemma_equal_name_resolves, lemma_first_match_exists,
};
use crate::reconcile::AGENT_COLUMN;
use crate::records::{CanonicalRecord, ExportRow};
use crate::text::normalized;

verus! {

/// The byte that separates the fields of an export line.
pub const DELIMITER: u8 = 59;

#[verifier::external_type_specification]
#[verifier::external_body]
pub struct ExCsvError(csv::Error);

/// The records of delimited text `data`: each record as its pairs of
/// column name and field, one pair per name, ordered by name. Where several
/// columns share a name, the last of them gives the field. `None` where
/// `data` is not well-formed: a field or a header that is not UTF-8, or a
/// record whose count of fields differs from the header's.
pub uninterp spec fn delimited_records(data: Seq<u8>, delimiter: u8, has_headers: bool) -> Option<
    Seq<Seq<(Seq<char>, Seq<char>)>>,
>;

/// The pairs of a record, as sequences of characters.
pub open spec fn pairs_of(record: Seq<(String, String)>) -> Seq<(Seq<char>, Seq<char>)> {
    Seq::new(record.len(), |i: int| (record[i].0@, record[i].1@))
}

/// The pairs of each record.
pub open spec fn records_of(records: Seq<Vec<(String, String)>>) -> Seq<
    Seq<(Seq<char>, Seq<char>)>,
> {
    Seq::new(records.len(), |i: int| pairs_of(records[i]@))
}

/// The mapping that the first `n` pairs stand for: each pair sets its
/// column, a later pair replacing an earlier one of the same name.
pub open spec fn row_of_first(pairs: Seq<(Seq<char>, Seq<char>)>, n: int) -> Map<
    Seq<char>,
    Seq<char>,
>
    decreases n,
{
    if n <= 0 {
        Map::empty()
    } else {
        row_of_first(pairs, n - 1).insert(pairs[n - 1].0, pairs[n - 1].1)
    }
}

/// The mapping that `pairs` stand for.
pub open spec fn row_of(pairs: Seq<(Seq<char>, Seq<char>)>) -> Map<Seq<char>, Seq<char>> {
    row_of_first(pairs, pairs.len() as int)
}

/// The mapping of each record.
pub open spec fn rows_of(records: Seq<Seq<(Seq<char>, Seq<char>)>>) -> Seq<
    Map<Seq<char>, Seq<char>>,
> {
    Seq::new(records.len(), |i: int| row_of(records[i]))
}

/// The mappings that `rows` stand for.
pub open spec fn views_of(rows: Seq<ExportRow>) -> Seq<Map<Seq<char>, Seq<char>>> {
    Seq::new(rows.len(), |i: int| rows[i]@)
}

/// Whether a row stays in the filtered set: it has an agent, and the agent
/// matches at least one canonical record.
pub open spec fn is_kept(row: Map<Seq<char>, Seq<char>>, canonical: Seq<CanonicalRecord>) -> bool {
    row.contains_key(AGENT_COLUMN@) && first_match(row[AGENT_COLUMN@], canonical) is Some
}

/// The test that `is_kept` makes against `canonical`.
pub open spec fn stays(canonical: Seq<CanonicalRecord>) -> spec_fn(Map<Seq<char>, Seq<char>>) -> bool {
    |row: Map<Seq<char>, Seq<char>>| is_kept(row, canonical)
}

/// The rows of `rows` that stay, in order.
pub open spec fn kept(
    rows: Seq<Map<Seq<char>, Seq<char>>>,
    canonical: Seq<CanonicalRecord>,
) -> Seq<Map<Seq<char>, Seq<char>>> {
    rows.filter(stays(canonical))
}

/// A row is in the filtered set exactly when it is one of `rows` and has a
/// matching agent.
pub proof fn lemma_kept_rows(
    rows: Seq<Map<Seq<char>, Seq<char>>>,
    canonical: Seq<CanonicalRecord>,
    row: Map<Seq<char>, Seq<char>>,
)
    ensures
        kept(rows, canonical).contains(row) <==> rows.contains(row) && is_kept(row, canonical),
        kept(rows, canonical).len() <= rows.len(),
{
    let pred = stays(canonical);
    rows.lemma_filter_len(pred);
    if kept(rows, canonical).contains(row) {
        let k = choose|k: int| 0 <= k < rows.filter(pred).len() && rows.filter(pred)[k] == row;
        rows.lemma_filter_pred(pred, k);
        rows.lemma_filter_contains_rev(pred, row);
    }
    if rows.contains(row) && is_kept(row, canonical) {
        let i = choose|i: int| 0 <= i < rows.len() && rows[i] == row;
        rows.lemma_filter_contains(pred, i);
    }
}

/// A row whose agent equals the account name of some canonical record, case
/// and surrounding whitespace aside, stays.
pub proof fn lemma_equal_name_is_kept(
    row: Map<Seq<char>, Seq<char>>,
    canonical: Seq<CanonicalRecord>,
    j: int,
)
    requires
        row.contains_key(AGENT_COLUMN@),
        0 <= j < canonical.len(),
        normalized(row[AGENT_COLUMN@]) == normalized(canonical[j].account_name@),
    ensures
        is_kept(row, canonical),
{
    lemma_equal_name_resolves(row[AGENT_COLUMN@], canonical, j);
}

/// A row whose agent is below the threshold against every canonical record
/// does not stay.
pub proof fn lemma_unmatched_is_dropped(
    row: Map<Seq<char>, Seq<char>>,
    canonical: Seq<CanonicalRecord>,
)
    requires
        row.contains_key(AGENT_COLUMN@) ==> !has_match(row[AGENT_COLUMN@], canonical),
    ensures
        !is_kept(row, canonical),
{
    if row.contains_key(AGENT_COLUMN@) {
        lemma_first_match_exists(row[AGENT_COLUMN@], canonical);
    }
}

/// Why an export could not be read.
#[derive(Debug, PartialEq, Eq)]
pub enum ExtractError {
    /// The text is not a well-formed table; `detail` says where and why.
    Malformed { detail: String },
}

/// `csv::ReaderBuilder` with the given delimiter and header setting, read
/// from memory through `Reader::deserialize`, which maps the names of the
/// header to the fields of each record.
#[verifier::external_body]
fn parse_records(data: &[u8], delimiter: u8, has_headers: bool) -> (r: Result<
    Vec<Vec<(String, String)>>,
    csv::Error,
>)
    ensures
        match r {
            Ok(records) => delimited_records(data@, delimiter, has_headers) == Some(
                records_of(records@),
            ),
            Err(_) => delimited_records(data@, delimiter, has_headers) is None,
        },
{
    let mut reader =
        csv::ReaderBuilder::new().delimiter(delimiter).has_headers(has_headers).from_reader(data);
    let mut records = Vec::new();
    for record in reader.deserialize::<std::collections::BTreeMap<String, String>>() {
        records.push(record?.into_iter().collect());
    }
    Ok(records)
}

/// The message of a `csv::Error`, as its `Display` gives it.
#[verifier::external_body]
fn describe(error: &csv::Error) -> String {
    format!("{}", error)
}

/// Whether `row` has an agent that matches a canonical record.
pub fn keeps(row: &ExportRow, canonical: &Vec<CanonicalRecord>) -> (kept: bool)
    ensures
        kept == is_kept(row@, canonical@),
{
    match row.get(AGENT_COLUMN) {
        Some(agent) => find_first_match(agent.as_str(), canonical).is_some(),
        None => false,
    }
}

/// Drops the rows without an agent and those whose agent matches no
/// canonical record; the others stay in order.
pub fn filter_rows(rows: Vec<ExportRow>, canonical: &Vec<CanonicalRecord>) -> (results: Vec<
    ExportRow,
>)
    ensures
        views_of(results@) == kept(views_of(rows@), canonical@),
{
    let ghost all = views_of(rows@);
    let ghost pred = stays(canonical@);
    let mut results: Vec<ExportRow> = Vec::new();
    proof {
        reveal(Seq::filter);
    }
    for row in it: rows.into_iter()
        invariant
            views_of(it.seq()) == all,
            pred == stays(canonical@),
            views_of(results@) == all.take(it.index() as int).filter(pred),
    {
        proof {
            reveal(Seq::filter);
            assert(all.take(it.index() + 1).drop_last() =~= all.take(it.index() as int));
        }
        if keeps(&row, canonical) {
            results.push(row);
        }
    }
    assert(all.take(all.len() as int) =~= all);
    results
}

/// Builds the row that `pairs` stand for.
pub fn row_from_pairs(pairs: Vec<(String, String)>) -> (row: ExportRow)
    ensures
        row@ == row_of(pairs_of(pairs@)),
{
    let ghost all = pairs_of(pairs@);
    let mut row = ExportRow::new();
    for pair in it: pairs.into_iter()
        invariant
            pairs_of(it.seq()) == all,
            row@ == row_of_first(all, it.index() as int),
    {
        assert(all[it.index() as int] == (pair.0@, pair.1@));
        row.insert(pair.0, pair.1);
    }
    row
}

/// Builds the row of each record.
pub fn rows_from_records(records: Vec<Vec<(String, String)>>) -> (rows: Vec<ExportRow>)
    ensures
        views_of(rows@) == rows_of(records_of(records@)),
{
    let ghost all = records_of(records@);
    let mut rows: Vec<ExportRow> = Vec::new();
    for record in it: records.into_iter()
        invariant
            records_of(it.seq()) == all,
            rows.len() == it.index(),
            forall|k: int| 0 <= k < rows.len() ==> (#[trigger] rows[k])@ == row_of(all[k]),
    {
        assert(all[it.index() as int] == pairs_of(record@));
        rows.push(row_from_pairs(record));
    }
    assert(views_of(rows@) =~= rows_of(all));
    rows
}

/// Parses a semicolon-delimited export with a header line and keeps the
/// rows whose agent matches a canonical record.
pub fn read_csv(data: &[u8], canonical: &Vec<CanonicalRecord>) -> (r: Result<
    Vec<ExportRow>,
    ExtractError,
>)
    ensures
        match r {
            Ok(rows) => delimited_records(data@, DELIMITER, true) matches Some(records)
                && views_of(rows@) == kept(rows_of(records), canonical@),
            Err(_) => delimited_records(data@, DELIMITER, true) is None,
        },
{
    match parse_records(data, DELIMITER, true) {
        Ok(records) => Ok(filter_rows(rows_from_records(records), canonical)),
        Err(error) => Err(ExtractError::Malformed { detail: describe(&error) }),
    }
}

} // verus!
