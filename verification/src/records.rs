//! The records that flow through a run.

use vstd::prelude::*;
use vstd::hash_map::StringHashMap;
use vstd::hash_set::StringHashSet;
use vstd::string::StringExecFns;
use crate::text::{normalize, normalized};

verus! {

/// An authoritative pairing of an account name with the email of its contact.
#[derive(Debug, PartialEq, Eq)]
pub struct CanonicalRecord {
    pub account_name: String,
    pub contact_email: String,
}

impl CanonicalRecord {
    /// The record of the account `account_name` with the contact
    /// `contact_email`, both kept as given.
    pub fn new(account_name: &str, contact_email: &str) -> (record: Self)
        ensures
            record.account_name@ == account_name@,
            record.contact_email@ == contact_email@,
    {
        CanonicalRecord {
            account_name: String::from_str(account_name),
            contact_email: String::from_str(contact_email),
        }
    }
}

/// The payload sent to the webhook: the contact's email in normalised form,
/// and the link that identifies the file.
#[derive(Debug, PartialEq, Eq, Hash)]
pub struct ContactHookKey {
    pub email: String,
    pub file_number: String,
}

impl ContactHookKey {
    /// Builds the payload for `email`, normalising it; `file_number` is kept
    /// exactly as given.
    pub fn new(email: &str, file_number: &str) -> (key: Self)
        ensures
            key.email@ == normalized(email@),
            key.file_number@ == file_number@,
    {
        ContactHookKey { email: normalize(email), file_number: String::from_str(file_number) }
    }
}

/// One line of the export: a mapping from column name to value.
pub struct ExportRow {
    fields: StringHashMap<String>,
}

impl View for ExportRow {
    type V = Map<Seq<char>, Seq<char>>;

    closed spec fn view(&self) -> Map<Seq<char>, Seq<char>> {
        Map::new(
            |name: Seq<char>| self.fields@.contains_key(name),
            |name: Seq<char>| self.fields@[name]@,
        )
    }
}

impl ExportRow {
    /// A row without columns.
    pub fn new() -> (row: Self)
        ensures
            row@ == Map::<Seq<char>, Seq<char>>::empty(),
    {
        let row = ExportRow { fields: StringHashMap::new() };
        assert(row@ =~= Map::<Seq<char>, Seq<char>>::empty());
        row
    }

    /// Sets column `name` to `value`, replacing what the column held.
    pub fn insert(&mut self, name: String, value: String)
        ensures
            final(self)@ == old(self)@.insert(name@, value@),
    {
        self.fields.insert(name, value);
        assert(self@ =~= old(self)@.insert(name@, value@));
    }

    /// The value of column `name`, if the row has that column.
    pub fn get(&self, name: &str) -> (value: Option<&String>)
        ensures
            match value {
                Some(v) => self@.contains_key(name@) && v@ == self@[name@],
                None => !self@.contains_key(name@),
            },
    {
        self.fields.get(name)
    }
}

/// The contact emails that have produced an event in the current run.
pub struct SeenEmails {
    emails: StringHashSet,
}

impl View for SeenEmails {
    type V = Set<Seq<char>>;

    closed spec fn view(&self) -> Set<Seq<char>> {
        self.emails@
    }
}

impl SeenEmails {
    /// No email seen yet.
    pub fn new() -> (seen: Self)
        ensures
            seen@ == Set::<Seq<char>>::empty(),
    {
        SeenEmails { emails: StringHashSet::new() }
    }

    /// Whether `email` has produced an event.
    pub fn contains(&self, email: &str) -> (found: bool)
        ensures
            found == self@.contains(email@),
    {
        self.emails.contains(email)
    }

    /// Records that `email` has produced an event.
    pub fn insert(&mut self, email: String)
        ensures
            final(self)@ == old(self)@.insert(email@),
    {
        self.emails.insert(email);
    }
}

} // verus!
