//! The identifier resolver: an exact-match lookup in a table of templates
//! that is built at compile time and handed in by the caller.

use crate::error::Error;
use crate::template::{text_of, EntryView, TemplateEntry};
use vstd::prelude::*;

verus! {

/// `phf::Map`, the immutable map that the template table is an instance of.
#[verifier::external_type_specification]
#[verifier::external_body]
#[verifier::reject_recursive_types(K)]
#[verifier::reject_recursive_types(V)]
pub struct ExMap<K: 'static, V: 'static>(phf::Map<K, V>);

/// The table of templates: for each identifier the repository's location,
/// the branch and the subdirectory.
pub type TemplateTable = phf::Map<
    &'static str,
    (&'static str, Option<&'static str>, Option<&'static str>),
>;

/// What a table maps: the identifiers that a lookup finds, each with the
/// entry that the lookup returns for it.
pub uninterp spec fn table_entries(table: TemplateTable) -> Map<
    Seq<char>,
    (Seq<char>, Option<Seq<char>>, Option<Seq<char>>),
>;

/// The number of entries that a table stores.
pub uninterp spec fn table_len(table: TemplateTable) -> nat;

/// The template entry that a table's value stands for.
pub open spec fn entry_of(raw: (Seq<char>, Option<Seq<char>>, Option<Seq<char>>)) -> EntryView {
    EntryView { location: raw.0, branch: raw.1, subdirectory: raw.2 }
}

/// `phf::Map::len`: the number of entries that the table stores. A lookup
/// returns nothing but a stored entry, so a table that stores none finds
/// none.
#[verifier::external_body]
fn entry_count(table: &TemplateTable) -> (count: usize)
    ensures
        count == table_len(*table),
        count == 0 ==> forall|key: Seq<char>| !table_entries(*table).contains_key(key),
{
    table.len()
}

/// `phf::Map::get`, with the entry copied out. The lookup hashes the key,
/// goes to the one slot that the hash selects and compares the key stored
/// there with the one asked for: it finds a key only if the table holds that
/// very key, and returns the value stored with it. `table_entries` is the
/// map that these lookups realise. For a table built by the crate's macro or
/// generator it holds every key that the table was built with. The slot is
/// taken modulo the number of entries, so a table without entries is not to
/// be probed.
#[verifier::external_body]
fn lookup(table: &TemplateTable, key: &str) -> (found: Option<
    (String, Option<String>, Option<String>),
>)
    requires
        table_len(*table) > 0,
    ensures
        match found {
            Some((location, branch, subdirectory)) => table_entries(*table).contains_key(key@)
                && table_entries(*table)[key@] == (
                location@,
                text_of(branch),
                text_of(subdirectory),
            ),
            None => !table_entries(*table).contains_key(key@),
        },
{
    match table.get(key) {
        Some(raw) => Some((String::from(raw.0), raw.1.map(String::from), raw.2.map(String::from))),
        None => None,
    }
}

/// Resolves `identifier` to its template. The match is exact, and there is
/// no fallback: an identifier that the table does not hold is an error.
pub fn resolve(table: &TemplateTable, identifier: &str) -> (resolved: Result<TemplateEntry, Error>)
    ensures
        match resolved {
            Ok(entry) => table_entries(*table).contains_key(identifier@) && entry@ == entry_of(
                table_entries(*table)[identifier@],
            ),
            Err(error) => error == Error::UnknownTemplate && !table_entries(*table).contains_key(
                identifier@,
            ),
        },
{
    if entry_count(table) == 0 {
        return Err(Error::UnknownTemplate);
    }
    match lookup(table, identifier) {
        Some((location, branch, subdirectory)) => Ok(
            TemplateEntry { location, branch, subdirectory },
        ),
        None => Err(Error::UnknownTemplate),
    }
}

} // verus!
