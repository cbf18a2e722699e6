//! The collections that drawings share with the file codec.

use crate::records::table_key;
use crate::search::pick;
use crate::text::alike;
use vstd::prelude::*;

verus! {

/// A dictionary of named objects.
#[verifier::external_type_specification]
#[verifier::external_body]
pub struct ExDictionary(acadrust::objects::Dictionary);

/// The entries of a dictionary, each a key and a handle, in the order in which
/// they were added.
pub uninterp spec fn dictionary_entries(dictionary: acadrust::objects::Dictionary) -> Seq<
    (Seq<char>, u64),
>;

/// The entry has the key, up to the case of ASCII letters.
pub open spec fn entry_for(key: Seq<char>) -> spec_fn((Seq<char>, u64)) -> bool {
    |entry: (Seq<char>, u64)| alike(entry.0, key)
}

/// The handle that a dictionary holds under a key: that of the first entry whose
/// key is the same up to the case of ASCII letters.
pub open spec fn dictionary_value(entries: Seq<(Seq<char>, u64)>, key: Seq<char>) -> Option<u64> {
    match pick(entries, entry_for(key)) {
        Some(entry) => Some(entry.1),
        None => None,
    }
}

/// `acadrust::objects::Dictionary::new`: a dictionary without entries.
#[verifier::external_body]
pub(crate) fn new_dictionary() -> (result: acadrust::objects::Dictionary)
    ensures
        dictionary_entries(result) == Seq::<(Seq<char>, u64)>::empty(),
{
    acadrust::objects::Dictionary::new()
}

/// `acadrust::objects::Dictionary::get`: the handle of the first entry whose key
/// matches up to the case of ASCII letters.
#[verifier::external_body]
pub(crate) fn dictionary_get(dictionary: &acadrust::objects::Dictionary, key: &str) -> (result:
    Option<u64>)
    ensures
        result == dictionary_value(dictionary_entries(*dictionary), key@),
{
    dictionary.get(key).map(|handle| handle.value())
}

/// `acadrust::objects::Dictionary::add_entry`: the entry comes last, whatever
/// keys are there.
#[verifier::external_body]
pub(crate) fn dictionary_add(
    dictionary: &mut acadrust::objects::Dictionary,
    key: &str,
    handle: u64,
)
    ensures
        dictionary_entries(*final(dictionary)) == dictionary_entries(*old(dictionary)).push(
            (key@, handle),
        ),
{
    dictionary.add_entry(key, acadrust::types::Handle::new(handle))
}

/// `acadrust::objects::Dictionary::len`: the number of entries.
#[verifier::external_body]
pub(crate) fn dictionary_len(dictionary: &acadrust::objects::Dictionary) -> (result: usize)
    ensures
        result == dictionary_entries(*dictionary).len(),
{
    dictionary.len()
}

/// `acadrust::objects::Dictionary::clone`: a dictionary with the same entries.
#[verifier::external_body]
pub(crate) fn dictionary_copy(dictionary: &acadrust::objects::Dictionary) -> (result:
    acadrust::objects::Dictionary)
    ensures
        dictionary_entries(result) == dictionary_entries(*dictionary),
{
    dictionary.clone()
}

/// The table of the applications that attach extended data.
#[verifier::external_body]
pub struct AppIdTable {
    inner: acadrust::tables::Table<acadrust::tables::AppId>,
}

/// The handle of each registered application, by the key of its name.
pub uninterp spec fn app_ids(table: AppIdTable) -> Map<Seq<char>, u64>;

/// No application at all.
pub open spec fn no_ids() -> Map<Seq<char>, u64> {
    Map::empty()
}

/// The handle under which an application is registered.
pub open spec fn app_id(ids: Map<Seq<char>, u64>, name: Seq<char>) -> Option<u64> {
    if ids.contains_key(table_key(name)) {
        Some(ids[table_key(name)])
    } else {
        None
    }
}

impl AppIdTable {
    /// `acadrust::tables::Table::new`: a table without entries.
    #[verifier::external_body]
    pub(crate) fn new() -> (result: AppIdTable)
        ensures
            app_ids(result) == no_ids(),
    {
        AppIdTable { inner: acadrust::tables::Table::new() }
    }

    /// `acadrust::tables::Table::get`: the entry under the normalized name.
    #[verifier::external_body]
    pub(crate) fn find(&self, name: &str) -> (result: Option<u64>)
        ensures
            result == app_id(app_ids(*self), name@),
    {
        self.inner.get(name).map(|entry| entry.handle.value())
    }

    /// `acadrust::tables::Table::add`: a name whose key is free gets an entry; a
    /// table that has the key stays as it is.
    #[verifier::external_body]
    pub(crate) fn register(&mut self, name: &str, handle: u64)
        ensures
            app_ids(*final(self)) == (if app_ids(*old(self)).contains_key(table_key(name@)) {
                app_ids(*old(self))
            } else {
                app_ids(*old(self)).insert(table_key(name@), handle)
            }),
    {
        let mut entry = acadrust::tables::AppId::new(name);
        entry.handle = acadrust::types::Handle::new(handle);
        let _ = self.inner.add(entry);
    }

    /// `acadrust::tables::Table::clone`: a table with the same entries.
    #[verifier::external_body]
    pub(crate) fn copy(&self) -> (result: AppIdTable)
        ensures
            app_ids(result) == app_ids(*self),
    {
        AppIdTable { inner: self.inner.clone() }
    }
}

} // verus!
