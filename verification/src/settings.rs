//! The settings document, as far as the shell reads it.
//!
//! The document maps keys to values like those of JSON and outlives the
//! process. The shell reads one entry of it, the initialization flag, once
//! for each decision about its windows. The flag is the entry of the key
//! `is_initialized`, either of the document itself or of its section
//! `setup`.

use vstd::prelude::*;

verus! {

/// A value of the settings document, by kind. Only a boolean says anything
/// to the shell, and a section leads to further entries; of the other
/// kinds a value keeps what tells them apart.
#[derive(Debug, PartialEq, Eq)]
pub enum SettingValue {
    Null,
    Bool(bool),
    Number,
    Text(String),
    List,
    /// Keys with their values, in the order of the document.
    Section(Vec<(String, SettingValue)>),
}

/// Whether the entry found under the initialization key says that the first
/// run is over. A missing entry says no, and so does every value but `true`.
pub open spec fn flag_is_set(stored: Option<&SettingValue>) -> bool {
    stored == Some(&SettingValue::Bool(true))
}

/// Whether `at` is the place of the first entry of `entries` with the key
/// `key`.
pub open spec fn first_with_key(entries: Seq<(String, SettingValue)>, key: Seq<char>, at: int) -> bool {
    &&& 0 <= at < entries.len()
    &&& entries[at].0@ == key
    &&& forall|j: int| 0 <= j < at ==> (#[trigger] entries[j]).0@ != key
}

/// The file that holds the settings document.
pub fn store_file() -> (name: &'static str)
    ensures
        name@ == "store.json"@,
{
    "store.json"
}

/// The key of the initialization flag.
pub fn flag_key() -> (key: &'static str)
    ensures
        key@ == "is_initialized"@,
{
    "is_initialized"
}

/// The key of the section that holds the flag where the document is laid
/// out in sections.
pub fn flag_section() -> (key: &'static str)
    ensures
        key@ == "setup"@,
{
    "setup"
}

impl SettingValue {
    /// The entries of a section; a value of another kind has none.
    pub open spec fn entries(self) -> Seq<(String, SettingValue)> {
        match self {
            SettingValue::Section(entries) => entries@,
            _ => Seq::empty(),
        }
    }

    /// The value that a section holds under `key`: that of the first entry
    /// with this key. `None` where the section has no such entry, and for
    /// every value that is no section.
    pub fn entry(&self, key: &str) -> (found: Option<&SettingValue>)
        ensures
            match found {
                Some(value) => exists|at: int|
                    #[trigger] first_with_key(self.entries(), key@, at) && *value
                        == self.entries()[at].1,
                None => forall|at: int|
                    0 <= at < self.entries().len() ==> (#[trigger] self.entries()[at]).0@ != key@,
            },
    {
        match self {
            SettingValue::Section(entries) => {
                let wanted = key.to_owned();
                let mut i: usize = 0;
                while i < entries.len()
                    invariant
                        i <= entries.len(),
                        wanted@ == key@,
                        self.entries() == entries@,
                        forall|j: int| 0 <= j < i ==> (#[trigger] entries@[j]).0@ != key@,
                    decreases entries.len() - i,
                {
                    if entries[i].0 == wanted {
                        assert(first_with_key(self.entries(), key@, i as int));
                        return Some(&entries[i].1);
                    }
                    i += 1;
                }
                None
            },
            _ => None,
        }
    }
}

/// Whether the entry found under the initialization key says that the first
/// run is over. `None` stands for a document without the entry.
pub fn is_initialized(stored: Option<&SettingValue>) -> (set: bool)
    ensures
        set == flag_is_set(stored),
{
    match stored {
        Some(SettingValue::Bool(flag)) => *flag,
        _ => false,
    }
}

} // verus!
