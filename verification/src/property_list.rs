//! Property lists, as the `plist` crate holds and writes them.

use vstd::prelude::*;

use crate::text;

verus! {

/// Stands for `plist::Dictionary`. What one holds is [`dictionary_entries`].
#[verifier::external_type_specification]
#[verifier::external_body]
pub struct ExDictionary(plist::Dictionary);

/// The values that are put into a dictionary here.
#[derive(Debug)]
pub enum PlistValue {
    Text(String),
    Texts(Vec<String>),
    Flag(bool),
}

/// What a value of a dictionary is. `Other` stands for whatever is neither a string, nor an array
/// of strings, nor a boolean.
pub enum PlistItem {
    Text(Seq<char>),
    Texts(Seq<Seq<char>>),
    Flag(bool),
    Other,
}

impl PlistValue {
    /// What the value is in a dictionary.
    pub open spec fn item(self) -> PlistItem {
        match self {
            PlistValue::Text(s) => PlistItem::Text(s@),
            PlistValue::Texts(v) => PlistItem::Texts(text::texts(v@)),
            PlistValue::Flag(b) => PlistItem::Flag(b),
        }
    }
}

/// The keys and values of a dictionary, in its order.
pub uninterp spec fn dictionary_entries(dict: plist::Dictionary) -> Seq<(Seq<char>, PlistItem)>;

/// The bytes that [`to_xml`] makes of a dictionary with these entries.
pub uninterp spec fn xml_of(entries: Seq<(Seq<char>, PlistItem)>) -> Seq<u8>;

/// Whether every value is a string, an array of strings or a boolean.
pub open spec fn plain(entries: Seq<(Seq<char>, PlistItem)>) -> bool {
    forall|i: int| 0 <= i < entries.len() ==> (#[trigger] entries[i]).1 !is Other
}

/// Whether an entry has the key.
pub open spec fn has_key(entries: Seq<(Seq<char>, PlistItem)>, key: Seq<char>) -> bool {
    exists|i: int| 0 <= i < entries.len() && (#[trigger] entries[i]).0 == key
}

/// `plist::Dictionary::new` makes a dictionary without entries.
pub assume_specification[ plist::Dictionary::new ]() -> (dict: plist::Dictionary)
    ensures
        dictionary_entries(dict) == Seq::<(Seq<char>, PlistItem)>::empty(),
;

/// `plist::Dictionary::insert`: a new key goes behind the others, a present one keeps its place
/// and gets the new value.
#[verifier::external_body]
pub(crate) fn insert(dict: &mut plist::Dictionary, key: &str, value: PlistValue)
    ensures
        !has_key(dictionary_entries(*old(dict)), key@) ==> dictionary_entries(*final(dict))
            == dictionary_entries(*old(dict)).push((key@, value.item())),
        forall|i: int|
            0 <= i < dictionary_entries(*old(dict)).len() && (#[trigger] dictionary_entries(
                *old(dict),
            )[i]).0 == key@ ==> dictionary_entries(*final(dict)) == dictionary_entries(
                *old(dict),
            ).update(i, (key@, value.item())),
{
    let value = match value {
        PlistValue::Text(s) => plist::Value::String(s),
        PlistValue::Texts(v) => {
            plist::Value::Array(v.into_iter().map(plist::Value::String).collect())
        },
        PlistValue::Flag(b) => plist::Value::Boolean(b),
    };
    dict.insert(key.to_string(), value);
}

/// `plist::to_writer_xml` on a vector of bytes: where the entries are strings, arrays of strings
/// and booleans it succeeds, and what it writes depends on them alone.
#[verifier::external_body]
pub(crate) fn to_xml(dict: plist::Dictionary) -> (r: Result<Vec<u8>, plist::Error>)
    requires
        plain(dictionary_entries(dict)),
    ensures
        r is Ok,
        r->Ok_0@ == xml_of(dictionary_entries(dict)),
{
    let mut bytes: Vec<u8> = Vec::new();
    plist::to_writer_xml(&mut bytes, &plist::Value::Dictionary(dict)).map(|()| bytes)
}

/// What `plist` says where the writer that it writes to fails: `debug` is the debug form of the
/// writer's error.
pub open spec fn write_failure(debug: Seq<char>) -> Seq<char> {
    "Io("@ + debug + ")"@
}

/// Says what `plist` says where the writer that it writes to fails.
pub fn write_failure_message(debug: &str) -> (message: String)
    ensures
        message@ == write_failure(debug@),
{
    "Io(".to_owned().concat(debug).concat(")")
}

} // verus!
