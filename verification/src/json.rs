//! JSON documents, held as their text and read through `serde_json`.

use crate::text::{opt_view, same, texts_view};
use vstd::prelude::*;

verus! {

/// The string at a JSON pointer of a document; `None` where the text is not
/// JSON, the pointer leads nowhere, or what stands there is no string.
pub uninterp spec fn json_str(doc: Seq<char>, pointer: Seq<char>) -> Option<Seq<char>>;

/// `serde_json::Value::pointer` and `as_str` on the parsed text.
#[verifier::external_body]
pub(crate) fn json_str_at(doc: &str, pointer: &str) -> (r: Option<String>)
    ensures
        opt_view(r) == json_str(doc@, pointer@),
{
    let value: serde_json::Value = serde_json::from_str(doc).ok()?;
    value.pointer(pointer).and_then(|v| v.as_str()).map(str::to_string)
}

/// The elements of the array at a JSON pointer, each as its string or `None`;
/// `None` where no array stands there.
pub uninterp spec fn json_array(doc: Seq<char>, pointer: Seq<char>) -> Option<
    Seq<Option<Seq<char>>>,
>;

/// The texts of an optional list of optional texts.
pub open spec fn array_view(a: Option<Vec<Option<String>>>) -> Option<Seq<Option<Seq<char>>>> {
    match a {
        Some(v) => Some(v@.map_values(|o: Option<String>| opt_view(o))),
        None => None,
    }
}

/// `serde_json::Value::pointer` and `as_array` on the parsed text, each element
/// by `as_str`.
#[verifier::external_body]
pub(crate) fn json_array_at(doc: &str, pointer: &str) -> (r: Option<Vec<Option<String>>>)
    ensures
        array_view(r) == json_array(doc@, pointer@),
{
    let value: serde_json::Value = serde_json::from_str(doc).ok()?;
    let items = value.pointer(pointer)?.as_array()?;
    Some(items.iter().map(|v| v.as_str().map(str::to_string)).collect())
}

/// The elements of the array at a JSON pointer, each as the compact text of its
/// JSON; `None` where no array stands there.
pub uninterp spec fn json_items(doc: Seq<char>, pointer: Seq<char>) -> Option<Seq<Seq<char>>>;

/// The texts of an optional list.
pub open spec fn items_view(a: Option<Vec<String>>) -> Option<Seq<Seq<char>>> {
    match a {
        Some(v) => Some(texts_view(v@)),
        None => None,
    }
}

/// `serde_json::Value::pointer` and `as_array` on the parsed text, each element
/// by the `Display` of `Value`.
#[verifier::external_body]
pub(crate) fn json_items_at(doc: &str, pointer: &str) -> (r: Option<Vec<String>>)
    ensures
        items_view(r) == json_items(doc@, pointer@),
{
    let value: serde_json::Value = serde_json::from_str(doc).ok()?;
    let items = value.pointer(pointer)?.as_array()?;
    Some(items.iter().map(|v| v.to_string()).collect())
}

/// A document as `serde_json::to_string_pretty` prints it; `None` where the
/// text is not JSON.
pub uninterp spec fn json_pretty(doc: Seq<char>) -> Option<Seq<char>>;

/// `serde_json::to_string_pretty` on the parsed text.
#[verifier::external_body]
pub(crate) fn json_pretty_of(doc: &str) -> (r: Option<String>)
    ensures
        opt_view(r) == json_pretty(doc@),
{
    let value: serde_json::Value = serde_json::from_str(doc).ok()?;
    serde_json::to_string_pretty(&value).ok()
}

/// A document as `serde_json::to_string` prints it; `None` where the text is
/// not JSON.
pub uninterp spec fn json_compact(doc: Seq<char>) -> Option<Seq<char>>;

/// `serde_json::to_string` on the parsed text.
#[verifier::external_body]
pub(crate) fn json_compact_of(doc: &str) -> (r: Option<String>)
    ensures
        opt_view(r) == json_compact(doc@),
{
    let value: serde_json::Value = serde_json::from_str(doc).ok()?;
    serde_json::to_string(&value).ok()
}

/// What `serde_json` finds wrong with a text; `None` where it is JSON.
pub uninterp spec fn json_fault(doc: Seq<char>) -> Option<Seq<char>>;

/// `serde_json::from_str` on the text: the display form of its error.
#[verifier::external_body]
pub(crate) fn json_error_of(doc: &str) -> (r: Option<String>)
    ensures
        opt_view(r) == json_fault(doc@),
{
    serde_json::from_str::<serde_json::Value>(doc).err().map(|e| e.to_string())
}

/// Whether the array holds this string.
pub open spec fn array_has(items: Seq<Option<Seq<char>>>, tag: Seq<char>) -> bool {
    exists|i: int| 0 <= i < items.len() && #[trigger] items[i] == Some(tag)
}

/// Whether the list holds this string.
pub fn list_has(items: &Vec<Option<String>>, tag: &str) -> (r: bool)
    ensures
        r == array_has(items@.map_values(|o: Option<String>| opt_view(o)), tag@),
{
    let ghost view = items@.map_values(|o: Option<String>| opt_view(o));
    let mut i: usize = 0;
    while i < items.len()
        invariant
            i <= items.len(),
            view == items@.map_values(|o: Option<String>| opt_view(o)),
            forall|j: int| 0 <= j < i ==> #[trigger] view[j] != Some(tag@),
        decreases items.len() - i,
    {
        assert(view[i as int] == opt_view(items@[i as int]));
        match &items[i] {
            Some(s) => {
                if same(s.as_str(), tag) {
                    return true;
                }
            },
            None => {},
        }
        i = i + 1;
    }
    false
}

/// Whether a document is an invitation credential: its `type` array carries the
/// `InvitationCredential` tag.
pub open spec fn is_invitation(doc: Seq<char>) -> bool {
    match json_array(doc, "/type"@) {
        Some(items) => array_has(items, "InvitationCredential"@),
        None => false,
    }
}

/// Whether a list of `type` tags carries the `InvitationCredential` tag.
pub fn has_invitation_tag(types: &Option<Vec<Option<String>>>) -> (r: bool)
    ensures
        r == match array_view(*types) {
            Some(items) => array_has(items, "InvitationCredential"@),
            None => false,
        },
{
    match types {
        Some(items) => list_has(items, "InvitationCredential"),
        None => false,
    }
}

/// Whether a pasted or loaded JSON text is an invitation credential.
pub fn is_invitation_credential(doc: &str) -> (r: bool)
    ensures
        r == is_invitation(doc@),
{
    has_invitation_tag(&json_array_at(doc, "/type"))
}

} // verus!
