use crate::service::MACHINE_ID_KEY;
use vstd::prelude::*;

verus! {

#[verifier::external_type_specification]
#[verifier::external_body]
pub struct ExJsonValue(serde_json::Value);

#[verifier::external_type_specification]
#[verifier::external_body]
pub struct ExJsonError(serde_json::Error);

/// Whether serde_json reads `text` as a `Value`: one JSON document, nested
/// no deeper than its recursion limit. It depends on the text alone.
pub uninterp spec fn json_parse_succeeds(text: Seq<char>) -> bool;

/// serde_json's compact text of the document in `text` after the member
/// `key` of its top-level object, when that member exists, is set to the
/// JSON string `value`; a document without such a member is written back
/// with no member added. It depends on the arguments alone.
pub uninterp spec fn json_with_member_set(text: Seq<char>, key: Seq<char>, value: Seq<char>) -> Seq<char>;

/// Relies on `serde_json::from_str::<Value>` (fails exactly when the text
/// does not parse), `Value::get_mut` (finds a member only in an object) and
/// `serde_json::to_string` (fails only for a failing `Serialize` impl or a
/// map with non-string keys, neither of which a `Value` has).
#[verifier::external_body]
fn set_member_if_present(text: &str, key: &str, value: &str) -> (r: Result<String, serde_json::Error>)
    ensures
        r is Ok <==> json_parse_succeeds(text@),
        r is Ok ==> r->Ok_0@ == json_with_member_set(text@, key@, value@),
{
    let mut doc: serde_json::Value = serde_json::from_str(text)?;
    if let Some(slot) = doc.get_mut(key) {
        *slot = serde_json::Value::from(value);
    }
    serde_json::to_string(&doc)
}

/// Relies on `serde_json::Value::get`: the member `key` of an object, `None`
/// for a missing key or a value that is not an object.
#[verifier::external_body]
fn member<'a>(v: &'a serde_json::Value, key: &str) -> (r: Option<&'a serde_json::Value>) {
    v.get(key)
}

/// Relies on `serde_json::Value::as_str`: the text of a JSON string, `None`
/// for any other value.
#[verifier::external_body]
fn string_text(v: &serde_json::Value) -> (r: Option<String>) {
    v.as_str().map(|s| s.to_string())
}

/// Why the editor's storage file could not be rewritten.
#[derive(Clone, Copy, Debug, PartialEq, Eq, Structural)]
pub enum StorageError {
    /// The file does not hold JSON.
    Parse,
}

/// The editor's storage file with its machine id set to `machine_id`: the
/// machine id member is replaced when the document has one, and the rest of
/// the document is kept. Text that is not JSON is refused.
pub fn rewrite_machine_id(storage: &str, machine_id: &str) -> (r: Result<String, StorageError>)
    ensures
        !json_parse_succeeds(storage@) ==> r == Err::<String, StorageError>(StorageError::Parse),
        json_parse_succeeds(storage@) ==> r is Ok && r->Ok_0@ == json_with_member_set(
            storage@,
            MACHINE_ID_KEY@,
            machine_id@,
        ),
{
    match set_member_if_present(storage, MACHINE_ID_KEY, machine_id) {
        Ok(text) => Ok(text),
        Err(_) => Err(StorageError::Parse),
    }
}

/// The invitation code in the promotion endpoint's answer: the string at
/// `promotion.code`, empty when that member is not a string, and `None` when
/// it is missing.
pub fn invitation_code(answer: &serde_json::Value) -> Option<String> {
    match member(answer, "promotion") {
        None => None,
        Some(p) => match member(p, "code") {
            None => None,
            Some(code) => match string_text(code) {
                Some(t) => Some(t),
                None => Some(String::new()),
            },
        },
    }
}

} // verus!
