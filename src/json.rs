use vstd::prelude::*;

verus! {

#[verifier::external_type_specification]
#[verifier::external_body]
pub struct ExJsonError(serde_json::Error);

/// The compact JSON text serde_json writes for a `Result<String, String>`
/// holding `message`, in its `Ok` variant when `is_ok`.
pub uninterp spec fn json_of_reply(is_ok: bool, message: Seq<char>) -> Seq<char>;

/// The pretty-printed JSON text serde_json writes for an object whose key
/// `key1` holds the string `text` and whose key `key2` holds the array of
/// strings `items`.
pub uninterp spec fn json_of_object(
    key1: Seq<char>,
    text: Seq<char>,
    key2: Seq<char>,
    items: Seq<Seq<char>>,
) -> Seq<char>;

pub open spec fn reply_message(reply: Result<String, String>) -> Seq<char> {
    match reply {
        Ok(m) => m@,
        Err(m) => m@,
    }
}

/// Relies on serde_json::to_string: the JSON text of a reply, a function of
/// the reply alone. It does not fail: a `Result` of strings serialises as one
/// tagged string variant, and writing into memory cannot fail.
#[verifier::external_body]
pub(crate) fn reply_to_json(reply: &Result<String, String>) -> (r: Result<String, serde_json::Error>)
    ensures
        r is Ok,
        r matches Ok(text) ==> text@ == json_of_reply(reply is Ok, reply_message(*reply)),
{
    serde_json::to_string(reply)
}

/// Relies on serde_json::to_string_pretty: the pretty JSON text of a
/// two-key object, a function of the keys and values alone. The arguments
/// are only converted into serde_json's value type. It does not fail: the
/// value holds only strings under string keys, and writing into memory
/// cannot fail.
#[verifier::external_body]
pub(crate) fn object_to_pretty_json(
    key1: &str,
    text: &str,
    key2: &str,
    items: &Vec<String>,
) -> (r: Result<String, serde_json::Error>)
    ensures
        r is Ok,
        r matches Ok(doc) ==> doc@ == json_of_object(key1@, text@, key2@, items.deep_view()),
{
    let mut object = serde_json::Map::new();
    object.insert(key1.to_string(), serde_json::Value::from(text));
    object.insert(key2.to_string(), serde_json::Value::from(items.clone()));
    serde_json::to_string_pretty(&serde_json::Value::Object(object))
}

} // verus!
