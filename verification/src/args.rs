//! Argument lists as JSON text, the form in which the database holds them.

use vstd::prelude::*;

use crate::text::texts;

verus! {

/// What `serde_json::to_string` writes for a list of strings.
pub uninterp spec fn json_of_texts(list: Seq<Seq<char>>) -> Seq<char>;

/// What `serde_json::from_str` reads from a text as a list of strings, or the words of
/// the error that it reports.
pub uninterp spec fn texts_of_json(text: Seq<char>) -> Result<Seq<Seq<char>>, Seq<char>>;

/// The error of `serde_json`.
#[verifier::external_type_specification]
#[verifier::external_body]
pub struct ExJsonError(serde_json::Error);

/// `serde_json::to_string` on a list of strings. It fails only on values whose
/// own serialization fails and on maps, so never on this type. The text is a
/// function of the list, and `serde_json::from_str` reads the list back from it.
#[verifier::external_body]
fn strings_to_json(list: &Vec<String>) -> (r: Result<String, serde_json::Error>)
    ensures
        match r {
            Ok(text) => text@ == json_of_texts(texts(list@)) && texts_of_json(text@) == Ok::<
                _,
                Seq<char>,
            >(texts(list@)),
            Err(_) => false,
        },
{
    serde_json::to_string(list)
}

/// `serde_json::from_str` as a list of strings, an error taken as its words: the
/// result is a function of the text.
#[verifier::external_body]
fn strings_from_json(text: &str) -> (r: Result<Vec<String>, String>)
    ensures
        match r {
            Ok(list) => texts_of_json(text@) == Ok::<_, Seq<char>>(texts(list@)),
            Err(reason) => texts_of_json(text@) == Err::<Seq<Seq<char>>, _>(reason@),
        },
{
    match serde_json::from_str(text) {
        Ok(list) => Ok(list),
        Err(e) => Err(e.to_string()),
    }
}

/// The JSON text of an argument list, from which the list can be read back.
pub fn encode_args(list: &Vec<String>) -> (r: String)
    ensures
        r@ == json_of_texts(texts(list@)),
        (texts_of_json(r@) == Ok::<_, Seq<char>>(texts(list@))),
{
    strings_to_json(list).unwrap()
}

/// The argument list that a JSON text holds, or why it holds none.
pub fn decode_args(text: &str) -> (r: Result<Vec<String>, String>)
    ensures
        match r {
            Ok(list) => texts_of_json(text@) == Ok::<_, Seq<char>>(texts(list@)),
            Err(reason) => texts_of_json(text@) == Err::<Seq<Seq<char>>, _>(reason@),
        },
{
    strings_from_json(text)
}

} // verus!
