//! The parameters of an action, and how they are read from a JSON document.
//!
//! Reading JSON is left to `serde_json`. What it returns is not proved here:
//! each of its results has a name, and the contracts of this module say how
//! the parameters are put together from those named results. A number comes
//! back as a double and is cut to a 32-bit integer here.

use crate::number::{truncate, truncated};
use vstd::prelude::*;

verus! {

/// `serde_json::Value`: a JSON document or a part of one. It is carried
/// through as it is; nothing inside it is read here.
#[verifier::external_type_specification]
#[verifier::external_body]
pub struct ExValue(serde_json::Value);

/// `serde_json::Error`: why a text is not JSON. It is carried through as it
/// is; only its text is asked for.
#[verifier::external_type_specification]
#[verifier::external_body]
pub struct ExJsonError(serde_json::Error);

/// What `serde_json::from_str` makes of a text: the document it denotes, or the
/// error that says why it is not JSON.
pub uninterp spec fn parsed(text: Seq<char>) -> Result<serde_json::Value, serde_json::Error>;

/// What `serde_json::Value::get` finds in a document under a key: the member of
/// that name where the document is an object that has one.
pub uninterp spec fn member(doc: serde_json::Value, key: Seq<char>) -> Option<serde_json::Value>;

/// The double that a JSON value holds, as `serde_json::Value::as_f64` reads it,
/// given by its 64 bits.
pub uninterp spec fn double_of(value: serde_json::Value) -> Option<u64>;

/// The flag that a JSON value holds, as `serde_json::Value::as_bool` reads it.
pub uninterp spec fn flag_of(value: serde_json::Value) -> Option<bool>;

/// The text that a `serde_json::Error` displays.
pub uninterp spec fn error_text(error: serde_json::Error) -> Seq<char>;

/// Calls `serde_json::from_str` for a `serde_json::Value`. Trusted: the result
/// depends on the text alone, so it is the named result `parsed`.
#[verifier::external_body]
fn parse_document(text: &str) -> (doc: Result<serde_json::Value, serde_json::Error>)
    ensures
        doc == parsed(text@),
{
    serde_json::from_str::<serde_json::Value>(text)
}

/// Calls `serde_json::Value::get` with a string key. Trusted: the member found,
/// if any, is the named result `member`.
#[verifier::external_body]
fn document_member<'a>(doc: &'a serde_json::Value, key: &str) -> (found: Option<&'a serde_json::Value>)
    ensures
        match found {
            Some(value) => member(*doc, key@) == Some(*value),
            None => member(*doc, key@) is None,
        },
{
    doc.get(key)
}

/// Calls `serde_json::Value::as_f64` and hands back the bits of the double,
/// unchanged. Trusted: the result is the named result `double_of`.
#[verifier::external_body]
fn value_double(value: &serde_json::Value) -> (bits: Option<u64>)
    ensures
        bits == double_of(*value),
{
    value.as_f64().map(|x| x.to_bits())
}

/// Trusted: what `serde_json::Value::as_bool` returns is the named result
/// `flag_of`.
pub assume_specification[ serde_json::Value::as_bool ](value: &serde_json::Value) -> (held: Option<
    bool,
>)
    ensures
        held == flag_of(*value),
;

/// Calls `to_string` on a `serde_json::Error`. Trusted: the text is the named
/// result `error_text`.
#[verifier::external_body]
fn describe_error(error: &serde_json::Error) -> (text: String)
    ensures
        text@ == error_text(*error),
{
    error.to_string()
}

/// The parameters that the actions read. Each is `None` where the caller's
/// document does not give it.
#[derive(Clone, Copy, Debug, PartialEq, Eq)]
pub struct ActionParams {
    /// `amount`: by how much to change the counter.
    pub amount: Option<i32>,
    /// `count`: the counter's current value.
    pub count: Option<i32>,
    /// `showCounter`: whether the counter block is shown.
    pub show_counter: Option<bool>,
    /// `showStats`: whether the stats block is shown.
    pub show_stats: Option<bool>,
}

/// Why a parameter document could not be read.
#[derive(Clone, Debug)]
pub struct ParamsError {
    /// What went wrong, for a person to read.
    pub message: String,
}

impl View for ParamsError {
    type V = Seq<char>;

    open spec fn view(&self) -> Seq<char> {
        self.message@
    }
}

/// The 32-bit integer that a JSON value holds, if it is a number: the number
/// without its fraction, kept within the 32-bit range.
pub open spec fn number_of(value: serde_json::Value) -> Option<i32> {
    match double_of(value) {
        Some(bits) => Some(truncated(bits) as i32),
        None => None,
    }
}

/// The number under a key of a document, if the document has a number there.
pub open spec fn number_member(doc: serde_json::Value, key: Seq<char>) -> Option<i32> {
    match member(doc, key) {
        Some(value) => number_of(value),
        None => None,
    }
}

/// The flag under a key of a document, if the document has a flag there.
pub open spec fn flag_member(doc: serde_json::Value, key: Seq<char>) -> Option<bool> {
    match member(doc, key) {
        Some(value) => flag_of(value),
        None => None,
    }
}

/// The parameters that a document gives.
pub open spec fn params_of(doc: serde_json::Value) -> ActionParams {
    ActionParams {
        amount: number_member(doc, "amount"@),
        count: number_member(doc, "count"@),
        show_counter: flag_member(doc, "showCounter"@),
        show_stats: flag_member(doc, "showStats"@),
    }
}

/// The message of the error for a text that is not JSON.
pub open spec fn parse_failure(error: serde_json::Error) -> Seq<char> {
    "Failed to parse params: "@ + error_text(error)
}

fn read_number(doc: &serde_json::Value, key: &str) -> (number: Option<i32>)
    ensures
        number == number_member(*doc, key@),
{
    match document_member(doc, key) {
        Some(value) => match value_double(value) {
            Some(bits) => Some(truncate(bits)),
            None => None,
        },
        None => None,
    }
}

fn read_flag(doc: &serde_json::Value, key: &str) -> (held: Option<bool>)
    ensures
        held == flag_member(*doc, key@),
{
    match document_member(doc, key) {
        Some(value) => value.as_bool(),
        None => None,
    }
}

/// Reads the parameters of an action from a JSON text.
///
/// A text that is not JSON is an error. Any JSON document is accepted: a
/// parameter that it does not give, or gives with another type, is `None`.
pub fn decode_params(text: &str) -> (decoded: Result<ActionParams, ParamsError>)
    ensures
        match parsed(text@) {
            Ok(doc) => decoded == Ok::<ActionParams, ParamsError>(params_of(doc)),
            Err(error) => decoded is Err && decoded->Err_0@ == parse_failure(error),
        },
{
    match parse_document(text) {
        Ok(doc) => Ok(
            ActionParams {
                amount: read_number(&doc, "amount"),
                count: read_number(&doc, "count"),
                show_counter: read_flag(&doc, "showCounter"),
                show_stats: read_flag(&doc, "showStats"),
            },
        ),
        Err(error) => {
            let mut message = String::from_str("Failed to parse params: ");
            let detail = describe_error(&error);
            message.append(detail.as_str());
            Err(ParamsError { message })
        },
    }
}

} // verus!
