//! The sales fixture: a JSON document of the shape
//! `{ "sales": [ {..}, { "quantity": <number>, .. }, .. ] }`, in which the
//! quantity of the second sale is adjusted before the document is stored.
//!
//! The document is held as a `serde_json::Value`. Parsing, lookup, replacement
//! and writing are `serde_json`'s; what is looked up, when the document is
//! changed and which error a failure stands for is decided here. The
//! arithmetic on the quantity is the caller's: it is handed the number found
//! and hands back the number to store.

use vstd::prelude::*;
use serde_json::{Number, Value};
use crate::error::WorkflowError;

verus! {

/// A JSON document or a part of one. Nothing is known of its inside but
/// through the functions below.
#[verifier::external_type_specification]
#[verifier::external_body]
pub struct ExValue(serde_json::Value);

/// A JSON number.
#[verifier::external_type_specification]
#[verifier::external_body]
pub struct ExNumber(serde_json::Number);

/// Why `serde_json` could not read or write a document.
#[verifier::external_type_specification]
#[verifier::external_body]
pub struct ExJsonError(serde_json::Error);

/// The document that `serde_json::from_str` reads from a text, or `None`
/// where it rejects the text.
pub uninterp spec fn parsed(text: Seq<char>) -> Option<Value>;

/// The text that `serde_json::to_string` writes for a document, or `None`
/// where it fails.
pub uninterp spec fn written(v: Value) -> Option<Seq<char>>;

/// The member that `Value::get` finds under a text key: the value stored
/// under `key` where `v` is an object that has the key, otherwise `None`.
pub uninterp spec fn json_member(v: Value, key: Seq<char>) -> Option<Value>;

/// The element that `Value::get` finds under a position: the element at
/// `index` where `v` is an array that long, otherwise `None`.
pub uninterp spec fn json_element(v: Value, index: int) -> Option<Value>;

/// The number that `Value::as_number` finds: the number where `v` is one,
/// otherwise `None`.
pub uninterp spec fn json_number(v: Value) -> Option<Number>;

/// Calls `serde_json::from_str` for a `Value`. The contract only gives the
/// outcome its name: the same text always reads as the same document, or is
/// always rejected.
#[verifier::external_body]
fn read_value(text: &str) -> (r: Result<Value, serde_json::Error>)
    ensures
        match r {
            Ok(v) => parsed(text@) == Some(v),
            Err(_) => parsed(text@) is None,
        },
{
    serde_json::from_str::<Value>(text)
}

/// Calls `serde_json::to_string` on a `Value`. The contract only gives the
/// outcome its name.
#[verifier::external_body]
fn write_value(v: &Value) -> (r: Result<String, serde_json::Error>)
    ensures
        match r {
            Ok(s) => written(*v) == Some(s@),
            Err(_) => written(*v) is None,
        },
{
    serde_json::to_string(v)
}

/// Calls `Value::get` with a text key, which looks the key up where the value
/// is an object and finds nothing otherwise. The contract gives what is found
/// its name.
#[verifier::external_body]
fn member<'a>(v: &'a Value, key: &str) -> (r: Option<&'a Value>)
    ensures
        match r {
            Some(found) => json_member(*v, key@) == Some(*found),
            None => json_member(*v, key@) is None,
        },
{
    v.get(key)
}

/// Calls `Value::get` with a position, which takes the element there where
/// the value is an array that long and finds nothing otherwise. The contract
/// gives what is found its name.
#[verifier::external_body]
fn element<'a>(v: &'a Value, index: usize) -> (r: Option<&'a Value>)
    ensures
        match r {
            Some(found) => json_element(*v, index as int) == Some(*found),
            None => json_element(*v, index as int) is None,
        },
{
    v.get(index)
}

/// Calls `Value::as_number`, which hands out the number where the value is
/// one. The contract gives what is found its name.
#[verifier::external_body]
fn number_in<'a>(v: &'a Value) -> (r: Option<&'a Number>)
    ensures
        match r {
            Some(n) => json_number(*v) == Some(*n),
            None => json_number(*v) is None,
        },
{
    v.as_number()
}

/// What stands under `field` in the element at `index` of the array under
/// `list`, if the document has such a place.
pub open spec fn field_at(v: Value, list: Seq<char>, index: int, field: Seq<char>) -> Option<Value> {
    match json_member(v, list) {
        Some(items) => match json_element(items, index) {
            Some(item) => json_member(item, field),
            None => None,
        },
        None => None,
    }
}

/// Whether `after` is `before` but for what stands under `field` in the
/// element at `index` of the array under `list`: every other member of the
/// document, every other element of the array and every other field of the
/// element is found as before.
pub open spec fn differs_only_at(
    before: Value,
    after: Value,
    list: Seq<char>,
    index: int,
    field: Seq<char>,
) -> bool {
    &&& forall|key: Seq<char>|
        key != list ==> #[trigger] json_member(after, key) == json_member(before, key)
    &&& match (json_member(before, list), json_member(after, list)) {
        (Some(items), Some(items_after)) => {
            &&& forall|i: int|
                0 <= i <= usize::MAX && i != index ==> #[trigger] json_element(items_after, i)
                    == json_element(items, i)
            &&& match (json_element(items, index), json_element(items_after, index)) {
                (Some(item), Some(item_after)) => forall|key: Seq<char>|
                    key != field ==> #[trigger] json_member(item_after, key) == json_member(
                        item,
                        key,
                    ),
                _ => false,
            }
        },
        _ => false,
    }
}

/// Assigns a number through `Value`'s mutable index operator, once with the
/// key `list`, once with the position `index` and once with the key `field`.
/// On a place that exists, which the precondition asks for, the operator
/// hands out that place without inserting or panicking. So the place holds
/// the number afterwards, and nothing else in the document has changed.
#[verifier::external_body]
fn store_number(v: &mut Value, list: &str, index: usize, field: &str, n: Number)
    requires
        field_at(*old(v), list@, index as int, field@) is Some,
    ensures
        match field_at(*final(v), list@, index as int, field@) {
            Some(stored) => json_number(stored) == Some(n),
            None => false,
        },
        differs_only_at(*old(v), *final(v), list@, index as int, field@),
{
    v[list][index][field] = Value::Number(n);
}

/// The place that is adjusted: the quantity of the second sale.
pub open spec fn quantity_place(v: Value) -> Option<Value> {
    field_at(v, "sales"@, 1, "quantity"@)
}

/// The number that is adjusted: what stands at the quantity of the second
/// sale, where that place exists and holds a number.
pub open spec fn quantity(v: Value) -> Option<Number> {
    match quantity_place(v) {
        Some(place) => json_number(place),
        None => None,
    }
}

/// What stands under `field` in the element at `index` of the array under
/// `list`.
pub fn find_field<'a>(v: &'a Value, list: &str, index: usize, field: &str) -> (r: Option<&'a Value>)
    ensures
        match r {
            Some(found) => field_at(*v, list@, index as int, field@) == Some(*found),
            None => field_at(*v, list@, index as int, field@) is None,
        },
{
    match member(v, list) {
        Some(items) => match element(items, index) {
            Some(item) => member(item, field),
            None => None,
        },
        None => None,
    }
}

/// By how much the quantity of the second sale is raised, as decimal text:
/// one and a half.
pub fn increment() -> (text: &'static str)
    ensures
        text@ == "1.5"@,
{
    "1.5"
}

/// Reads the fixture from the contents of its file, where `None` stands for
/// a file that does not exist. A missing file is `NotFound`; a text that is
/// not JSON is `Parse`; any other text gives the document it reads as.
pub fn load_fixture(contents: Option<&str>) -> (r: Result<Value, WorkflowError>)
    ensures
        match r {
            Ok(v) => contents matches Some(text) && parsed(text@) == Some(v),
            Err(e) => match contents {
                Some(text) => e == WorkflowError::Parse && parsed(text@) is None,
                None => e == WorkflowError::NotFound,
            },
        },
{
    match contents {
        Some(text) => parse_fixture(text),
        None => Err(WorkflowError::NotFound),
    }
}

/// Reads the fixture from a text: the document where the text is JSON, and
/// `Parse` where it is not.
pub fn parse_fixture(text: &str) -> (r: Result<Value, WorkflowError>)
    ensures
        match r {
            Ok(v) => parsed(text@) == Some(v),
            Err(e) => e == WorkflowError::Parse && parsed(text@) is None,
        },
{
    match read_value(text) {
        Ok(v) => Ok(v),
        Err(_) => Err(WorkflowError::Parse),
    }
}

/// The quantity of the second sale, where the document has one and it is a
/// number; `None` where the place is absent or holds anything else.
pub fn quantity_of_second_sale<'a>(v: &'a Value) -> (r: Option<&'a Number>)
    ensures
        match r {
            Some(n) => quantity(*v) == Some(*n),
            None => quantity(*v) is None,
        },
{
    match find_field(v, "sales", 1, "quantity") {
        Some(place) => number_in(place),
        None => None,
    }
}

/// The fixture after the adjustment. `adjusted` is the new quantity of the
/// second sale, or `None` where there is nothing to adjust. A document whose
/// second sale has no numeric quantity is handed back as it came, and so is
/// any document when `adjusted` is `None`; otherwise the quantity of the
/// second sale is `adjusted` afterwards, and the rest of the document is as
/// it was.
pub fn with_quantity(v: Value, adjusted: Option<Number>) -> (r: Value)
    ensures
        adjusted is None || quantity(v) is None ==> r == v,
        adjusted is Some && quantity(v) is Some ==> {
            &&& quantity(r) == adjusted
            &&& differs_only_at(v, r, "sales"@, 1, "quantity"@)
        },
{
    let mut out = v;
    match adjusted {
        Some(n) => {
            let numeric = quantity_of_second_sale(&out).is_some();
            if numeric {
                store_number(&mut out, "sales", 1, "quantity", n);
            }
        },
        None => {},
    }
    out
}

/// The text under which the fixture is stored, or `None` where the document
/// cannot be written.
pub fn fixture_text(v: &Value) -> (r: Option<String>)
    ensures
        match r {
            Some(s) => written(*v) == Some(s@),
            None => written(*v) is None,
        },
{
    match write_value(v) {
        Ok(s) => Some(s),
        Err(_) => None,
    }
}

/// The fixture in the form in which a product row carries it.
pub enum StoredFixture {
    /// The document itself, for a JSON column.
    Structured(Value),
    /// The document written out, for a text column.
    Serialized(String),
}

/// The form in which the fixture is stored: with `jsonb_only` the document
/// itself, otherwise its text, and `None` where that text cannot be written.
pub fn stored_form(v: Value, jsonb_only: bool) -> (r: Option<StoredFixture>)
    ensures
        match r {
            Some(StoredFixture::Structured(document)) => jsonb_only && document == v,
            Some(StoredFixture::Serialized(text)) => !jsonb_only && written(v) == Some(text@),
            None => !jsonb_only && written(v) is None,
        },
{
    if jsonb_only {
        Some(StoredFixture::Structured(v))
    } else {
        match fixture_text(&v) {
            Some(text) => Some(StoredFixture::Serialized(text)),
            None => None,
        }
    }
}

} // verus!
