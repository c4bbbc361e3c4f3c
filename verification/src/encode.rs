//! Writing typed values as JSON, the other way round from `decode`.

use crate::decode::{decoded_list, is_json_form, Named, ToJson};
use crate::error::ApiError;
use crate::json::{Json, Number};
use crate::time::{json_time_text, parsed_time, DateTime};
use vstd::prelude::*;

verus! {

/// Whether an optional text, if there is one, is not the empty string.
pub open spec fn present_text(text: Option<String>) -> bool {
    text matches Some(t) ==> t@.len() > 0
}

/// Tells whether an optional text, if there is one, is not the empty string.
pub fn is_present_text(text: &Option<String>) -> (r: bool)
    ensures
        r == present_text(*text),
{
    match text {
        Some(t) => !t.as_str().is_empty(),
        None => true,
    }
}

/// A text as a JSON string.
pub fn text_json(text: &String) -> (j: Json)
    ensures
        j == Json::String(*text),
{
    Json::String(text.clone())
}

/// A text as a JSON string, or `null` where there is none.
pub open spec fn optional_text(text: Option<String>) -> Json {
    match text {
        Some(t) => Json::String(t),
        None => Json::Null,
    }
}

/// A number as a JSON number, or `null` where there is none.
pub open spec fn optional_number(n: Option<Number>) -> Json {
    match n {
        Some(n) => Json::Number(n),
        None => Json::Null,
    }
}

/// A whole number as a JSON number.
pub open spec fn whole_number(n: u32) -> Json {
    Json::Number(Number::PosInt(n as u64))
}

/// A flag as the JSON number 1 or 0.
pub open spec fn flag_number(flag: bool) -> Json {
    Json::Number(Number::PosInt(if flag { 1u64 } else { 0u64 }))
}

/// Whether `j` is the JSON string `label`.
pub open spec fn is_label_json(j: Json, label: Seq<char>) -> bool {
    j matches Json::String(text) && text@ == label
}

/// A text, or `null` where there is none.
pub fn optional_text_json(text: &Option<String>) -> (j: Json)
    ensures
        j == optional_text(*text),
{
    match text {
        Some(t) => Json::String(t.clone()),
        None => Json::Null,
    }
}

/// A number as a JSON number.
pub fn number_json(n: &Number) -> (j: Json)
    ensures
        j == Json::Number(*n),
{
    Json::Number(n.duplicate())
}

/// A number, or `null` where there is none.
pub fn optional_number_json(n: &Option<Number>) -> (j: Json)
    ensures
        j == optional_number(*n),
{
    match n {
        Some(n) => Json::Number(n.duplicate()),
        None => Json::Null,
    }
}

/// A whole number as a JSON number.
pub fn u32_json(n: u32) -> (j: Json)
    ensures
        j == whole_number(n),
{
    Json::Number(Number::PosInt(n as u64))
}

/// A flag as the integer 1 or 0.
pub fn flag_json(flag: bool) -> (j: Json)
    ensures
        j == flag_number(flag),
{
    if flag {
        Json::Number(Number::PosInt(1))
    } else {
        Json::Number(Number::PosInt(0))
    }
}

/// The string that stands for `value`.
pub fn named_json<T: Named>(value: &T) -> (j: Json)
    ensures
        is_label_json(j, value.label()),
{
    Json::String(String::from_str(value.name()))
}

/// Whether `j` is the text of `at` for a JSON document, and reads back as
/// `at`.
pub open spec fn is_time_json(j: Json, at: DateTime) -> bool {
    j matches Json::String(text) && {
        &&& Some(text@) == json_time_text(at.secs, at.nanos)
        &&& parsed_time(text@) == Some(at)
    }
}

/// A point in time as text that reads back as the same point; `None` where
/// there is no such text.
pub fn time_json(at: &DateTime) -> (r: Option<Json>)
    ensures
        r is Some == at.survives_json(),
        r matches Some(j) ==> is_time_json(j, *at),
{
    match at.to_json_text() {
        Some(text) => Some(Json::String(text)),
        None => None,
    }
}

/// Whether `j` is the text of `at` as in `is_time_json`, or `null` where
/// there is no point in time.
pub open spec fn is_optional_time_json(j: Json, at: Option<DateTime>) -> bool {
    match at {
        Some(t) => is_time_json(j, t),
        None => j == Json::Null,
    }
}

/// A point in time as in `time_json`, or `null` where there is none.
pub fn optional_time_json(at: &Option<DateTime>) -> (r: Option<Json>)
    ensures
        r is Some == (*at matches Some(t) ==> t.survives_json()),
        r matches Some(j) ==> is_optional_time_json(j, *at),
{
    match at {
        Some(t) => time_json(t),
        None => Some(Json::Null),
    }
}

/// Whether every record in `records` has a JSON form.
pub open spec fn all_encodable<T: ToJson>(records: Seq<T>) -> bool {
    forall|i: int| 0 <= i < records.len() ==> (#[trigger] records[i]).encodable()
}

/// Whether `items` holds the JSON form of each record in `records`, in the
/// same order.
pub open spec fn are_json_forms<T: ToJson>(items: Seq<Json>, records: Seq<T>) -> bool {
    &&& items.len() == records.len()
    &&& forall|i: int| 0 <= i < records.len() ==> is_json_form(#[trigger] records[i], items[i])
}

/// A list of JSON forms decodes to the records that they are the forms of.
pub proof fn lemma_forms_decode<T: ToJson>(items: Seq<Json>, records: Seq<T>)
    requires
        are_json_forms(items, records),
    ensures
        decoded_list::<T>(items) == Ok::<Seq<T>, ApiError>(records),
    decreases items.len(),
{
    if items.len() == 0 {
        assert(records =~= Seq::empty());
    } else {
        assert forall|i: int| 0 <= i < records.drop_last().len() implies is_json_form(
            #[trigger] records.drop_last()[i],
            items.drop_last()[i],
        ) by {
            assert(records.drop_last()[i] == records[i]);
        }
        lemma_forms_decode::<T>(items.drop_last(), records.drop_last());
        assert(is_json_form(records[records.len() - 1], items[items.len() - 1]));
        assert(records.drop_last().push(records.last()) =~= records);
    }
}

/// Writes every record of a list; `None` where one of them has no JSON form.
pub fn write_list<T: ToJson>(records: &Vec<T>) -> (r: Option<Vec<Json>>)
    ensures
        r is Some == all_encodable(records@),
        r matches Some(items) ==> {
            &&& are_json_forms(items@, records@)
            &&& decoded_list::<T>(items@) == Ok::<Seq<T>, ApiError>(records@)
        },
{
    let mut items: Vec<Json> = Vec::new();
    let mut i: usize = 0;
    while i < records.len()
        invariant
            i <= records.len(),
            all_encodable(records@.take(i as int)),
            are_json_forms(items@, records@.take(i as int)),
        decreases records.len() - i,
    {
        match records[i].to_json() {
            Some(item) => {
                proof {
                    assert(is_json_form(records@[i as int], item));
                    assert forall|k: int| 0 <= k < i + 1 implies (#[trigger] records@.take(
                        i + 1,
                    )[k]).encodable() by {
                        if k < i {
                            assert(records@.take(i + 1)[k] == records@.take(i as int)[k]);
                        }
                    }
                    assert forall|k: int| 0 <= k < i + 1 implies is_json_form(
                        #[trigger] records@.take(i + 1)[k],
                        items@.push(item)[k],
                    ) by {
                        if k < i {
                            assert(records@.take(i + 1)[k] == records@.take(i as int)[k]);
                        }
                    }
                }
                items.push(item);
            },
            None => {
                assert(!records@[i as int].encodable());
                return None;
            },
        }
        i += 1;
    }
    proof {
        assert(records@.take(i as int) =~= records@);
        lemma_forms_decode::<T>(items@, records@);
    }
    Some(items)
}

} // verus!
