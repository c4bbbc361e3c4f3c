//! Reading typed values out of the members of a JSON object.
//!
//! Every reader comes as a pair: a `spec` function that says what the member
//! called `name` decodes to, and an executable function that computes it.
//! A member that is not there is a `MissingFieldError`, one of the wrong
//! shape an `InvalidTypeError`; nothing is defaulted except where a reader
//! says so. Members that no reader asks for are passed over, and of two
//! members with one name the first is read.

use crate::error::ApiError;
use crate::json::{find, found, lookup, names_of, Json, Number};
use crate::time::{parsed_time, DateTime};
use vstd::prelude::*;

verus! {

/// The members of a JSON object.
pub type Members = Vec<(String, Json)>;

/// A closed set of values, each written in JSON as a string of its own.
pub trait Named: Sized {
    /// What the set is called in an `InvalidTypeError`.
    spec fn kind() -> &'static str;

    /// The string that stands for `self`.
    spec fn label(self) -> Seq<char>;

    /// The value that `text` stands for, if any.
    spec fn named(text: Seq<char>) -> Option<Self>;

    /// Every value is read back from its own label.
    proof fn lemma_label_names(self)
        ensures
            Self::named(self.label()) == Some(self),
    ;

    /// The name of the set.
    fn kind_name() -> (r: &'static str)
        ensures
            r == Self::kind(),
    ;

    /// The string that stands for `self`.
    fn name(&self) -> (r: &'static str)
        ensures
            r@ == self.label(),
    ;

    /// The value that `text` stands for; `None` for a string outside the set.
    fn from_name(text: &str) -> (r: Option<Self>)
        ensures
            r == Self::named(text@),
    ;
}

/// A record that is decoded from a JSON value.
pub trait FromJson: Sized {
    /// Whether `self` is a record that a response can hold.
    spec fn wf(&self) -> bool;

    /// What `j` decodes to: the record, or the first reason why it is none.
    spec fn decoded(j: Json) -> Result<Self, ApiError>;

    /// Decodes `j`.
    fn from_json(j: &Json) -> (r: Result<Self, ApiError>)
        ensures
            r == Self::decoded(*j),
            r matches Ok(record) ==> record.wf(),
    ;
}

/// A record that can be written as a JSON value and read back.
pub trait ToJson: FromJson {
    /// Whether `self` has a JSON form: one that decodes to `self` again.
    spec fn encodable(&self) -> bool;

    /// The names of the members of the JSON form, in order.
    spec fn member_names() -> Seq<Seq<char>>;

    /// Whether the values of `members`, one by one, are those of the JSON
    /// form of `self`.
    spec fn written(&self, members: Seq<(String, Json)>) -> bool;

    /// Writing and reading undo each other: an object with the names of
    /// `member_names` and the values that `written` gives for a record
    /// decodes to that record.
    proof fn lemma_round_trip(&self, j: Json)
        requires
            self.wf(),
            j is Object,
            names_of(j->Object_0@) == Self::member_names(),
            self.written(j->Object_0@),
        ensures
            Self::decoded(j) == Ok::<Self, ApiError>(*self),
    ;

    /// Writes `self` as a JSON object; `None` where `self` has no JSON form.
    fn to_json(&self) -> (r: Option<Json>)
        ensures
            r is Some == self.encodable(),
            r matches Some(j) ==> {
                &&& j is Object
                &&& names_of(j->Object_0@) == Self::member_names()
                &&& self.written(j->Object_0@)
                &&& Self::decoded(j) == Ok::<Self, ApiError>(*self)
            },
    ;
}

/// Whether `j` is the JSON form of `record`, as `to_json` writes it: an
/// object with the members of `member_names`, each with the value of
/// `written`, that decodes to `record` again.
pub open spec fn is_json_form<T: ToJson>(record: T, j: Json) -> bool {
    &&& j is Object
    &&& names_of(j->Object_0@) == T::member_names()
    &&& record.written(j->Object_0@)
    &&& T::decoded(j) == Ok::<T, ApiError>(record)
}

/// The member called `name`, or the one called `alias` where there is none.
pub open spec fn lookup_either(members: Seq<(String, Json)>, name: Seq<char>, alias: Seq<char>)
    -> Option<Json> {
    if lookup(members, name) is Some {
        lookup(members, name)
    } else {
        lookup(members, alias)
    }
}

/// A string member.
pub open spec fn string_from(value: Option<Json>, name: &'static str) -> Result<String, ApiError> {
    match value {
        None => Err(ApiError::MissingFieldError(name)),
        Some(Json::String(text)) => Ok(text),
        Some(_) => Err(ApiError::InvalidTypeError(name, "string")),
    }
}

/// A string member that may be left out or `null`.
pub open spec fn optional_string_from(value: Option<Json>, name: &'static str) -> Result<
    Option<String>,
    ApiError,
> {
    match value {
        None => Ok(None),
        Some(Json::Null) => Ok(None),
        Some(Json::String(text)) => Ok(Some(text)),
        Some(_) => Err(ApiError::InvalidTypeError(name, "string")),
    }
}

/// The text, unless it is the empty string, which stands for no value.
pub open spec fn absent_if_empty(text: String) -> Option<String> {
    if text@.len() == 0 {
        None
    } else {
        Some(text)
    }
}

/// A string member in which the empty string, like `null`, says that there
/// is no value.
pub open spec fn empty_as_none_from(value: Option<Json>, name: &'static str) -> Result<
    Option<String>,
    ApiError,
> {
    match value {
        None => Err(ApiError::MissingFieldError(name)),
        Some(Json::Null) => Ok(None),
        Some(Json::String(text)) => Ok(absent_if_empty(text)),
        Some(_) => Err(ApiError::InvalidTypeError(name, "string")),
    }
}

/// A boolean member.
pub open spec fn bool_from(value: Option<Json>, name: &'static str) -> Result<bool, ApiError> {
    match value {
        None => Err(ApiError::MissingFieldError(name)),
        Some(Json::Bool(b)) => Ok(b),
        Some(_) => Err(ApiError::InvalidTypeError(name, "bool")),
    }
}

/// A member that holds a non-negative integer below 2^32.
pub open spec fn u32_from(value: Option<Json>, name: &'static str) -> Result<u32, ApiError> {
    match value {
        None => Err(ApiError::MissingFieldError(name)),
        Some(Json::Number(Number::PosInt(n))) => if n <= u32::MAX {
            Ok(n as u32)
        } else {
            Err(ApiError::InvalidTypeError(name, "u32"))
        },
        Some(_) => Err(ApiError::InvalidTypeError(name, "u32")),
    }
}

/// A member that holds a non-negative integer below 2^64.
pub open spec fn u64_from(value: Option<Json>, name: &'static str) -> Result<u64, ApiError> {
    match value {
        None => Err(ApiError::MissingFieldError(name)),
        Some(Json::Number(Number::PosInt(n))) => Ok(n),
        Some(_) => Err(ApiError::InvalidTypeError(name, "u64")),
    }
}

/// A numeric member.
pub open spec fn number_from(value: Option<Json>, name: &'static str) -> Result<Number, ApiError> {
    match value {
        None => Err(ApiError::MissingFieldError(name)),
        Some(Json::Number(n)) => Ok(n),
        Some(_) => Err(ApiError::InvalidTypeError(name, "number")),
    }
}

/// A numeric member in which `null` stands for zero.
pub open spec fn nullable_number_from(value: Option<Json>, name: &'static str) -> Result<
    Number,
    ApiError,
> {
    match value {
        None => Err(ApiError::MissingFieldError(name)),
        Some(Json::Null) => Ok(Number::zero()),
        Some(Json::Number(n)) => Ok(n),
        Some(_) => Err(ApiError::InvalidTypeError(name, "number")),
    }
}

/// A numeric member that may be left out or `null`.
pub open spec fn optional_number_from(value: Option<Json>, name: &'static str) -> Result<
    Option<Number>,
    ApiError,
> {
    match value {
        None => Ok(None),
        Some(Json::Null) => Ok(None),
        Some(Json::Number(n)) => Ok(Some(n)),
        Some(_) => Err(ApiError::InvalidTypeError(name, "number")),
    }
}

/// A member that holds a point in time as RFC 3339 text.
pub open spec fn time_from(value: Option<Json>, name: &'static str) -> Result<DateTime, ApiError> {
    match value {
        None => Err(ApiError::MissingFieldError(name)),
        Some(Json::String(text)) => match parsed_time(text@) {
            Some(at) => Ok(at),
            None => Err(ApiError::InvalidTypeError(name, "DateTime")),
        },
        Some(_) => Err(ApiError::InvalidTypeError(name, "DateTime")),
    }
}

/// A point in time that may be left out or `null`.
pub open spec fn optional_time_from(value: Option<Json>, name: &'static str) -> Result<
    Option<DateTime>,
    ApiError,
> {
    match value {
        None => Ok(None),
        Some(Json::Null) => Ok(None),
        Some(other) => match time_from(Some(other), name) {
            Ok(at) => Ok(Some(at)),
            Err(e) => Err(e),
        },
    }
}

/// A flag sent as the integer 0 or 1.
pub open spec fn flag_from(value: Option<Json>, name: &'static str) -> Result<bool, ApiError> {
    match value {
        None => Err(ApiError::MissingFieldError(name)),
        Some(Json::Number(Number::PosInt(n))) => if n == 0 {
            Ok(false)
        } else if n == 1 {
            Ok(true)
        } else {
            Err(ApiError::InvalidTypeError(name, "0 or 1"))
        },
        Some(_) => Err(ApiError::InvalidTypeError(name, "0 or 1")),
    }
}

/// A member that holds one of a closed set of strings.
pub open spec fn named_from<T: Named>(value: Option<Json>, name: &'static str) -> Result<
    T,
    ApiError,
> {
    match value {
        None => Err(ApiError::MissingFieldError(name)),
        Some(Json::String(text)) => match T::named(text@) {
            Some(v) => Ok(v),
            None => Err(ApiError::InvalidTypeError(name, T::kind())),
        },
        Some(_) => Err(ApiError::InvalidTypeError(name, T::kind())),
    }
}

/// A member that holds an array.
pub open spec fn array_from(value: Option<Json>, name: &'static str) -> Result<
    Seq<Json>,
    ApiError,
> {
    match value {
        None => Err(ApiError::MissingFieldError(name)),
        Some(Json::Array(items)) => Ok(items@),
        Some(_) => Err(ApiError::InvalidTypeError(name, "array")),
    }
}

/// The records that the items of an array decode to, or the first failure.
pub open spec fn decoded_list<T: FromJson>(items: Seq<Json>) -> Result<Seq<T>, ApiError>
    decreases items.len(),
{
    if items.len() == 0 {
        Ok(Seq::empty())
    } else {
        match decoded_list::<T>(items.drop_last()) {
            Err(e) => Err(e),
            Ok(front) => match T::decoded(items.last()) {
                Err(e) => Err(e),
                Ok(record) => Ok(front.push(record)),
            },
        }
    }
}

/// A member that holds an array of records.
pub open spec fn list_from<T: FromJson>(value: Option<Json>, name: &'static str) -> Result<
    Seq<T>,
    ApiError,
> {
    match array_from(value, name) {
        Ok(items) => decoded_list::<T>(items),
        Err(e) => Err(e),
    }
}

/// The records inside an envelope: an object whose member `name` holds them
/// as an array.
pub open spec fn enveloped<T: FromJson>(j: Json, name: &'static str) -> Result<Seq<T>, ApiError> {
    match j {
        Json::Object(members) => list_from::<T>(lookup(members@, name@), name),
        _ => Err(ApiError::InvalidTypeError("response", "object")),
    }
}

/// Whether `list` holds exactly what `expected` says, failure included.
pub open spec fn list_is<T, E>(list: Result<Vec<T>, E>, expected: Result<Seq<T>, E>) -> bool {
    match expected {
        Ok(records) => list is Ok && list->Ok_0@ == records,
        Err(e) => list == Err::<Vec<T>, E>(e),
    }
}

/// A numeric member that may be `null` decodes to zero where it is `null`:
/// not to a failure, and not to a value that is absent.
pub proof fn lemma_null_number_is_zero(name: &'static str)
    ensures
        nullable_number_from(Some(Json::Null), name) == Ok::<Number, ApiError>(Number::zero()),
{
}

/// Under the convention that the empty string stands for no value, the empty
/// string decodes to an absent value and every other string to itself.
pub proof fn lemma_empty_text_is_absent(text: String, name: &'static str)
    ensures
        empty_as_none_from(Some(Json::String(text)), name) == Ok::<Option<String>, ApiError>(
            absent_if_empty(text),
        ),
        text@.len() == 0 ==> absent_if_empty(text) is None,
        text@.len() > 0 ==> absent_if_empty(text) == Some(text),
{
}

/// A flag that is sent as an integer decodes to `false` from 0 and to `true`
/// from 1; every other integer is an `InvalidTypeError`.
pub proof fn lemma_flag_from_integer(n: u64, name: &'static str)
    ensures
        flag_from(Some(Json::Number(Number::PosInt(n))), name) == if n == 0 {
            Ok::<bool, ApiError>(false)
        } else if n == 1 {
            Ok::<bool, ApiError>(true)
        } else {
            Err::<bool, ApiError>(ApiError::InvalidTypeError(name, "0 or 1"))
        },
{
}

/// Finds the member called `name`, or the one called `alias`.
pub fn find_either<'a>(members: &'a Members, name: &str, alias: &str) -> (r: Option<&'a Json>)
    ensures
        found(r) == lookup_either(members@, name@, alias@),
{
    match find(members, name) {
        Some(value) => Some(value),
        None => find(members, alias),
    }
}

/// Reads a string member.
pub fn read_string(value: Option<&Json>, name: &'static str) -> (r: Result<String, ApiError>)
    ensures
        r == string_from(found(value), name),
{
    match value {
        None => Err(ApiError::MissingFieldError(name)),
        Some(Json::String(text)) => Ok(text.clone()),
        Some(_) => Err(ApiError::InvalidTypeError(name, "string")),
    }
}

/// Reads a string member that may be left out or `null`.
pub fn read_optional_string(value: Option<&Json>, name: &'static str) -> (r: Result<
    Option<String>,
    ApiError,
>)
    ensures
        r == optional_string_from(found(value), name),
{
    match value {
        None => Ok(None),
        Some(Json::Null) => Ok(None),
        Some(Json::String(text)) => Ok(Some(text.clone())),
        Some(_) => Err(ApiError::InvalidTypeError(name, "string")),
    }
}

/// Reads a string member in which the empty string, like `null`, says that
/// there is no value.
pub fn read_empty_as_none(value: Option<&Json>, name: &'static str) -> (r: Result<
    Option<String>,
    ApiError,
>)
    ensures
        r == empty_as_none_from(found(value), name),
{
    match value {
        None => Err(ApiError::MissingFieldError(name)),
        Some(Json::Null) => Ok(None),
        Some(Json::String(text)) => {
            if text.as_str().is_empty() {
                Ok(None)
            } else {
                Ok(Some(text.clone()))
            }
        },
        Some(_) => Err(ApiError::InvalidTypeError(name, "string")),
    }
}

/// Reads a boolean member.
pub fn read_bool(value: Option<&Json>, name: &'static str) -> (r: Result<bool, ApiError>)
    ensures
        r == bool_from(found(value), name),
{
    match value {
        None => Err(ApiError::MissingFieldError(name)),
        Some(Json::Bool(b)) => Ok(*b),
        Some(_) => Err(ApiError::InvalidTypeError(name, "bool")),
    }
}

/// Reads a member that holds a non-negative integer below 2^32.
pub fn read_u32(value: Option<&Json>, name: &'static str) -> (r: Result<u32, ApiError>)
    ensures
        r == u32_from(found(value), name),
{
    match value {
        None => Err(ApiError::MissingFieldError(name)),
        Some(Json::Number(Number::PosInt(n))) => {
            if *n <= 0xffff_ffff {
                Ok(*n as u32)
            } else {
                Err(ApiError::InvalidTypeError(name, "u32"))
            }
        },
        Some(_) => Err(ApiError::InvalidTypeError(name, "u32")),
    }
}

/// Reads a member that holds a non-negative integer below 2^64.
pub fn read_u64(value: Option<&Json>, name: &'static str) -> (r: Result<u64, ApiError>)
    ensures
        r == u64_from(found(value), name),
{
    match value {
        None => Err(ApiError::MissingFieldError(name)),
        Some(Json::Number(Number::PosInt(n))) => Ok(*n),
        Some(_) => Err(ApiError::InvalidTypeError(name, "u64")),
    }
}

/// Reads a numeric member.
pub fn read_number(value: Option<&Json>, name: &'static str) -> (r: Result<Number, ApiError>)
    ensures
        r == number_from(found(value), name),
{
    match value {
        None => Err(ApiError::MissingFieldError(name)),
        Some(Json::Number(n)) => Ok(n.duplicate()),
        Some(_) => Err(ApiError::InvalidTypeError(name, "number")),
    }
}

/// Reads a numeric member in which `null` stands for zero.
pub fn read_nullable_number(value: Option<&Json>, name: &'static str) -> (r: Result<
    Number,
    ApiError,
>)
    ensures
        r == nullable_number_from(found(value), name),
{
    match value {
        None => Err(ApiError::MissingFieldError(name)),
        Some(Json::Null) => Ok(Number::PosInt(0)),
        Some(Json::Number(n)) => Ok(n.duplicate()),
        Some(_) => Err(ApiError::InvalidTypeError(name, "number")),
    }
}

/// Reads a numeric member that may be left out or `null`.
pub fn read_optional_number(value: Option<&Json>, name: &'static str) -> (r: Result<
    Option<Number>,
    ApiError,
>)
    ensures
        r == optional_number_from(found(value), name),
{
    match value {
        None => Ok(None),
        Some(Json::Null) => Ok(None),
        Some(Json::Number(n)) => Ok(Some(n.duplicate())),
        Some(_) => Err(ApiError::InvalidTypeError(name, "number")),
    }
}

/// Reads a member that holds a point in time as RFC 3339 text.
pub fn read_time(value: Option<&Json>, name: &'static str) -> (r: Result<DateTime, ApiError>)
    ensures
        r == time_from(found(value), name),
{
    match value {
        None => Err(ApiError::MissingFieldError(name)),
        Some(Json::String(text)) => match DateTime::parse(text.as_str()) {
            Some(at) => Ok(at),
            None => Err(ApiError::InvalidTypeError(name, "DateTime")),
        },
        Some(_) => Err(ApiError::InvalidTypeError(name, "DateTime")),
    }
}

/// Reads a point in time that may be left out or `null`.
pub fn read_optional_time(value: Option<&Json>, name: &'static str) -> (r: Result<
    Option<DateTime>,
    ApiError,
>)
    ensures
        r == optional_time_from(found(value), name),
{
    match value {
        None => Ok(None),
        Some(Json::Null) => Ok(None),
        Some(other) => match read_time(Some(other), name) {
            Ok(at) => Ok(Some(at)),
            Err(e) => Err(e),
        },
    }
}

/// Reads a flag sent as the integer 0 or 1.
pub fn read_flag(value: Option<&Json>, name: &'static str) -> (r: Result<bool, ApiError>)
    ensures
        r == flag_from(found(value), name),
{
    match value {
        None => Err(ApiError::MissingFieldError(name)),
        Some(Json::Number(Number::PosInt(n))) => {
            if *n == 0 {
                Ok(false)
            } else if *n == 1 {
                Ok(true)
            } else {
                Err(ApiError::InvalidTypeError(name, "0 or 1"))
            }
        },
        Some(_) => Err(ApiError::InvalidTypeError(name, "0 or 1")),
    }
}

/// Reads a member that holds one of a closed set of strings.
pub fn read_named<T: Named>(value: Option<&Json>, name: &'static str) -> (r: Result<T, ApiError>)
    ensures
        r == named_from::<T>(found(value), name),
{
    match value {
        None => Err(ApiError::MissingFieldError(name)),
        Some(Json::String(text)) => match T::from_name(text.as_str()) {
            Some(v) => Ok(v),
            None => Err(ApiError::InvalidTypeError(name, T::kind_name())),
        },
        Some(_) => Err(ApiError::InvalidTypeError(name, T::kind_name())),
    }
}

/// Decodes every item of an array, stopping at the first that fails.
pub fn read_list<T: FromJson>(items: &Vec<Json>) -> (r: Result<Vec<T>, ApiError>)
    ensures
        list_is(r, decoded_list::<T>(items@)),
{
    let mut records: Vec<T> = Vec::new();
    let mut i: usize = 0;
    assert(items@.take(0) =~= Seq::empty());
    while i < items.len()
        invariant
            i <= items.len(),
            decoded_list::<T>(items@.take(i as int)) == Ok::<Seq<T>, ApiError>(records@),
        decreases items.len() - i,
    {
        proof {
            assert(items@.take(i + 1).drop_last() =~= items@.take(i as int));
            assert(items@.take(i + 1).last() == items@[i as int]);
        }
        match T::from_json(&items[i]) {
            Ok(record) => {
                records.push(record);
            },
            Err(e) => {
                proof {
                    lemma_failure_stays::<T>(items@, i + 1);
                }
                return Err(e);
            },
        }
        i += 1;
    }
    assert(items@.take(i as int) =~= items@);
    Ok(records)
}

/// Reads a member that holds an array of records.
pub fn read_list_member<T: FromJson>(value: Option<&Json>, name: &'static str) -> (r: Result<
    Vec<T>,
    ApiError,
>)
    ensures
        list_is(r, list_from::<T>(found(value), name)),
{
    match value {
        None => Err(ApiError::MissingFieldError(name)),
        Some(Json::Array(items)) => read_list(items),
        Some(_) => Err(ApiError::InvalidTypeError(name, "array")),
    }
}

/// Reads the records inside an envelope.
pub fn read_envelope<T: FromJson>(j: &Json, name: &'static str) -> (r: Result<Vec<T>, ApiError>)
    ensures
        list_is(r, enveloped::<T>(*j, name)),
{
    match j {
        Json::Object(members) => read_list_member(find(members, name), name),
        _ => Err(ApiError::InvalidTypeError("response", "object")),
    }
}

/// A list whose front fails to decode fails in the same way.
pub proof fn lemma_failure_stays<T: FromJson>(items: Seq<Json>, n: int)
    requires
        0 <= n <= items.len(),
        decoded_list::<T>(items.take(n)) is Err,
    ensures
        decoded_list::<T>(items) == decoded_list::<T>(items.take(n)),
    decreases items.len() - n,
{
    if n < items.len() {
        assert(items.take(n + 1).drop_last() =~= items.take(n));
        lemma_failure_stays::<T>(items, n + 1);
    } else {
        assert(items.take(n) =~= items);
    }
}

} // verus!
