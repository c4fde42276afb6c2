use vstd::prelude::*;

use crate::decimal::{num_parts_of, parse_decimal, Decimal};
use crate::error::{error_of, DecodeError, DecodeErrorKind, DecodeErrorView};
use crate::json::{find_field, lookup, JsonValue};
use crate::status::{status_of, TradeStatus};
use crate::timestamp::{parse_timestamp, timestamp_of, Timestamp};

verus! {

pub open spec fn missing(name: Seq<char>) -> DecodeErrorView {
    error_of(DecodeErrorKind::MissingField, name, Seq::empty())
}

pub open spec fn wrong_type(name: Seq<char>) -> DecodeErrorView {
    error_of(DecodeErrorKind::InvalidType, name, Seq::empty())
}

/// A required text member.
pub open spec fn text_member(f: Seq<(String, JsonValue)>, name: Seq<char>) -> Result<
    Seq<char>,
    DecodeErrorView,
> {
    match lookup(f, name) {
        None => Err(missing(name)),
        Some(JsonValue::Str(s)) => Ok(s@),
        Some(_) => Err(wrong_type(name)),
    }
}

/// An optional timestamp: `null`, an absent member and an empty text all
/// stand for no instant; any other text must name one.
pub open spec fn optional_time_of(v: Option<JsonValue>, name: Seq<char>) -> Result<
    Option<Timestamp>,
    DecodeErrorView,
> {
    match v {
        None => Ok(None),
        Some(JsonValue::Null) => Ok(None),
        Some(JsonValue::Str(s)) => if s@.len() == 0 {
            Ok(None)
        } else {
            match timestamp_of(s@) {
                Some(t) => Ok(Some(t)),
                None => Err(error_of(DecodeErrorKind::InvalidTimestamp, name, s@)),
            }
        },
        Some(_) => Err(wrong_type(name)),
    }
}

pub open spec fn time_member(f: Seq<(String, JsonValue)>, name: Seq<char>) -> Result<
    Option<Timestamp>,
    DecodeErrorView,
> {
    optional_time_of(lookup(f, name), name)
}

pub open spec fn decimal_text_of(s: Seq<char>, name: Seq<char>) -> Result<
    (Seq<char>, Seq<char>),
    DecodeErrorView,
> {
    match num_parts_of(s) {
        Some(p) => Ok(p),
        None => Err(error_of(DecodeErrorKind::InvalidNumber, name, s)),
    }
}

/// A required decimal member, written as a text or as a number.
pub open spec fn decimal_member(f: Seq<(String, JsonValue)>, name: Seq<char>) -> Result<
    (Seq<char>, Seq<char>),
    DecodeErrorView,
> {
    match lookup(f, name) {
        None => Err(missing(name)),
        Some(JsonValue::Str(s)) => decimal_text_of(s@, name),
        Some(JsonValue::Number(s)) => decimal_text_of(s@, name),
        Some(_) => Err(wrong_type(name)),
    }
}

/// A required trade status member.
pub open spec fn status_member(f: Seq<(String, JsonValue)>, name: Seq<char>) -> Result<
    TradeStatus,
    DecodeErrorView,
> {
    match lookup(f, name) {
        None => Err(missing(name)),
        Some(JsonValue::Str(s)) => match status_of(s@) {
            Some(v) => Ok(v),
            None => Err(error_of(DecodeErrorKind::UnknownVariant, name, s@)),
        },
        Some(_) => Err(wrong_type(name)),
    }
}

/// A required member that holds an object.
pub open spec fn object_member(f: Seq<(String, JsonValue)>, name: Seq<char>) -> Result<
    JsonValue,
    DecodeErrorView,
> {
    match lookup(f, name) {
        None => Err(missing(name)),
        Some(JsonValue::Object(o)) => Ok(JsonValue::Object(o)),
        Some(_) => Err(wrong_type(name)),
    }
}

pub fn decode_text(fields: &Vec<(String, JsonValue)>, name: &str) -> (r: Result<String, DecodeError>)
    ensures
        match r {
            Ok(t) => text_member(fields@, name@) == Ok::<Seq<char>, DecodeErrorView>(t@),
            Err(e) => text_member(fields@, name@) == Err::<Seq<char>, DecodeErrorView>(e@),
        },
{
    match find_field(fields, name) {
        None => Err(DecodeError::at(DecodeErrorKind::MissingField, name)),
        Some(i) => match &fields[i].1 {
            JsonValue::Str(s) => Ok(s.clone()),
            _ => Err(DecodeError::at(DecodeErrorKind::InvalidType, name)),
        },
    }
}

/// Decodes an optional timestamp from a member's value, `None` standing
/// for an absent member.
pub fn decode_optional_timestamp(v: Option<&JsonValue>, name: &str) -> (r: Result<
    Option<Timestamp>,
    DecodeError,
>)
    ensures
        match r {
            Ok(t) => optional_time_of(
                match v {
                    Some(x) => Some(*x),
                    None => None,
                },
                name@,
            ) == Ok::<Option<Timestamp>, DecodeErrorView>(t),
            Err(e) => optional_time_of(
                match v {
                    Some(x) => Some(*x),
                    None => None,
                },
                name@,
            ) == Err::<Option<Timestamp>, DecodeErrorView>(e@),
        },
{
    match v {
        None => Ok(None),
        Some(JsonValue::Null) => Ok(None),
        Some(JsonValue::Str(s)) => {
            if s.as_str().is_empty() {
                Ok(None)
            } else {
                match parse_timestamp(s.as_str()) {
                    Some(t) => Ok(Some(t)),
                    None => Err(DecodeError::new(DecodeErrorKind::InvalidTimestamp, name, s.as_str())),
                }
            }
        },
        Some(_) => Err(DecodeError::at(DecodeErrorKind::InvalidType, name)),
    }
}

pub fn decode_time(fields: &Vec<(String, JsonValue)>, name: &str) -> (r: Result<
    Option<Timestamp>,
    DecodeError,
>)
    ensures
        match r {
            Ok(t) => time_member(fields@, name@) == Ok::<Option<Timestamp>, DecodeErrorView>(t),
            Err(e) => time_member(fields@, name@) == Err::<Option<Timestamp>, DecodeErrorView>(e@),
        },
{
    match find_field(fields, name) {
        None => decode_optional_timestamp(None, name),
        Some(i) => decode_optional_timestamp(Some(&fields[i].1), name),
    }
}

fn decode_decimal_text(s: &String, name: &str) -> (r: Result<Decimal, DecodeError>)
    ensures
        match r {
            Ok(d) => decimal_text_of(s@, name@) == Ok::<(Seq<char>, Seq<char>), DecodeErrorView>(
                d@,
            ),
            Err(e) => decimal_text_of(s@, name@) == Err::<(Seq<char>, Seq<char>), DecodeErrorView>(
                e@,
            ),
        },
{
    match parse_decimal(s.as_str()) {
        Some(d) => Ok(d),
        None => Err(DecodeError::new(DecodeErrorKind::InvalidNumber, name, s.as_str())),
    }
}

pub fn decode_decimal(fields: &Vec<(String, JsonValue)>, name: &str) -> (r: Result<
    Decimal,
    DecodeError,
>)
    ensures
        match r {
            Ok(d) => decimal_member(fields@, name@) == Ok::<(Seq<char>, Seq<char>), DecodeErrorView>(
                d@,
            ),
            Err(e) => decimal_member(fields@, name@) == Err::<
                (Seq<char>, Seq<char>),
                DecodeErrorView,
            >(e@),
        },
{
    match find_field(fields, name) {
        None => Err(DecodeError::at(DecodeErrorKind::MissingField, name)),
        Some(i) => match &fields[i].1 {
            JsonValue::Str(s) => decode_decimal_text(s, name),
            JsonValue::Number(s) => decode_decimal_text(s, name),
            _ => Err(DecodeError::at(DecodeErrorKind::InvalidType, name)),
        },
    }
}

pub fn decode_status(fields: &Vec<(String, JsonValue)>, name: &str) -> (r: Result<
    TradeStatus,
    DecodeError,
>)
    ensures
        match r {
            Ok(v) => status_member(fields@, name@) == Ok::<TradeStatus, DecodeErrorView>(v),
            Err(e) => status_member(fields@, name@) == Err::<TradeStatus, DecodeErrorView>(e@),
        },
{
    match find_field(fields, name) {
        None => Err(DecodeError::at(DecodeErrorKind::MissingField, name)),
        Some(i) => match &fields[i].1 {
            JsonValue::Str(s) => match TradeStatus::from_wire(s.as_str()) {
                Some(v) => Ok(v),
                None => Err(DecodeError::new(DecodeErrorKind::UnknownVariant, name, s.as_str())),
            },
            _ => Err(DecodeError::at(DecodeErrorKind::InvalidType, name)),
        },
    }
}

} // verus!
