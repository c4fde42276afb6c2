use vstd::prelude::*;

verus! {

/// What went wrong while decoding a frame.
#[derive(Clone, Copy, Debug, PartialEq, Eq, Structural)]
pub enum DecodeErrorKind {
    /// The payload is not a JSON object.
    NotAnObject,
    /// A required member is absent.
    MissingField,
    /// A member holds a value of the wrong JSON type.
    InvalidType,
    /// A member names a variant that the enumeration does not have.
    UnknownVariant,
    /// A member holds a text that names no instant.
    InvalidTimestamp,
    /// A member holds a text that is no decimal number.
    InvalidNumber,
}

/// A decode error, with the member it concerns and the offending text
/// (empty where there is none).
#[derive(Clone, Debug, PartialEq, Eq)]
pub struct DecodeError {
    pub kind: DecodeErrorKind,
    pub field: String,
    pub value: String,
}

pub ghost struct DecodeErrorView {
    pub kind: DecodeErrorKind,
    pub field: Seq<char>,
    pub value: Seq<char>,
}

impl View for DecodeError {
    type V = DecodeErrorView;

    open spec fn view(&self) -> DecodeErrorView {
        DecodeErrorView { kind: self.kind, field: self.field@, value: self.value@ }
    }
}

pub open spec fn error_of(kind: DecodeErrorKind, field: Seq<char>, value: Seq<char>) -> DecodeErrorView {
    DecodeErrorView { kind, field, value }
}

impl DecodeError {
    pub fn new(kind: DecodeErrorKind, field: &str, value: &str) -> (r: DecodeError)
        ensures
            r@ == error_of(kind, field@, value@),
    {
        DecodeError { kind, field: field.to_owned(), value: value.to_owned() }
    }

    /// An error about a member, with no offending text.
    pub fn at(kind: DecodeErrorKind, field: &str) -> (r: DecodeError)
        ensures
            r@ == error_of(kind, field@, Seq::empty()),
    {
        proof {
            reveal_strlit("");
            assert(""@ =~= Seq::<char>::empty());
        }
        DecodeError::new(kind, field, "")
    }

    /// A one-line description of the error.
    pub fn message(&self) -> (r: String) {
        let mut m = match self.kind {
            DecodeErrorKind::NotAnObject => "expected a JSON object".to_owned(),
            DecodeErrorKind::MissingField => "missing field".to_owned(),
            DecodeErrorKind::InvalidType => "invalid type for field".to_owned(),
            DecodeErrorKind::UnknownVariant => "unknown variant".to_owned(),
            DecodeErrorKind::InvalidTimestamp => "invalid timestamp".to_owned(),
            DecodeErrorKind::InvalidNumber => "invalid number".to_owned(),
        };
        if !self.field.as_str().is_empty() {
            m.append(" `");
            m.append(self.field.as_str());
            m.append("`");
        }
        if !self.value.as_str().is_empty() {
            m.append(": `");
            m.append(self.value.as_str());
            m.append("`");
        }
        m
    }
}

} // verus!
