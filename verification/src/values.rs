//! The plain values that flow through a call: parameters, result values,
//! and structured errors.

use vstd::prelude::*;

verus! {

/// An opaque structured value: the payload of a successful call result,
/// carried here as its textual rendering.
#[derive(Debug, PartialEq, Eq)]
pub struct Value {
    repr: String,
}

impl View for Value {
    type V = Seq<char>;

    closed spec fn view(&self) -> Seq<char> {
        self.repr@
    }
}

impl Value {
    /// Builds a value from its textual rendering.
    pub fn from_text(text: &str) -> (v: Value)
        ensures
            v@ == text@,
    {
        Value { repr: text.to_owned() }
    }

    /// The textual rendering the value was built from.
    pub fn as_text(&self) -> (t: &str)
        ensures
            t@ == self@,
    {
        self.repr.as_str()
    }
}

impl Clone for Value {
    fn clone(&self) -> (res: Self)
        ensures
            res == *self,
    {
        Value { repr: self.repr.clone() }
    }
}

/// The opaque structured input of a call, owned by the caller and handed
/// whole to the handler.
#[derive(Debug, PartialEq, Eq)]
pub struct Params {
    value: Value,
}

impl View for Params {
    type V = Seq<char>;

    closed spec fn view(&self) -> Seq<char> {
        self.value@
    }
}

impl Params {
    /// Wraps a value as call input.
    pub fn new(value: Value) -> (p: Params)
        ensures
            p@ == value@,
    {
        Params { value }
    }

    /// Hands the call input back as a plain value.
    pub fn into_value(self) -> (v: Value)
        ensures
            v@ == self@,
    {
        self.value
    }
}

impl Clone for Params {
    fn clone(&self) -> (res: Self)
        ensures
            res == *self,
    {
        Params { value: self.value.clone() }
    }
}

/// A structured failure description, mutually exclusive with a successful
/// `Value`: a call's computation resolves to one or the other.
#[derive(Debug, PartialEq, Eq)]
pub struct Error {
    /// Numeric code classifying the failure.
    pub code: i64,
    /// Human-readable description of the failure.
    pub message: String,
}

impl Error {
    /// Builds an error from its code and message.
    pub fn new(code: i64, message: &str) -> (e: Error)
        ensures
            e.code == code,
            e.message@ == message@,
    {
        Error { code, message: message.to_owned() }
    }
}

impl Clone for Error {
    fn clone(&self) -> (res: Self)
        ensures
            res == *self,
    {
        Error { code: self.code, message: self.message.clone() }
    }
}

} // verus!
