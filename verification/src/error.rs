use vstd::prelude::*;

verus! {

/// Why a JSON value was refused.
#[derive(Clone, Copy, Debug, PartialEq, Eq)]
pub enum Reason {
    /// The object has no member of that name.
    Missing,
    /// An object was expected.
    NotObject,
    /// An array was expected.
    NotArray,
    /// A string was expected.
    NotText,
    /// An integer that fits 64 signed bits was expected.
    NotInteger,
    /// A number was expected.
    NotNumber,
    /// A number, or a string that spells one, was expected.
    NotFloatOrText,
    /// The number has no finite binary64 value.
    InvalidNumber,
    /// The string spells no finite number.
    NotNumericText,
    /// The string is no date and time; chrono's error is attached.
    Timestamp(chrono::ParseError),
}

/// Where in a document a value stands, from the outside in.
#[derive(Debug, PartialEq, Eq)]
pub enum Path {
    /// The value itself.
    Here,
    /// Below the member of that name.
    Key(&'static str, Box<Path>),
    /// Below the array element of that index.
    Index(usize, Box<Path>),
}

/// A refused value: where it stands and why it was refused.
#[derive(Debug, PartialEq, Eq)]
pub struct FieldError {
    pub path: Path,
    pub reason: Reason,
}

impl FieldError {
    /// The refusal of the value at hand.
    pub open spec fn here(reason: Reason) -> FieldError {
        FieldError { path: Path::Here, reason }
    }

    /// The same refusal seen from the object that holds the value under `key`.
    pub open spec fn under_key(self, key: &'static str) -> FieldError {
        FieldError { path: Path::Key(key, Box::new(self.path)), reason: self.reason }
    }

    /// The same refusal seen from the array that holds the value at `index`.
    pub open spec fn under_index(self, index: usize) -> FieldError {
        FieldError { path: Path::Index(index, Box::new(self.path)), reason: self.reason }
    }

    /// Refuses the value at hand.
    pub fn at(reason: Reason) -> (r: FieldError)
        ensures
            r == FieldError::here(reason),
    {
        FieldError { path: Path::Here, reason }
    }

    /// Moves a refusal out to the object that holds the value under `key`.
    pub fn in_key(self, key: &'static str) -> (r: FieldError)
        ensures
            r == self.under_key(key),
    {
        FieldError { path: Path::Key(key, Box::new(self.path)), reason: self.reason }
    }

    /// Moves a refusal out to the array that holds the value at `index`.
    pub fn in_index(self, index: usize) -> (r: FieldError)
        ensures
            r == self.under_index(index),
    {
        FieldError { path: Path::Index(index, Box::new(self.path)), reason: self.reason }
    }
}

/// Why a response body gave no orders.
#[derive(Debug)]
pub enum DecodeError {
    /// The body is not JSON; serde_json's error is attached.
    Syntax(serde_json::Error),
    /// The body is JSON of another shape than a list of orders.
    Field(FieldError),
}

} // verus!
