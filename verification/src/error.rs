use vstd::prelude::*;

verus! {

/// An error encountered while converting an attribute item into a typed
/// value. Each variant records the offending shape, literal kind, value or
/// field name as text, so that a caller can point at the exact problem.
#[derive(Debug, Clone, PartialEq, Eq)]
pub enum Error {
    /// The target type does not accept the presented item shape
    /// (bare word, list, or name-value pair).
    UnsupportedFormat(String),
    /// The target type does not accept the kind of literal presented.
    UnexpectedType(String),
    /// The literal had the right kind, but its content is not a value
    /// the target type knows.
    UnknownValue(String),
    /// The same field name appeared twice in one list.
    DuplicateField(String),
}

/// The mathematical shape of an [`Error`]: the same four variants over
/// sequences of characters.
pub enum ErrorV {
    UnsupportedFormat(Seq<char>),
    UnexpectedType(Seq<char>),
    UnknownValue(Seq<char>),
    DuplicateField(Seq<char>),
}

impl View for Error {
    type V = ErrorV;

    open spec fn view(&self) -> ErrorV {
        match self {
            Error::UnsupportedFormat(s) => ErrorV::UnsupportedFormat(s@),
            Error::UnexpectedType(s) => ErrorV::UnexpectedType(s@),
            Error::UnknownValue(s) => ErrorV::UnknownValue(s@),
            Error::DuplicateField(s) => ErrorV::DuplicateField(s@),
        }
    }
}

impl Error {
    /// The item's shape (word, list, or name-value pair) is not one the
    /// target type can be built from.
    pub fn unsupported_format(format: &str) -> (r: Error)
        ensures
            r@ == ErrorV::UnsupportedFormat(format@),
    {
        Error::UnsupportedFormat(format.to_owned())
    }

    /// The literal's kind (bool, string, char, ...) is not one the target
    /// type can be built from.
    pub fn unexpected_type(ty: &str) -> (r: Error)
        ensures
            r@ == ErrorV::UnexpectedType(ty@),
    {
        Error::UnexpectedType(ty.to_owned())
    }

    /// The literal's content is not a value the target type recognizes.
    pub fn unknown_value(value: &str) -> (r: Error)
        ensures
            r@ == ErrorV::UnknownValue(value@),
    {
        Error::UnknownValue(value.to_owned())
    }

    /// A field name occurred more than once in a single list.
    pub fn duplicate_field(name: &str) -> (r: Error)
        ensures
            r@ == ErrorV::DuplicateField(name@),
    {
        Error::DuplicateField(name.to_owned())
    }

    /// A short description of the error category, for diagnostics.
    pub fn description(&self) -> (r: &'static str)
        ensures
            r@ == match self@ {
                ErrorV::UnsupportedFormat(_) => "unsupported format"@,
                ErrorV::UnexpectedType(_) => "unexpected literal type"@,
                ErrorV::UnknownValue(_) => "unknown literal value"@,
                ErrorV::DuplicateField(_) => "duplicate field"@,
            },
    {
        match self {
            Error::UnsupportedFormat(_) => "unsupported format",
            Error::UnexpectedType(_) => "unexpected literal type",
            Error::UnknownValue(_) => "unknown literal value",
            Error::DuplicateField(_) => "duplicate field",
        }
    }
}

} // verus!
