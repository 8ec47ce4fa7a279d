use vstd::prelude::*;

verus! {

/// Why a value could not be read from a byte buffer.
#[derive(Debug, PartialEq, Eq, Hash, Clone)]
pub enum DecodeError {
    /// The buffer ends before the value does.
    Incomplete,
    /// The bytes do not form a value of the type; the text says why.
    Invalid(String),
}

/// A `DecodeError` with its text as a sequence of characters.
pub enum DecodeErrorView {
    Incomplete,
    Invalid(Seq<char>),
}

impl View for DecodeError {
    type V = DecodeErrorView;

    open spec fn view(&self) -> DecodeErrorView {
        match self {
            DecodeError::Incomplete => DecodeErrorView::Incomplete,
            DecodeError::Invalid(text) => DecodeErrorView::Invalid(text@),
        }
    }
}

/// Why a value could not be written to a byte buffer.
#[derive(Debug, PartialEq, Eq, Hash, Clone)]
pub enum EncodeError {
    /// The value cannot be written; the text says why.
    Invalid(String),
}

/// An `EncodeError` with its text as a sequence of characters.
pub enum EncodeErrorView {
    Invalid(Seq<char>),
}

impl View for EncodeError {
    type V = EncodeErrorView;

    open spec fn view(&self) -> EncodeErrorView {
        match self {
            EncodeError::Invalid(text) => EncodeErrorView::Invalid(text@),
        }
    }
}

/// The text of a decode error as it is shown to a person.
pub open spec fn decode_error_text(e: DecodeErrorView) -> Seq<char> {
    match e {
        DecodeErrorView::Incomplete => "Decode Error: Incomplete input"@,
        DecodeErrorView::Invalid(cause) => "Decode Error: Invalid value for data type: "@ + cause,
    }
}

impl DecodeError {
    /// The text of the error as it is shown to a person.
    pub fn to_string(&self) -> (s: String)
        ensures
            s@ == decode_error_text(self@),
    {
        match self {
            DecodeError::Incomplete => String::from_str("Decode Error: Incomplete input"),
            DecodeError::Invalid(cause) => {
                let s = String::from_str("Decode Error: Invalid value for data type: ");
                s.concat(cause.as_str())
            },
        }
    }
}

/// What a failed integer conversion says of itself.
pub open spec fn conversion_text(value: core::num::TryFromIntError, text: String) -> bool {
    vstd::string::to_string_from_display_ensures::<core::num::TryFromIntError>(&value, text)
}

impl From<core::num::TryFromIntError> for DecodeError {
    /// An `Invalid` error that carries the conversion's own text.
    fn from(value: core::num::TryFromIntError) -> (r: DecodeError)
        ensures
            r matches DecodeError::Invalid(text) && conversion_text(value, text),
    {
        DecodeError::Invalid(value.to_string())
    }
}

impl vstd::std_specs::convert::FromSpecImpl<core::num::TryFromIntError> for DecodeError {
    open spec fn obeys_from_spec() -> bool {
        false
    }

    closed spec fn from_spec(value: core::num::TryFromIntError) -> DecodeError {
        arbitrary()
    }
}

impl From<core::num::TryFromIntError> for EncodeError {
    /// An `Invalid` error that carries `TryFromIntError: ` and the
    /// conversion's own text.
    fn from(value: core::num::TryFromIntError) -> (r: EncodeError)
        ensures
            r matches EncodeError::Invalid(text) && exists|cause: String|
                conversion_text(value, cause) && text@ == "TryFromIntError: "@ + cause@,
    {
        let cause = value.to_string();
        assert(conversion_text(value, cause));
        let text = String::from_str("TryFromIntError: ").concat(cause.as_str());
        assert(text@ == "TryFromIntError: "@ + cause@);
        EncodeError::Invalid(text)
    }
}

impl vstd::std_specs::convert::FromSpecImpl<core::num::TryFromIntError> for EncodeError {
    open spec fn obeys_from_spec() -> bool {
        false
    }

    closed spec fn from_spec(value: core::num::TryFromIntError) -> EncodeError {
        arbitrary()
    }
}

} // verus!
