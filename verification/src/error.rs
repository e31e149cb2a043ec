//! The error taxonomy: one closed type wrapping transport faults, text-encoding
//! faults, numeric-parse faults, and invalid-indication-variant faults, each
//! kept intact so the caller can still tell them apart.
use vstd::prelude::*;

verus! {

use vstd::string::StringExecFns;

/// A fault reported by the serial transport, mapped from the transport's own
/// fault codes by the layer that owns the port.
#[derive(Debug, PartialEq, Eq, Copy, Clone, Structural)]
pub enum SerialFault {
    Framing,
    Noise,
    Overrun,
    Parity,
    BufferTooLong,
    Other,
}

/// A byte sequence that is not valid UTF-8; `valid_up_to` counts the bytes of
/// the longest well-formed prefix.
#[derive(Debug, PartialEq, Eq, Copy, Clone, Structural)]
pub struct Utf8Error {
    pub valid_up_to: usize,
}

/// A decimal field that does not parse as an unsigned integer.
#[derive(Debug, PartialEq, Eq, Copy, Clone, Structural)]
pub enum ParseIntError {
    /// The field was empty.
    Empty,
    /// A byte outside `0`..=`9` (after an optional leading `+`).
    InvalidDigit,
    /// The value does not fit the target integer width.
    PosOverflow,
}

/// An enumerated status code outside the indication's fixed set: carries the
/// indication's wire tag and the raw offending bytes.
#[derive(Debug, PartialEq, Eq, Clone)]
pub struct InvalidVariantError(pub String, pub Vec<u8>);

impl View for InvalidVariantError {
    type V = (Seq<char>, Seq<u8>);

    open spec fn view(&self) -> (Seq<char>, Seq<u8>) {
        (self.0@, self.1@)
    }
}

/// Mathematical image of an [`Error`] value.
pub enum ErrorView {
    Serial(SerialFault),
    Utf8(Utf8Error),
    ParseInt(ParseIntError),
    InvalidVariant(Seq<char>, Seq<u8>),
}

/// The single error surface of the protocol engine.  Wraps each failure kind
/// without losing its identity.
#[derive(Debug, PartialEq, Eq, Clone)]
pub enum Error {
    /// A transport-layer fault.
    Serial(SerialFault),
    /// Invalid UTF-8 inside a recognized indication's parameters.
    Utf8Error(Utf8Error),
    /// A malformed decimal field inside a recognized indication's parameters.
    ParseIntError(ParseIntError),
    /// An enumerated status byte outside the indication's fixed set.
    InvalidVariantError(InvalidVariantError),
}

impl View for Error {
    type V = ErrorView;

    open spec fn view(&self) -> ErrorView {
        match self {
            Error::Serial(f) => ErrorView::Serial(*f),
            Error::Utf8Error(e) => ErrorView::Utf8(*e),
            Error::ParseIntError(e) => ErrorView::ParseInt(*e),
            Error::InvalidVariantError(e) => ErrorView::InvalidVariant(e.0@, e.1@),
        }
    }
}

impl From<SerialFault> for Error {
    fn from(value: SerialFault) -> (r: Error) {
        Error::Serial(value)
    }
}

impl vstd::std_specs::convert::FromSpecImpl<SerialFault> for Error {
    open spec fn obeys_from_spec() -> bool {
        true
    }

    open spec fn from_spec(value: SerialFault) -> Error {
        Error::Serial(value)
    }
}

impl From<Utf8Error> for Error {
    fn from(value: Utf8Error) -> (r: Error) {
        Error::Utf8Error(value)
    }
}

impl vstd::std_specs::convert::FromSpecImpl<Utf8Error> for Error {
    open spec fn obeys_from_spec() -> bool {
        true
    }

    open spec fn from_spec(value: Utf8Error) -> Error {
        Error::Utf8Error(value)
    }
}

impl From<ParseIntError> for Error {
    fn from(value: ParseIntError) -> (r: Error) {
        Error::ParseIntError(value)
    }
}

impl vstd::std_specs::convert::FromSpecImpl<ParseIntError> for Error {
    open spec fn obeys_from_spec() -> bool {
        true
    }

    open spec fn from_spec(value: ParseIntError) -> Error {
        Error::ParseIntError(value)
    }
}

impl From<InvalidVariantError> for Error {
    fn from(value: InvalidVariantError) -> (r: Error) {
        Error::InvalidVariantError(value)
    }
}

impl vstd::std_specs::convert::FromSpecImpl<InvalidVariantError> for Error {
    open spec fn obeys_from_spec() -> bool {
        true
    }

    open spec fn from_spec(value: InvalidVariantError) -> Error {
        Error::InvalidVariantError(value)
    }
}

impl Error {
    /// A short human-readable description of the failure kind.
    pub fn message(&self) -> (r: String)
        ensures
            match self@ {
                ErrorView::Serial(SerialFault::Framing) => r@ == "serial framing error"@,
                ErrorView::Serial(SerialFault::Noise) => r@ == "serial noise error"@,
                ErrorView::Serial(SerialFault::Overrun) => r@ == "serial overrun error"@,
                ErrorView::Serial(SerialFault::Parity) => r@ == "serial parity error"@,
                ErrorView::Serial(SerialFault::BufferTooLong) => r@ == "serial buffer overflow"@,
                ErrorView::Serial(SerialFault::Other) => r@ == "serial error"@,
                ErrorView::Utf8(_) => r@ == "invalid utf-8 in parameters"@,
                ErrorView::ParseInt(_) => r@ == "invalid decimal field"@,
                ErrorView::InvalidVariant(tag, _) => r@ == "invalid variant for "@ + tag,
            },
    {
        match self {
            Error::Serial(SerialFault::Framing) => String::from_str("serial framing error"),
            Error::Serial(SerialFault::Noise) => String::from_str("serial noise error"),
            Error::Serial(SerialFault::Overrun) => String::from_str("serial overrun error"),
            Error::Serial(SerialFault::Parity) => String::from_str("serial parity error"),
            Error::Serial(SerialFault::BufferTooLong) => String::from_str("serial buffer overflow"),
            Error::Serial(SerialFault::Other) => String::from_str("serial error"),
            Error::Utf8Error(_) => String::from_str("invalid utf-8 in parameters"),
            Error::ParseIntError(_) => String::from_str("invalid decimal field"),
            Error::InvalidVariantError(e) => {
                let mut m = String::from_str("invalid variant for ");
                m.append(e.0.as_str());
                m
            },
        }
    }
}

} // verus!
