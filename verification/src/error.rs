//! The ways in which reading can fail.

use crate::decimal::{bracketed, decimal, push_bracketed, push_decimal};
use core::str::Utf8Error;
use vstd::prelude::*;
use vstd::string::*;

verus! {

/// `std::io::Error`, the standard library's I/O failure. Nothing is known of
/// its contents here; it is only carried.
#[verifier::external_type_specification]
#[verifier::external_body]
pub struct ExIoError(std::io::Error);

/// A failed operation, with what was asked and what was there.
#[derive(Debug)]
#[allow(inconsistent_fields)]
pub enum BinaryFileReaderError {
    /// The buffer could not be obtained.
    IO(std::io::Error),
    /// The bytes asked for as text are not UTF-8.
    Utf8Error(Utf8Error),
    /// Fewer bytes are left than were asked for.
    BufferUnderflow { requested_bytes: usize, current_offset: usize, available_bytes: usize },
    /// Fewer bytes are left than the expected pattern has.
    ExpectInsufficientBytes { require: Vec<u8>, available_bytes: usize, current_offset: usize },
    /// The next bytes differ from the expected pattern.
    Expect { require: Vec<u8>, got: Vec<u8>, available_bytes: usize, current_offset: usize },
    /// An index lies outside a buffer.
    OutOfRange { buffer_size: usize, got: usize },
}

/// The mathematical content of a [`BinaryFileReaderError`].
#[allow(inconsistent_fields)]
pub enum Failure {
    IO(std::io::Error),
    Utf8Error(Utf8Error),
    BufferUnderflow { requested_bytes: nat, current_offset: nat, available_bytes: nat },
    ExpectInsufficientBytes { require: Seq<u8>, available_bytes: nat, current_offset: nat },
    Expect { require: Seq<u8>, got: Seq<u8>, available_bytes: nat, current_offset: nat },
    OutOfRange { buffer_size: nat, got: nat },
}

impl View for BinaryFileReaderError {
    type V = Failure;

    open spec fn view(&self) -> Failure {
        match *self {
            BinaryFileReaderError::IO(cause) => Failure::IO(cause),
            BinaryFileReaderError::Utf8Error(cause) => Failure::Utf8Error(cause),
            BinaryFileReaderError::BufferUnderflow {
                requested_bytes,
                current_offset,
                available_bytes,
            } => Failure::BufferUnderflow {
                requested_bytes: requested_bytes as nat,
                current_offset: current_offset as nat,
                available_bytes: available_bytes as nat,
            },
            BinaryFileReaderError::ExpectInsufficientBytes {
                require,
                available_bytes,
                current_offset,
            } => Failure::ExpectInsufficientBytes {
                require: require@,
                available_bytes: available_bytes as nat,
                current_offset: current_offset as nat,
            },
            BinaryFileReaderError::Expect { require, got, available_bytes, current_offset } => {
                Failure::Expect {
                    require: require@,
                    got: got@,
                    available_bytes: available_bytes as nat,
                    current_offset: current_offset as nat,
                }
            },
            BinaryFileReaderError::OutOfRange { buffer_size, got } => Failure::OutOfRange {
                buffer_size: buffer_size as nat,
                got: got as nat,
            },
        }
    }
}

/// A result with its failure, if any, taken by its content.
pub open spec fn outcome<T>(r: Result<T, BinaryFileReaderError>) -> Result<T, Failure> {
    match r {
        Ok(value) => Ok(value),
        Err(e) => Err(e@),
    }
}

/// A text result with the text taken as its characters and the failure, if
/// any, by its content.
pub open spec fn text_outcome(r: Result<&str, BinaryFileReaderError>) -> Result<
    Seq<char>,
    Failure,
> {
    match r {
        Ok(text) => Ok(text@),
        Err(e) => Err(e@),
    }
}

/// Whether `cause` is the text that the failure wrapped in `e` displays as;
/// for an `e` that wraps none, whether `cause` is empty.
pub open spec fn is_cause_of(cause: String, e: BinaryFileReaderError) -> bool {
    match e {
        BinaryFileReaderError::IO(inner) => to_string_from_display_ensures::<std::io::Error>(
            &inner,
            cause,
        ),
        BinaryFileReaderError::Utf8Error(inner) => to_string_from_display_ensures::<Utf8Error>(
            &inner,
            cause,
        ),
        _ => cause@ == Seq::<char>::empty(),
    }
}

impl Failure {
    /// The message for this failure. `cause` is the text of the wrapped
    /// failure and matters only where there is one.
    pub open spec fn text(self, cause: Seq<char>) -> Seq<char> {
        match self {
            Failure::IO(_) => "IO error: "@ + cause,
            Failure::Utf8Error(_) => "Utf8Error: "@ + cause,
            Failure::BufferUnderflow { requested_bytes, current_offset, available_bytes } => {
                "Buffer underflow: requested "@ + decimal(requested_bytes) + " bytes at offset "@
                    + decimal(current_offset) + ", but only "@ + decimal(available_bytes)
                    + " bytes are available"@
            },
            Failure::ExpectInsufficientBytes { require, available_bytes, current_offset } => {
                "Expectation failed: required "@ + bracketed(require) + ", but only "@ + decimal(
                    available_bytes,
                ) + " bytes are available at offset "@ + decimal(current_offset)
            },
            Failure::Expect { require, got, available_bytes, current_offset } => {
                "Expectation failed: required "@ + bracketed(require) + ", got "@ + bracketed(got)
                    + ", available bytes: "@ + decimal(available_bytes) + ", offset: "@ + decimal(
                    current_offset,
                )
            },
            Failure::OutOfRange { buffer_size, got } => {
                "Out of range error: attempted to access index "@ + decimal(got)
                    + " in a buffer of size "@ + decimal(buffer_size)
            },
        }
    }
}

impl From<std::io::Error> for BinaryFileReaderError {
    fn from(value: std::io::Error) -> (e: Self) {
        BinaryFileReaderError::IO(value)
    }
}

impl vstd::std_specs::convert::FromSpecImpl<std::io::Error> for BinaryFileReaderError {
    open spec fn obeys_from_spec() -> bool {
        true
    }

    open spec fn from_spec(value: std::io::Error) -> Self {
        BinaryFileReaderError::IO(value)
    }
}

impl From<Utf8Error> for BinaryFileReaderError {
    fn from(value: Utf8Error) -> (e: Self) {
        BinaryFileReaderError::Utf8Error(value)
    }
}

impl vstd::std_specs::convert::FromSpecImpl<Utf8Error> for BinaryFileReaderError {
    open spec fn obeys_from_spec() -> bool {
        true
    }

    open spec fn from_spec(value: Utf8Error) -> Self {
        BinaryFileReaderError::Utf8Error(value)
    }
}

impl BinaryFileReaderError {
    /// The message for this failure, given the text of the failure it wraps.
    /// For a kind that wraps none, `cause` is not used.
    pub fn describe(&self, cause: &str) -> (text: String)
        ensures
            text@ == self@.text(cause@),
    {
        match self {
            BinaryFileReaderError::IO(_) => {
                let mut text = String::from_str("IO error: ");
                text.append(cause);
                text
            },
            BinaryFileReaderError::Utf8Error(_) => {
                let mut text = String::from_str("Utf8Error: ");
                text.append(cause);
                text
            },
            BinaryFileReaderError::BufferUnderflow {
                requested_bytes,
                current_offset,
                available_bytes,
            } => {
                let mut text = String::from_str("Buffer underflow: requested ");
                push_decimal(&mut text, *requested_bytes);
                text.append(" bytes at offset ");
                push_decimal(&mut text, *current_offset);
                text.append(", but only ");
                push_decimal(&mut text, *available_bytes);
                text.append(" bytes are available");
                text
            },
            BinaryFileReaderError::ExpectInsufficientBytes {
                require,
                available_bytes,
                current_offset,
            } => {
                let mut text = String::from_str("Expectation failed: required ");
                push_bracketed(&mut text, require.as_slice());
                text.append(", but only ");
                push_decimal(&mut text, *available_bytes);
                text.append(" bytes are available at offset ");
                push_decimal(&mut text, *current_offset);
                text
            },
            BinaryFileReaderError::Expect { require, got, available_bytes, current_offset } => {
                let mut text = String::from_str("Expectation failed: required ");
                push_bracketed(&mut text, require.as_slice());
                text.append(", got ");
                push_bracketed(&mut text, got.as_slice());
                text.append(", available bytes: ");
                push_decimal(&mut text, *available_bytes);
                text.append(", offset: ");
                push_decimal(&mut text, *current_offset);
                text
            },
            BinaryFileReaderError::OutOfRange { buffer_size, got } => {
                let mut text = String::from_str("Out of range error: attempted to access index ");
                push_decimal(&mut text, *got);
                text.append(" in a buffer of size ");
                push_decimal(&mut text, *buffer_size);
                text
            },
        }
    }

    /// The message for this failure. Where it wraps a failure of the standard
    /// library, the message ends with the text that this failure displays as.
    pub fn message(&self) -> (text: String)
        ensures
            exists|cause: String| is_cause_of(cause, *self) && text@ == self@.text(cause@),
    {
        let cause = match self {
            BinaryFileReaderError::IO(e) => e.to_string(),
            BinaryFileReaderError::Utf8Error(e) => e.to_string(),
            _ => String::new(),
        };
        assert(is_cause_of(cause, *self));
        self.describe(cause.as_str())
    }
}

} // verus!
