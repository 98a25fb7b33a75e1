//! The mathematical model of a cursor.
//!
//! A cursor is a position and an end inside a byte buffer. What a read, a
//! peek, a pattern check or a split returns is a function of these three
//! alone, and is defined here.

use crate::endian::{be_value, high_nibble, low_nibble};
use crate::error::Failure;
use crate::utf8::utf8_failure;
use vstd::prelude::*;
use vstd::utf8::*;

verus! {

/// A cursor as a value: the buffer it lies in, where the next read begins and
/// where its readable part ends.
pub struct Window {
    /// The whole backing buffer, shared with every window split off from a
    /// common ancestor.
    pub origin: Seq<u8>,
    /// Index in `origin` of the next byte to be read.
    pub offset: nat,
    /// Index in `origin` just past the last readable byte.
    pub bound: nat,
}

impl Window {
    /// The position is not past the end, and the end is inside the buffer.
    pub open spec fn wf(self) -> bool {
        self.offset <= self.bound <= self.origin.len()
    }

    /// The number of bytes that can still be read.
    pub open spec fn available(self) -> nat {
        (self.bound - self.offset) as nat
    }

    /// The bytes that can still be read.
    pub open spec fn remaining(self) -> Seq<u8> {
        self.origin.subrange(self.offset as int, self.bound as int)
    }

    /// The next `n` bytes.
    pub open spec fn ahead(self, n: nat) -> Seq<u8>
        recommends
            n <= self.available(),
    {
        self.origin.subrange(self.offset as int, (self.offset + n) as int)
    }

    /// This window after `n` bytes were consumed.
    pub open spec fn advanced(self, n: nat) -> Window
        recommends
            n <= self.available(),
    {
        Window { origin: self.origin, offset: self.offset + n, bound: self.bound }
    }

    /// The window that covers only the next `n` bytes.
    pub open spec fn front(self, n: nat) -> Window
        recommends
            n <= self.available(),
    {
        Window { origin: self.origin, offset: self.offset, bound: self.offset + n }
    }

    /// The failure of asking for `n` bytes where fewer are left.
    pub open spec fn underflow(self, n: nat) -> Failure {
        Failure::BufferUnderflow {
            requested_bytes: n,
            current_offset: self.offset,
            available_bytes: self.available(),
        }
    }

    /// Asking for a run of `n` bytes: the next `n` bytes, or an underflow
    /// where fewer are left.
    pub open spec fn bytes(self, n: nat) -> Result<Seq<u8>, Failure> {
        if n <= self.available() {
            Ok(self.ahead(n))
        } else {
            Err(self.underflow(n))
        }
    }

    /// Asking for one byte.
    pub open spec fn peek_u8(self) -> Result<u8, Failure> {
        match self.bytes(1) {
            Ok(run) => Ok(run[0]),
            Err(f) => Err(f),
        }
    }

    /// Asking for one byte as its upper and lower four bits.
    pub open spec fn peek_u4(self) -> Result<(u8, u8), Failure> {
        match self.bytes(1) {
            Ok(run) => Ok((high_nibble(run[0]), low_nibble(run[0]))),
            Err(f) => Err(f),
        }
    }

    /// Asking for two bytes as a big-endian number.
    pub open spec fn peek_u16(self) -> Result<u16, Failure> {
        match self.bytes(2) {
            Ok(run) => Ok(be_value(run) as u16),
            Err(f) => Err(f),
        }
    }

    /// Asking for four bytes as a big-endian number.
    pub open spec fn peek_u32(self) -> Result<u32, Failure> {
        match self.bytes(4) {
            Ok(run) => Ok(be_value(run) as u32),
            Err(f) => Err(f),
        }
    }

    /// Asking for eight bytes as a big-endian number.
    pub open spec fn peek_u64(self) -> Result<u64, Failure> {
        match self.bytes(8) {
            Ok(run) => Ok(be_value(run) as u64),
            Err(f) => Err(f),
        }
    }

    /// Asking for sixteen bytes as a big-endian number.
    pub open spec fn peek_u128(self) -> Result<u128, Failure> {
        match self.bytes(16) {
            Ok(run) => Ok(be_value(run) as u128),
            Err(f) => Err(f),
        }
    }

    /// Asking for `n` bytes as text: an underflow where fewer are left, the
    /// decoding failure where the bytes are not UTF-8, else the characters
    /// that they encode.
    pub open spec fn utf8(self, n: nat) -> Result<Seq<char>, Failure> {
        match self.bytes(n) {
            Ok(run) => if valid_utf8(run) {
                Ok(decode_utf8(run))
            } else {
                Err(Failure::Utf8Error(utf8_failure(run)))
            },
            Err(f) => Err(f),
        }
    }

    /// Checking the next bytes against `pattern`: too few bytes, a mismatch
    /// reported with both runs in full, or success.
    pub open spec fn expect(self, pattern: Seq<u8>) -> Result<(), Failure> {
        if self.available() < pattern.len() {
            Err(
                Failure::ExpectInsufficientBytes {
                    require: pattern,
                    available_bytes: self.available(),
                    current_offset: self.offset,
                },
            )
        } else if self.ahead(pattern.len()) != pattern {
            Err(
                Failure::Expect {
                    require: pattern,
                    got: self.ahead(pattern.len()),
                    available_bytes: self.available(),
                    current_offset: self.offset,
                },
            )
        } else {
            Ok(())
        }
    }

    /// Splitting off the next `n` bytes: the window that is left and the
    /// window that was split off, or an underflow where fewer are left.
    pub open spec fn split(self, n: nat) -> Result<(Window, Window), Failure> {
        if n <= self.available() {
            Ok((self.advanced(n), self.front(n)))
        } else {
            Err(self.underflow(n))
        }
    }
}

} // verus!
