//! The cursor itself.

use crate::endian::{big_endian, lemma_be_value_bound, lemma_pow256_widths, nibbles};
use crate::error::{outcome, text_outcome, BinaryFileReaderError, Failure};
use crate::window::Window;
use vstd::prelude::*;
use vstd::slice::{slice_subrange, slice_to_vec};
use vstd::utf8::*;

verus! {

/// A cursor over a borrowed byte buffer.
///
/// It reads from `current_offset` up to, but not including, `bound`. A
/// cursor split off from another borrows the same buffer and has a position
/// and an end of its own; no byte is ever copied to make one.
#[derive(Debug)]
pub struct BinaryFileReader<'a> {
    current_offset: usize,
    bound: usize,
    buf: &'a [u8],
}

impl<'a> View for BinaryFileReader<'a> {
    type V = Window;

    /// The cursor as a window. The position and the end are cut to the
    /// buffer, which makes the window well formed for every value of the
    /// type, also for one that exists in a proof only; on a cursor that runs
    /// nothing is cut, as the type's invariant shows.
    closed spec fn view(&self) -> Window {
        let len = self.buf@.len();
        let bound = if self.bound <= len {
            self.bound as nat
        } else {
            len
        };
        let offset = if self.current_offset <= bound {
            self.current_offset as nat
        } else {
            bound
        };
        Window { origin: self.buf@, offset, bound }
    }
}

/// What filling a buffer that held `before` from the window `w` gives: on
/// success the buffer holds the next bytes of the window, as many as it has
/// room for; on underflow it holds what it held.
pub open spec fn filled(
    w: Window,
    before: Seq<u8>,
    r: Result<(), BinaryFileReaderError>,
    after: Seq<u8>,
) -> bool {
    match w.bytes(before.len()) {
        Ok(run) => r is Ok && after == run,
        Err(f) => outcome(r) == Err::<(), Failure>(f) && after == before,
    }
}

impl<'a> BinaryFileReader<'a> {
    #[verifier::type_invariant]
    spec fn inv(self) -> bool {
        self.current_offset <= self.bound <= self.buf@.len()
    }

    /// Every cursor is a well-formed window.
    pub proof fn lemma_view_wf(&self)
        ensures
            self@.wf(),
    {
    }

    fn peek(&self, buffer: &mut [u8]) -> (r: Result<(), BinaryFileReaderError>)
        ensures
            filled(self@, old(buffer)@, r, final(buffer)@),
    {
        proof {
            use_type_invariant(self);
        }
        let n: usize = buffer.len();
        if n > self.available_bytes() {
            return Err(
                BinaryFileReaderError::BufferUnderflow {
                    requested_bytes: n,
                    current_offset: self.current_offset,
                    available_bytes: self.available_bytes(),
                },
            );
        }
        let start: usize = self.current_offset;
        let mut i: usize = 0;
        while i < n
            invariant
                i <= n,
                n == buffer@.len(),
                start == self.current_offset,
                start + n <= self.bound <= self.buf@.len(),
                forall|j: int| 0 <= j < i ==> buffer@[j] == self.buf@[start + j],
            decreases n - i,
        {
            buffer[i] = self.buf[start + i];
            i += 1;
        }
        assert(buffer@ =~= self@.ahead(n as nat));
        Ok(())
    }

    fn read(&mut self, buffer: &mut [u8]) -> (r: Result<(), BinaryFileReaderError>)
        ensures
            filled(old(self)@, old(buffer)@, r, final(buffer)@),
            final(self)@ == if r is Ok {
                old(self)@.advanced(old(buffer)@.len())
            } else {
                old(self)@
            },
    {
        proof {
            use_type_invariant(&*self);
        }
        self.peek(buffer)?;
        self.current_offset += buffer.len();
        Ok(())
    }
}

impl<'a> BinaryFileReader<'a> {
    /// A cursor over the whole of `buffer`, at its start.
    pub fn new(buffer: &'a [u8]) -> (r: Self)
        ensures
            r@ == (Window { origin: buffer@, offset: 0, bound: buffer@.len() }),
    {
        let current_offset: usize = 0;
        let bound: usize = buffer.len();
        Self { bound, current_offset, buf: buffer }
    }

    /// The index in the buffer of the next byte to be read.
    #[inline]
    pub fn current_offset(&self) -> (n: usize)
        ensures
            n == self@.offset,
    {
        proof {
            use_type_invariant(self);
        }
        self.current_offset
    }

    /// The number of bytes that can still be read.
    #[inline]
    pub fn available_bytes(&self) -> (n: usize)
        ensures
            n == self@.available(),
    {
        proof {
            use_type_invariant(self);
        }
        self.bound - self.current_offset
    }

    /// Reads one byte as its upper and lower four bits.
    pub fn read_u4(&mut self) -> (r: Result<(u8, u8), BinaryFileReaderError>)
        ensures
            outcome(r) == old(self)@.peek_u4(),
            final(self)@ == if r is Ok {
                old(self)@.advanced(1)
            } else {
                old(self)@
            },
    {
        let mut buffer = [0u8;1];
        self.read(&mut buffer)?;
        Ok(nibbles(buffer[0]))
    }

    /// Reads one byte.
    pub fn read_u8(&mut self) -> (r: Result<u8, BinaryFileReaderError>)
        ensures
            outcome(r) == old(self)@.peek_u8(),
            final(self)@ == if r is Ok {
                old(self)@.advanced(1)
            } else {
                old(self)@
            },
    {
        let mut buffer = [0u8;1];
        self.read(&mut buffer)?;
        Ok(buffer[0])
    }

    /// Reads two bytes as a big-endian number.
    pub fn read_u16(&mut self) -> (r: Result<u16, BinaryFileReaderError>)
        ensures
            outcome(r) == old(self)@.peek_u16(),
            final(self)@ == if r is Ok {
                old(self)@.advanced(2)
            } else {
                old(self)@
            },
    {
        let mut buffer = [0u8;2];
        self.read(&mut buffer)?;
        proof {
            lemma_be_value_bound(buffer@);
            lemma_pow256_widths();
        }
        Ok(big_endian(&buffer) as u16)
    }

    /// Reads four bytes as a big-endian number.
    pub fn read_u32(&mut self) -> (r: Result<u32, BinaryFileReaderError>)
        ensures
            outcome(r) == old(self)@.peek_u32(),
            final(self)@ == if r is Ok {
                old(self)@.advanced(4)
            } else {
                old(self)@
            },
    {
        let mut buffer = [0u8;4];
        self.read(&mut buffer)?;
        proof {
            lemma_be_value_bound(buffer@);
            lemma_pow256_widths();
        }
        Ok(big_endian(&buffer) as u32)
    }

    /// Reads eight bytes as a big-endian number.
    pub fn read_u64(&mut self) -> (r: Result<u64, BinaryFileReaderError>)
        ensures
            outcome(r) == old(self)@.peek_u64(),
            final(self)@ == if r is Ok {
                old(self)@.advanced(8)
            } else {
                old(self)@
            },
    {
        let mut buffer = [0u8;8];
        self.read(&mut buffer)?;
        proof {
            lemma_be_value_bound(buffer@);
            lemma_pow256_widths();
        }
        Ok(big_endian(&buffer) as u64)
    }

    /// Reads sixteen bytes as a big-endian number.
    pub fn read_u128(&mut self) -> (r: Result<u128, BinaryFileReaderError>)
        ensures
            outcome(r) == old(self)@.peek_u128(),
            final(self)@ == if r is Ok {
                old(self)@.advanced(16)
            } else {
                old(self)@
            },
    {
        let mut buffer = [0u8;16];
        self.read(&mut buffer)?;
        Ok(big_endian(&buffer))
    }

    /// Fills `buffer` with the next bytes, as many as it has room for, and
    /// moves past them. Where fewer bytes are left, nothing changes.
    pub fn read_bytes(&mut self, buffer: &mut [u8]) -> (r: Result<(), BinaryFileReaderError>)
        ensures
            filled(old(self)@, old(buffer)@, r, final(buffer)@),
            final(self)@ == if r is Ok {
                old(self)@.advanced(old(buffer)@.len())
            } else {
                old(self)@
            },
    {
        self.read(buffer)?;
        Ok(())
    }

    /// Reads the next `bytes` bytes as UTF-8 text. Where they are not UTF-8,
    /// nothing changes.
    pub fn read_utf8(&mut self, bytes: usize) -> (r: Result<&'a str, BinaryFileReaderError>)
        ensures
            text_outcome(r) == old(self)@.utf8(bytes as nat),
            final(self)@ == if r is Ok {
                old(self)@.advanced(bytes as nat)
            } else {
                old(self)@
            },
    {
        proof {
            use_type_invariant(&*self);
        }
        let result = self.peek_utf8(bytes)?;
        self.current_offset += bytes;
        Ok(result)
    }

    /// Shows one byte as its upper and lower four bits.
    pub fn peek_u4(&self) -> (r: Result<(u8, u8), BinaryFileReaderError>)
        ensures
            outcome(r) == self@.peek_u4(),
    {
        let mut buffer = [0u8;1];
        self.peek(&mut buffer)?;
        Ok(nibbles(buffer[0]))
    }

    /// Shows one byte.
    pub fn peek_u8(&self) -> (r: Result<u8, BinaryFileReaderError>)
        ensures
            outcome(r) == self@.peek_u8(),
    {
        let mut buffer = [0u8;1];
        self.peek(&mut buffer)?;
        Ok(buffer[0])
    }

    /// Shows two bytes as a big-endian number.
    pub fn peek_u16(&self) -> (r: Result<u16, BinaryFileReaderError>)
        ensures
            outcome(r) == self@.peek_u16(),
    {
        let mut buffer = [0u8;2];
        self.peek(&mut buffer)?;
        proof {
            lemma_be_value_bound(buffer@);
            lemma_pow256_widths();
        }
        Ok(big_endian(&buffer) as u16)
    }

    /// Shows four bytes as a big-endian number.
    pub fn peek_u32(&self) -> (r: Result<u32, BinaryFileReaderError>)
        ensures
            outcome(r) == self@.peek_u32(),
    {
        let mut buffer = [0u8;4];
        self.peek(&mut buffer)?;
        proof {
            lemma_be_value_bound(buffer@);
            lemma_pow256_widths();
        }
        Ok(big_endian(&buffer) as u32)
    }

    /// Shows eight bytes as a big-endian number.
    pub fn peek_u64(&self) -> (r: Result<u64, BinaryFileReaderError>)
        ensures
            outcome(r) == self@.peek_u64(),
    {
        let mut buffer = [0u8;8];
        self.peek(&mut buffer)?;
        proof {
            lemma_be_value_bound(buffer@);
            lemma_pow256_widths();
        }
        Ok(big_endian(&buffer) as u64)
    }

    /// Shows sixteen bytes as a big-endian number.
    pub fn peek_u128(&self) -> (r: Result<u128, BinaryFileReaderError>)
        ensures
            outcome(r) == self@.peek_u128(),
    {
        let mut buffer = [0u8;16];
        self.peek(&mut buffer)?;
        Ok(big_endian(&buffer))
    }

    /// Fills `buffer` with the next bytes, as many as it has room for,
    /// without moving. Where fewer bytes are left, `buffer` is not touched.
    pub fn peek_bytes(&self, buffer: &mut [u8]) -> (r: Result<(), BinaryFileReaderError>)
        ensures
            filled(self@, old(buffer)@, r, final(buffer)@),
    {
        self.peek(buffer)?;
        Ok(())
    }

    /// Shows the next `bytes` bytes as UTF-8 text.
    pub fn peek_utf8(&self, bytes: usize) -> (r: Result<&'a str, BinaryFileReaderError>)
        ensures
            text_outcome(r) == self@.utf8(bytes as nat),
    {
        proof {
            use_type_invariant(self);
        }
        if bytes > self.available_bytes() {
            return Err(
                BinaryFileReaderError::BufferUnderflow {
                    requested_bytes: bytes,
                    current_offset: self.current_offset,
                    available_bytes: self.available_bytes(),
                },
            );
        }
        let slice = slice_subrange(self.buf, self.current_offset, self.current_offset + bytes);
        match core::str::from_utf8(slice) {
            Ok(result) => Ok(result),
            Err(e) => Err(BinaryFileReaderError::from(e)),
        }
    }

    /// Checks that the next bytes are `expect_bytes` and moves past them.
    /// Where they are not, nothing changes.
    pub fn expect(&mut self, expect_bytes: &[u8]) -> (r: Result<(), BinaryFileReaderError>)
        ensures
            outcome(r) == old(self)@.expect(expect_bytes@),
            final(self)@ == if r is Ok {
                old(self)@.advanced(expect_bytes@.len())
            } else {
                old(self)@
            },
    {
        proof {
            use_type_invariant(&*self);
        }
        self.expect_peek(expect_bytes)?;
        self.current_offset += expect_bytes.len();
        Ok(())
    }

    /// Checks that the next bytes are the UTF-8 encoding of `expect_str` and
    /// moves past them. Where they are not, nothing changes.
    pub fn expect_utf8(&mut self, expect_str: &str) -> (r: Result<(), BinaryFileReaderError>)
        ensures
            outcome(r) == old(self)@.expect(encode_utf8(expect_str@)),
            final(self)@ == if r is Ok {
                old(self)@.advanced(encode_utf8(expect_str@).len())
            } else {
                old(self)@
            },
    {
        self.expect(expect_str.as_bytes())?;
        Ok(())
    }

    /// Checks that the next bytes are `expect_bytes`, without moving.
    pub fn expect_peek(&self, expect_bytes: &[u8]) -> (r: Result<(), BinaryFileReaderError>)
        ensures
            outcome(r) == self@.expect(expect_bytes@),
    {
        proof {
            use_type_invariant(self);
        }
        let n: usize = expect_bytes.len();
        if self.available_bytes() < n {
            let require = slice_to_vec(expect_bytes);
            return Err(
                BinaryFileReaderError::ExpectInsufficientBytes {
                    require,
                    available_bytes: self.available_bytes(),
                    current_offset: self.current_offset(),
                },
            );
        }
        let slice = slice_subrange(self.buf, self.current_offset, self.current_offset + n);
        let mut i: usize = 0;
        while i < n
            invariant
                i <= n,
                n == expect_bytes@.len(),
                slice@ == self@.ahead(n as nat),
                self@.available() >= n,
                forall|j: int| 0 <= j < i ==> expect_bytes@[j] == slice@[j],
            decreases n - i,
        {
            if expect_bytes[i] != slice[i] {
                let require = slice_to_vec(expect_bytes);
                let got = slice_to_vec(slice);
                return Err(
                    BinaryFileReaderError::Expect {
                        require,
                        got,
                        current_offset: self.current_offset(),
                        available_bytes: self.available_bytes(),
                    },
                );
            }
            i += 1;
        }
        assert(slice@ =~= expect_bytes@);
        Ok(())
    }

    /// Splits off the next `size` bytes as a cursor of their own and moves
    /// past them. Where fewer bytes are left, nothing changes.
    pub fn split_off_front(&mut self, size: usize) -> (r: Result<Self, BinaryFileReaderError>)
        ensures
            match r {
                Ok(child) => old(self)@.split(size as nat) == Ok::<_, Failure>(
                    (final(self)@, child@),
                ),
                Err(e) => old(self)@.split(size as nat) == Err::<(Window, Window), _>(e@)
                    && final(self)@ == old(self)@,
            },
    {
        proof {
            use_type_invariant(&*self);
        }
        if size > self.available_bytes() {
            return Err(
                BinaryFileReaderError::BufferUnderflow {
                    requested_bytes: size,
                    current_offset: self.current_offset,
                    available_bytes: self.available_bytes(),
                },
            );
        }
        let start: usize = self.current_offset;
        let new_offset: usize = self.current_offset + size;

        self.current_offset = new_offset;

        Ok(Self { current_offset: start, bound: new_offset, buf: self.buf })
    }

    /// Gives up the cursor for a copy of the bytes that were still to be
    /// read.
    pub fn take(self) -> (rest: Vec<u8>)
        ensures
            rest@ == self@.remaining(),
    {
        proof {
            use_type_invariant(&self);
        }
        slice_to_vec(slice_subrange(self.buf, self.current_offset, self.bound))
    }
}

impl<'a> Clone for BinaryFileReader<'a> {
    fn clone(&self) -> (copy: Self)
        ensures
            copy@ == self@,
    {
        proof {
            use_type_invariant(self);
        }
        BinaryFileReader {
            current_offset: self.current_offset,
            bound: self.bound,
            buf: self.buf,
        }
    }
}

} // verus!
