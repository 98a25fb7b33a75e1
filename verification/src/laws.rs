//! What holds of every window, proved from the definitions in
//! [`crate::window`].

use crate::error::Failure;
use crate::window::Window;
use vstd::prelude::*;

verus! {

/// Consuming `m` bytes that are there keeps a window well formed, moves its
/// position forward by exactly `m`, never moves its end, and adds up:
/// consuming `m` and then `n` bytes is consuming `m + n`.
pub proof fn advancing_keeps_order(w: Window, m: nat, n: nat)
    requires
        w.wf(),
        m + n <= w.available(),
    ensures
        w.advanced(m).wf(),
        w.advanced(m).offset == w.offset + m,
        w.advanced(m).bound == w.bound,
        w.advanced(m).origin == w.origin,
        w.advanced(m).available() == w.available() - m,
        w.advanced(m).remaining() == w.remaining().skip(m as int),
        w.advanced(m).advanced(n) == w.advanced(m + n),
{
}

/// A split that succeeds cuts the readable bytes in two without losing or
/// sharing any: the part split off holds the first `n` of them and ends where
/// the rest begins, the rest holds the others. Once the part split off has
/// been read to its end, asking it for one more byte is an underflow of one
/// byte with none available.
pub proof fn split_parts_are_disjoint(w: Window, n: nat)
    requires
        w.wf(),
        n <= w.available(),
    ensures
        w.split(n) == Ok::<(Window, Window), Failure>((w.advanced(n), w.front(n))),
        w.advanced(n).wf(),
        w.front(n).wf(),
        w.advanced(n).available() == w.available() - n,
        w.front(n).available() == n,
        w.front(n).offset == w.offset,
        w.front(n).bound == w.advanced(n).offset,
        w.front(n).remaining() == w.remaining().take(n as int),
        w.advanced(n).remaining() == w.remaining().skip(n as int),
        w.front(n).remaining() + w.advanced(n).remaining() == w.remaining(),
        w.front(n).advanced(n).available() == 0,
        w.front(n).advanced(n).peek_u8() == Err::<u8, Failure>(
            Failure::BufferUnderflow {
                requested_bytes: 1,
                current_offset: w.offset + n,
                available_bytes: 0,
            },
        ),
{
}

/// After a split the two parts go their own ways. However many bytes `j` the
/// part split off has consumed and however many bytes `k` the rest has
/// consumed, the position of each is its own start plus its own count, what
/// each can still read is its own share of the bytes, and the part split off
/// still ends before the rest begins.
pub proof fn split_parts_are_independent(w: Window, n: nat, j: nat, k: nat)
    requires
        w.wf(),
        n <= w.available(),
        j <= n,
        k <= w.available() - n,
    ensures
        w.front(n).advanced(j).wf(),
        w.advanced(n).advanced(k).wf(),
        w.front(n).advanced(j).offset == w.offset + j,
        w.advanced(n).advanced(k).offset == w.offset + n + k,
        w.front(n).advanced(j).bound <= w.advanced(n).advanced(k).offset,
        w.front(n).advanced(j).remaining() == w.remaining().subrange(j as int, n as int),
        w.advanced(n).advanced(k).remaining() == w.remaining().skip((n + k) as int),
{
}

/// Asking for one byte more than is available is an underflow that names the
/// count asked for, the position and the count available, whether the bytes
/// are asked as a run, as text or as a part to split off. Asking for exactly
/// what is available gives all the readable bytes and leaves none.
pub proof fn underflow_boundary(w: Window)
    requires
        w.wf(),
    ensures
        w.bytes(w.available() + 1) == Err::<Seq<u8>, Failure>(
            Failure::BufferUnderflow {
                requested_bytes: w.available() + 1,
                current_offset: w.offset,
                available_bytes: w.available(),
            },
        ),
        w.utf8(w.available() + 1) == Err::<Seq<char>, Failure>(
            w.underflow(w.available() + 1),
        ),
        w.split(w.available() + 1) == Err::<(Window, Window), Failure>(
            w.underflow(w.available() + 1),
        ),
        w.bytes(w.available()) == Ok::<Seq<u8>, Failure>(w.remaining()),
        w.advanced(w.available()).available() == 0,
{
}

/// A number of fixed width is read exactly where that many bytes are left.
pub proof fn fixed_width_boundary(w: Window)
    requires
        w.wf(),
    ensures
        w.peek_u4() is Ok <==> w.available() >= 1,
        w.peek_u8() is Ok <==> w.available() >= 1,
        w.peek_u16() is Ok <==> w.available() >= 2,
        w.peek_u32() is Ok <==> w.available() >= 4,
        w.peek_u64() is Ok <==> w.available() >= 8,
        w.peek_u128() is Ok <==> w.available() >= 16,
        w.peek_u4() is Err ==> w.peek_u4() == Err::<(u8, u8), Failure>(w.underflow(1)),
        w.peek_u8() is Err ==> w.peek_u8() == Err::<u8, Failure>(w.underflow(1)),
        w.peek_u16() is Err ==> w.peek_u16() == Err::<u16, Failure>(w.underflow(2)),
        w.peek_u32() is Err ==> w.peek_u32() == Err::<u32, Failure>(w.underflow(4)),
        w.peek_u64() is Err ==> w.peek_u64() == Err::<u64, Failure>(w.underflow(8)),
        w.peek_u128() is Err ==> w.peek_u128() == Err::<u128, Failure>(w.underflow(16)),
{
}

/// A pattern is met exactly where the next bytes, as many as the pattern has,
/// are the pattern; asking for that many bytes as a run then gives the
/// pattern itself. Where as many bytes are left but differ, the failure
/// carries the whole pattern and the whole run that was found in its place;
/// where fewer are left, it carries the pattern and the count available.
pub proof fn expect_is_exact(w: Window, pattern: Seq<u8>)
    requires
        w.wf(),
    ensures
        w.expect(pattern) is Ok <==> w.bytes(pattern.len()) == Ok::<Seq<u8>, Failure>(pattern),
        w.expect(pattern) is Ok <==> pattern.len() <= w.available() && w.ahead(pattern.len())
            == pattern,
        pattern.len() <= w.available() && w.ahead(pattern.len()) != pattern ==> w.expect(pattern)
            == Err::<(), Failure>(
            Failure::Expect {
                require: pattern,
                got: w.ahead(pattern.len()),
                available_bytes: w.available(),
                current_offset: w.offset,
            },
        ),
        pattern.len() > w.available() ==> w.expect(pattern) == Err::<(), Failure>(
            Failure::ExpectInsufficientBytes {
                require: pattern,
                available_bytes: w.available(),
                current_offset: w.offset,
            },
        ),
{
}

} // verus!
