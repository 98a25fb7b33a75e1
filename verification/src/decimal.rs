//! Numbers and byte lists as text, for failure messages.

use vstd::prelude::*;
use vstd::string::*;

verus! {

/// The character for one decimal digit.
pub open spec fn digit(d: nat) -> char
    recommends
        d < 10,
{
    if d == 0 {
        '0'
    } else if d == 1 {
        '1'
    } else if d == 2 {
        '2'
    } else if d == 3 {
        '3'
    } else if d == 4 {
        '4'
    } else if d == 5 {
        '5'
    } else if d == 6 {
        '6'
    } else if d == 7 {
        '7'
    } else if d == 8 {
        '8'
    } else {
        '9'
    }
}

/// `n` in decimal, without leading zeros.
pub open spec fn decimal(n: nat) -> Seq<char>
    decreases n,
{
    if n < 10 {
        seq![digit(n)]
    } else {
        decimal(n / 10).push(digit(n % 10))
    }
}

/// The numbers of `bytes` in decimal, separated by a comma and a space.
pub open spec fn listed(bytes: Seq<u8>) -> Seq<char>
    decreases bytes.len(),
{
    if bytes.len() == 0 {
        Seq::empty()
    } else if bytes.len() == 1 {
        decimal(bytes[0] as nat)
    } else {
        listed(bytes.drop_last()) + seq![',', ' '] + decimal(bytes.last() as nat)
    }
}

/// `bytes` as a list in square brackets, such as `[1, 2, 3]`.
pub open spec fn bracketed(bytes: Seq<u8>) -> Seq<char> {
    seq!['['] + listed(bytes) + seq![']']
}

fn digit_text(d: usize) -> (text: &'static str)
    requires
        d < 10,
    ensures
        text@ == seq![digit(d as nat)],
{
    proof {
        reveal_strlit("0");
        reveal_strlit("1");
        reveal_strlit("2");
        reveal_strlit("3");
        reveal_strlit("4");
        reveal_strlit("5");
        reveal_strlit("6");
        reveal_strlit("7");
        reveal_strlit("8");
        reveal_strlit("9");
    }
    if d == 0 {
        "0"
    } else if d == 1 {
        "1"
    } else if d == 2 {
        "2"
    } else if d == 3 {
        "3"
    } else if d == 4 {
        "4"
    } else if d == 5 {
        "5"
    } else if d == 6 {
        "6"
    } else if d == 7 {
        "7"
    } else if d == 8 {
        "8"
    } else {
        "9"
    }
}

/// Appends `n` in decimal to `text`.
pub(crate) fn push_decimal(text: &mut String, n: usize)
    ensures
        final(text)@ == old(text)@ + decimal(n as nat),
    decreases n,
{
    if n >= 10 {
        push_decimal(text, n / 10);
    }
    text.append(digit_text(n % 10));
}

/// Appends `bytes` as a bracketed list to `text`.
pub(crate) fn push_bracketed(text: &mut String, bytes: &[u8])
    ensures
        final(text)@ == old(text)@ + bracketed(bytes@),
{
    proof {
        reveal_strlit("[");
        reveal_strlit("]");
    }
    text.append("[");
    let n: usize = bytes.len();
    let mut i: usize = 0;
    while i < n
        invariant
            i <= n,
            n == bytes@.len(),
            text@ == old(text)@ + seq!['['] + listed(bytes@.take(i as int)),
        decreases n - i,
    {
        proof {
            reveal_strlit(", ");
            let before = bytes@.take(i as int);
            let after = bytes@.take(i + 1);
            assert(after.drop_last() =~= before);
        }
        if i > 0 {
            text.append(", ");
        }
        push_decimal(text, bytes[i] as usize);
        i += 1;
    }
    assert(bytes@.take(n as int) =~= bytes@);
    text.append("]");
}

} // verus!
