//! Shared helpers for reading dates out of character and byte runs.
//!
//! The filename patterns and the embedded-metadata text both store a
//! date as fixed-width runs of ASCII digits; these are the pieces they
//! share: digit tests and the value of a digit run.

use vstd::prelude::*;

verus! {

/// An ASCII decimal digit character.
pub open spec fn is_ascii_digit(c: char) -> bool {
    '0' <= c && c <= '9'
}

/// An ASCII decimal digit byte.
pub open spec fn is_digit_byte(b: u8) -> bool {
    48 <= b && b <= 57
}

/// The value of a run of ASCII digit characters, most significant first.
pub open spec fn digits_val(s: Seq<char>) -> int
    decreases s.len(),
{
    if s.len() == 0 {
        0
    } else {
        digits_val(s.drop_last()) * 10 + (s.last() as int - '0' as int)
    }
}

/// The value of a run of ASCII digit bytes, most significant first.
pub open spec fn bytes_val(s: Seq<u8>) -> int
    decreases s.len(),
{
    if s.len() == 0 {
        0
    } else {
        bytes_val(s.drop_last()) * 10 + (s.last() - 48)
    }
}

/// A four-character digit run spelled out.
pub proof fn lemma_digits_val4(q: Seq<char>)
    requires
        q.len() == 4,
    ensures
        digits_val(q) == (q[0] as int - '0' as int) * 1000 + (q[1] as int - '0' as int) * 100 + (
        q[2] as int - '0' as int) * 10 + (q[3] as int - '0' as int),
{
    let q3 = q.drop_last();
    let q2 = q3.drop_last();
    let q1 = q2.drop_last();
    let q0 = q1.drop_last();
    assert(q0.len() == 0);
    assert(digits_val(q0) == 0);
    assert(q1.last() == q[0] && q2.last() == q[1] && q3.last() == q[2] && q.last() == q[3]);
    assert(digits_val(q1) == q[0] as int - '0' as int);
    assert(digits_val(q2) == digits_val(q1) * 10 + (q[1] as int - '0' as int));
    assert(digits_val(q3) == digits_val(q2) * 10 + (q[2] as int - '0' as int));
}

/// A two-character digit run spelled out.
pub proof fn lemma_digits_val2(q: Seq<char>)
    requires
        q.len() == 2,
    ensures
        digits_val(q) == (q[0] as int - '0' as int) * 10 + (q[1] as int - '0' as int),
{
    let q1 = q.drop_last();
    let q0 = q1.drop_last();
    assert(q0.len() == 0);
    assert(digits_val(q0) == 0);
    assert(q1.last() == q[0] && q.last() == q[1]);
    assert(digits_val(q1) == q[0] as int - '0' as int);
}

/// A four-byte digit run spelled out.
pub proof fn lemma_bytes_val4(q: Seq<u8>)
    requires
        q.len() == 4,
    ensures
        bytes_val(q) == (q[0] - 48) * 1000 + (q[1] - 48) * 100 + (q[2] - 48) * 10 + (q[3] - 48),
{
    let q3 = q.drop_last();
    let q2 = q3.drop_last();
    let q1 = q2.drop_last();
    let q0 = q1.drop_last();
    assert(q0.len() == 0);
    assert(bytes_val(q0) == 0);
    assert(q1.last() == q[0] && q2.last() == q[1] && q3.last() == q[2] && q.last() == q[3]);
    assert(bytes_val(q1) == q[0] - 48);
    assert(bytes_val(q2) == bytes_val(q1) * 10 + (q[1] - 48));
    assert(bytes_val(q3) == bytes_val(q2) * 10 + (q[2] - 48));
}

/// A two-byte digit run spelled out.
pub proof fn lemma_bytes_val2(q: Seq<u8>)
    requires
        q.len() == 2,
    ensures
        bytes_val(q) == (q[0] - 48) * 10 + (q[1] - 48),
{
    let q1 = q.drop_last();
    let q0 = q1.drop_last();
    assert(q0.len() == 0);
    assert(bytes_val(q0) == 0);
    assert(q1.last() == q[0] && q.last() == q[1]);
    assert(bytes_val(q1) == q[0] - 48);
}

/// The value of a digit character, or `None` for anything else.
pub fn digit_value(c: char) -> (r: Option<u8>)
    ensures
        r is Some <==> is_ascii_digit(c),
        r matches Some(d) ==> d as int == c as int - '0' as int && d < 10,
{
    if c >= '0' && c <= '9' {
        Some(((c as u32) - ('0' as u32)) as u8)
    } else {
        None
    }
}

/// The value of the digit at `i` of `s`; callers must know one stands
/// there.
pub fn digit_at(s: &str, i: usize) -> (d: u8)
    requires
        i < s@.len(),
        is_ascii_digit(s@[i as int]),
    ensures
        d as int == s@[i as int] as int - '0' as int,
        d < 10,
{
    match digit_value(s.get_char(i)) {
        Some(d) => d,
        None => {
            proof {
                assert(false);
            }
            0
        },
    }
}

} // verus!
