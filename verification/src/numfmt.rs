//! Verified decimal formatting: numbers and byte lists rendered exactly as
//! the error messages print them.

use vstd::prelude::*;

verus! {

/// The character of one decimal digit.
pub open spec fn digit_char(d: int) -> char
    recommends
        0 <= d <= 9,
{
    if d == 0 {
        '0'
    } else if d == 1 {
        '1'
    } else if d == 2 {
        '2'
    } else if d == 3 {
        '3'
    } else if d == 4 {
        '4'
    } else if d == 5 {
        '5'
    } else if d == 6 {
        '6'
    } else if d == 7 {
        '7'
    } else if d == 8 {
        '8'
    } else {
        '9'
    }
}

/// The decimal digit string of a natural number, most significant digit
/// first, without leading zeros (except for zero itself).
pub open spec fn dec_digits(n: nat) -> Seq<char>
    decreases n,
{
    if n < 10 {
        seq![digit_char(n as int)]
    } else {
        dec_digits(n / 10) + seq![digit_char((n % 10) as int)]
    }
}

/// The decimal string of an integer, with a leading minus sign when
/// negative.
pub open spec fn dec_int(n: int) -> Seq<char> {
    if n < 0 {
        seq!['-'] + dec_digits((-n) as nat)
    } else {
        dec_digits(n as nat)
    }
}

/// The numeric value of one digit character.
pub open spec fn char_digit(c: char) -> nat
    recommends
        '0' <= c <= '9',
{
    (c as int - 48) as nat
}

/// The numeric value of a string of decimal digits, most significant digit
/// first.
pub open spec fn dec_value(s: Seq<char>) -> nat
    decreases s.len(),
{
    if s.len() == 0 {
        0
    } else {
        dec_value(s.drop_last()) * 10 + char_digit(s.last())
    }
}

/// One decimal digit as a string slice.
fn digit_str(d: u64) -> (r: &'static str)
    requires
        d <= 9,
    ensures
        r@ == seq![digit_char(d as int)],
{
    proof {
        reveal_strlit("0");
        reveal_strlit("1");
        reveal_strlit("2");
        reveal_strlit("3");
        reveal_strlit("4");
        reveal_strlit("5");
        reveal_strlit("6");
        reveal_strlit("7");
        reveal_strlit("8");
        reveal_strlit("9");
    }
    let r = if d == 0 {
        "0"
    } else if d == 1 {
        "1"
    } else if d == 2 {
        "2"
    } else if d == 3 {
        "3"
    } else if d == 4 {
        "4"
    } else if d == 5 {
        "5"
    } else if d == 6 {
        "6"
    } else if d == 7 {
        "7"
    } else if d == 8 {
        "8"
    } else {
        "9"
    };
    proof {
        assert(r@ =~= seq![digit_char(d as int)]);
    }
    r
}

/// Renders an unsigned number in decimal.
pub fn u64_to_string(n: u64) -> (r: String)
    ensures
        r@ == dec_digits(n as nat),
    decreases n,
{
    if n < 10 {
        String::from_str(digit_str(n))
    } else {
        let mut s = u64_to_string(n / 10);
        s.append(digit_str(n % 10));
        s
    }
}

/// Renders a signed number in decimal, with a minus sign when negative.
pub fn i64_to_string(n: i64) -> (r: String)
    ensures
        r@ == dec_int(n as int),
    decreases n,
{
    if n >= 0 {
        u64_to_string(n as u64)
    } else {
        let mag: u64 = if n == i64::MIN {
            9223372036854775808u64
        } else {
            (-n) as u64
        };
        proof {
            assert(mag as nat == (-(n as int)) as nat);
        }
        let mut s = String::from_str("-");
        proof {
            reveal_strlit("-");
            assert(s@ =~= seq!['-']);
        }
        let digits = u64_to_string(mag);
        s.append(digits.as_str());
        s
    }
}

/// Renders a signed 32-bit number in decimal.
pub fn i32_to_string(n: i32) -> (r: String)
    ensures
        r@ == dec_int(n as int),
{
    i64_to_string(n as i64)
}

/// Relies on `String::push`: appends exactly one character.
#[verifier::external_body]
pub fn push_char(s: &mut String, c: char)
    ensures
        final(s)@ == old(s)@ + seq![c],
{
    s.push(c);
}

/// The comma-separated decimal renderings of the bytes from index `i` on.
pub open spec fn byte_list_tail(bs: Seq<u8>, i: int) -> Seq<char>
    decreases bs.len() - i,
{
    if i < 0 || i >= bs.len() {
        Seq::empty()
    } else if i + 1 < bs.len() {
        dec_digits(bs[i] as nat) + seq![',', ' '] + byte_list_tail(bs, i + 1)
    } else {
        dec_digits(bs[i] as nat)
    }
}

/// A byte sequence rendered like a debug-printed list: `[47, 0]`.
pub open spec fn byte_list_str(bs: Seq<u8>) -> Seq<char> {
    seq!['['] + byte_list_tail(bs, 0) + seq![']']
}

/// Renders a byte vector like a debug-printed list.
pub fn bytes_to_list_string(bs: &Vec<u8>) -> (r: String)
    ensures
        r@ == byte_list_str(bs@),
{
    let mut s = String::from_str("[");
    proof {
        reveal_strlit("[");
        assert(s@ =~= seq!['[']);
    }
    let n = bs.len();
    let mut i: usize = n;
    let mut tail = String::new();
    while i > 0
        invariant
            0 <= i <= bs@.len(),
            tail@ == byte_list_tail(bs@, i as int),
        decreases i,
    {
        i = i - 1;
        let mut part = u64_to_string(bs[i] as u64);
        if i + 1 < bs.len() {
            part.append(", ");
            proof {
                reveal_strlit(", ");
                assert(part@ =~= dec_digits(bs@[i as int] as nat) + seq![',', ' ']);
            }
        }
        part.append(tail.as_str());
        tail = part;
        proof {
            assert(tail@ =~= byte_list_tail(bs@, i as int));
        }
    }
    s.append(tail.as_str());
    s.append("]");
    proof {
        reveal_strlit("]");
        assert(s@ =~= byte_list_str(bs@));
    }
    s
}

} // verus!
