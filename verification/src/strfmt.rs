//! Verified rendering of integers as decimal and hexadecimal text, the way
//! the device model's record strings need them.

use vstd::prelude::*;

verus! {

/// The character for one digit value below sixteen, lower case.
pub open spec fn spec_digit_lower(d: nat) -> char {
    if d == 0 {
        '0'
    } else if d == 1 {
        '1'
    } else if d == 2 {
        '2'
    } else if d == 3 {
        '3'
    } else if d == 4 {
        '4'
    } else if d == 5 {
        '5'
    } else if d == 6 {
        '6'
    } else if d == 7 {
        '7'
    } else if d == 8 {
        '8'
    } else if d == 9 {
        '9'
    } else if d == 10 {
        'a'
    } else if d == 11 {
        'b'
    } else if d == 12 {
        'c'
    } else if d == 13 {
        'd'
    } else if d == 14 {
        'e'
    } else {
        'f'
    }
}

/// The character for one digit value below sixteen, upper case.
pub open spec fn spec_digit_upper(d: nat) -> char {
    if d == 10 {
        'A'
    } else if d == 11 {
        'B'
    } else if d == 12 {
        'C'
    } else if d == 13 {
        'D'
    } else if d == 14 {
        'E'
    } else if d == 15 {
        'F'
    } else {
        spec_digit_lower(d)
    }
}

/// The decimal digits of `n`, most significant first.
pub open spec fn spec_dec_digits(n: nat) -> Seq<char>
    decreases n,
{
    if n < 10 {
        seq![spec_digit_lower(n)]
    } else {
        spec_dec_digits(n / 10) + seq![spec_digit_lower(n % 10)]
    }
}

/// The lower-case hexadecimal digits of `n`, most significant first.
pub open spec fn spec_hex_digits(n: nat) -> Seq<char>
    decreases n,
{
    if n < 16 {
        seq![spec_digit_lower(n)]
    } else {
        spec_hex_digits(n / 16) + seq![spec_digit_lower(n % 16)]
    }
}

/// The upper-case hexadecimal digits of `n`, most significant first.
pub open spec fn spec_hex_digits_upper(n: nat) -> Seq<char>
    decreases n,
{
    if n < 16 {
        seq![spec_digit_upper(n)]
    } else {
        spec_hex_digits_upper(n / 16) + seq![spec_digit_upper(n % 16)]
    }
}

/// Lower-case hexadecimal with the `0x` prefix.
pub open spec fn spec_hex_alt(n: nat) -> Seq<char> {
    seq!['0', 'x'] + spec_hex_digits(n)
}

/// Upper-case hexadecimal digits behind the (lower-case) `0x` prefix.
pub open spec fn spec_hex_alt_upper(n: nat) -> Seq<char> {
    seq!['0', 'x'] + spec_hex_digits_upper(n)
}

/// The unsigned 32-bit pattern that stores a signed value.
pub open spec fn spec_i32_bits(n: int) -> u32 {
    if n >= 0 {
        n as u32
    } else {
        (n + 0x1_0000_0000) as u32
    }
}

/// The unsigned 16-bit pattern that stores a signed value.
pub open spec fn spec_i16_bits(n: int) -> u16 {
    if n >= 0 {
        n as u16
    } else {
        (n + 0x1_0000) as u16
    }
}

/// A signed value in decimal: a minus sign before the magnitude.
pub open spec fn spec_i32_dec(n: int) -> Seq<char> {
    if n < 0 {
        seq!['-'] + spec_dec_digits((-n) as nat)
    } else {
        spec_dec_digits(n as nat)
    }
}

fn digit_lower_str(d: u32) -> (r: &'static str)
    requires
        d < 16,
    ensures
        r@ == seq![spec_digit_lower(d as nat)],
{
    if d == 0 {
        proof {
            reveal_strlit("0");
            assert(("0")@ =~= seq!['0']);
        }
        "0"
    } else if d == 1 {
        proof {
            reveal_strlit("1");
            assert(("1")@ =~= seq!['1']);
        }
        "1"
    } else if d == 2 {
        proof {
            reveal_strlit("2");
            assert(("2")@ =~= seq!['2']);
        }
        "2"
    } else if d == 3 {
        proof {
            reveal_strlit("3");
            assert(("3")@ =~= seq!['3']);
        }
        "3"
    } else if d == 4 {
        proof {
            reveal_strlit("4");
            assert(("4")@ =~= seq!['4']);
        }
        "4"
    } else if d == 5 {
        proof {
            reveal_strlit("5");
            assert(("5")@ =~= seq!['5']);
        }
        "5"
    } else if d == 6 {
        proof {
            reveal_strlit("6");
            assert(("6")@ =~= seq!['6']);
        }
        "6"
    } else if d == 7 {
        proof {
            reveal_strlit("7");
            assert(("7")@ =~= seq!['7']);
        }
        "7"
    } else if d == 8 {
        proof {
            reveal_strlit("8");
            assert(("8")@ =~= seq!['8']);
        }
        "8"
    } else if d == 9 {
        proof {
            reveal_strlit("9");
            assert(("9")@ =~= seq!['9']);
        }
        "9"
    } else if d == 10 {
        proof {
            reveal_strlit("a");
            assert(("a")@ =~= seq!['a']);
        }
        "a"
    } else if d == 11 {
        proof {
            reveal_strlit("b");
            assert(("b")@ =~= seq!['b']);
        }
        "b"
    } else if d == 12 {
        proof {
            reveal_strlit("c");
            assert(("c")@ =~= seq!['c']);
        }
        "c"
    } else if d == 13 {
        proof {
            reveal_strlit("d");
            assert(("d")@ =~= seq!['d']);
        }
        "d"
    } else if d == 14 {
        proof {
            reveal_strlit("e");
            assert(("e")@ =~= seq!['e']);
        }
        "e"
    } else {
        proof {
            reveal_strlit("f");
            assert(("f")@ =~= seq!['f']);
        }
        "f"
    }
}

fn digit_upper_str(d: u32) -> (r: &'static str)
    requires
        d < 16,
    ensures
        r@ == seq![spec_digit_upper(d as nat)],
{
    if d == 10 {
        proof {
            reveal_strlit("A");
            assert(("A")@ =~= seq!['A']);
        }
        "A"
    } else if d == 11 {
        proof {
            reveal_strlit("B");
            assert(("B")@ =~= seq!['B']);
        }
        "B"
    } else if d == 12 {
        proof {
            reveal_strlit("C");
            assert(("C")@ =~= seq!['C']);
        }
        "C"
    } else if d == 13 {
        proof {
            reveal_strlit("D");
            assert(("D")@ =~= seq!['D']);
        }
        "D"
    } else if d == 14 {
        proof {
            reveal_strlit("E");
            assert(("E")@ =~= seq!['E']);
        }
        "E"
    } else if d == 15 {
        proof {
            reveal_strlit("F");
            assert(("F")@ =~= seq!['F']);
        }
        "F"
    } else {
        digit_lower_str(d)
    }
}

/// `n` in decimal.
pub fn u32_dec_string(n: u32) -> (r: String)
    ensures
        r@ == spec_dec_digits(n as nat),
    decreases n,
{
    if n < 10 {
        String::from_str(digit_lower_str(n))
    } else {
        let mut s = u32_dec_string(n / 10);
        s.append(digit_lower_str(n % 10));
        s
    }
}

fn u32_hex_digits(n: u32) -> (r: String)
    ensures
        r@ == spec_hex_digits(n as nat),
    decreases n,
{
    if n < 16 {
        String::from_str(digit_lower_str(n))
    } else {
        let mut s = u32_hex_digits(n / 16);
        s.append(digit_lower_str(n % 16));
        s
    }
}

fn u32_hex_digits_upper(n: u32) -> (r: String)
    ensures
        r@ == spec_hex_digits_upper(n as nat),
    decreases n,
{
    if n < 16 {
        String::from_str(digit_upper_str(n))
    } else {
        let mut s = u32_hex_digits_upper(n / 16);
        s.append(digit_upper_str(n % 16));
        s
    }
}

/// `n` in lower-case hexadecimal with the `0x` prefix.
pub fn u32_hex_string(n: u32) -> (r: String)
    ensures
        r@ == spec_hex_alt(n as nat),
{
    proof {
        reveal_strlit("0x");
        assert(("0x")@ =~= seq!['0', 'x']);
    }
    let mut s = String::from_str("0x");
    let digits = u32_hex_digits(n);
    s.append(digits.as_str());
    s
}

/// `n` in upper-case hexadecimal with the `0x` prefix.
pub fn u32_hex_upper_string(n: u32) -> (r: String)
    ensures
        r@ == spec_hex_alt_upper(n as nat),
{
    proof {
        reveal_strlit("0x");
        assert(("0x")@ =~= seq!['0', 'x']);
    }
    let mut s = String::from_str("0x");
    let digits = u32_hex_digits_upper(n);
    s.append(digits.as_str());
    s
}

/// The unsigned 16-bit pattern that stores `n`.
pub fn i16_bits(n: i16) -> (r: u16)
    ensures
        r == spec_i16_bits(n as int),
{
    if n >= 0 {
        n as u16
    } else {
        ((n as i32) + 0x1_0000) as u16
    }
}

/// The unsigned 32-bit pattern that stores `n`.
pub fn i32_bits(n: i32) -> (r: u32)
    ensures
        r == spec_i32_bits(n as int),
{
    if n >= 0 {
        n as u32
    } else {
        ((n as i64) + 0x1_0000_0000) as u32
    }
}

/// `n` in decimal, with a minus sign when negative.
pub fn i32_dec_string(n: i32) -> (r: String)
    ensures
        r@ == spec_i32_dec(n as int),
{
    if n >= 0 {
        u32_dec_string(n as u32)
    } else {
        proof {
            reveal_strlit("-");
            assert(("-")@ =~= seq!['-']);
        }
        let magnitude: u32 = (-(n as i64)) as u32;
        let mut s = String::from_str("-");
        let digits = u32_dec_string(magnitude);
        s.append(digits.as_str());
        s
    }
}

/// `n`'s 32-bit pattern in lower-case hexadecimal with the `0x` prefix,
/// the way signed values print in hexadecimal.
pub fn i32_hex_string(n: i32) -> (r: String)
    ensures
        r@ == spec_hex_alt(spec_i32_bits(n as int) as nat),
{
    u32_hex_string(i32_bits(n))
}

/// `n`'s 32-bit pattern in upper-case hexadecimal with the `0x` prefix.
pub fn i32_hex_upper_string(n: i32) -> (r: String)
    ensures
        r@ == spec_hex_alt_upper(spec_i32_bits(n as int) as nat),
{
    u32_hex_upper_string(i32_bits(n))
}

} // verus!
