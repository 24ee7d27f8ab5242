//! Small verified text helpers: string-slice equality, and rendering of
//! numbers as decimal and fixed-width hexadecimal text.

use vstd::prelude::*;
use vstd::string::StringExecFns;

verus! {

broadcast use vstd::string::group_string_axioms;

/// The character for one decimal digit value.
pub open spec fn spec_digit_char(d: nat) -> char {
    if d == 0 {
        '0'
    } else if d == 1 {
        '1'
    } else if d == 2 {
        '2'
    } else if d == 3 {
        '3'
    } else if d == 4 {
        '4'
    } else if d == 5 {
        '5'
    } else if d == 6 {
        '6'
    } else if d == 7 {
        '7'
    } else if d == 8 {
        '8'
    } else {
        '9'
    }
}

/// The decimal rendering of a number, most significant digit first, with no
/// leading zeroes (zero itself is "0").
pub open spec fn spec_dec(n: nat) -> Seq<char>
    decreases n,
{
    if n < 10 {
        seq![spec_digit_char(n)]
    } else {
        spec_dec(n / 10) + seq![spec_digit_char(n % 10)]
    }
}

/// The character for one hexadecimal digit value, lower case.
pub open spec fn spec_hex_char(d: nat) -> char {
    if d < 10 {
        spec_digit_char(d)
    } else if d == 10 {
        'a'
    } else if d == 11 {
        'b'
    } else if d == 12 {
        'c'
    } else if d == 13 {
        'd'
    } else if d == 14 {
        'e'
    } else {
        'f'
    }
}

/// The hexadecimal rendering of a number at a fixed width, zero padded,
/// most significant digit first.
pub open spec fn spec_hex_fixed(n: nat, width: nat) -> Seq<char>
    decreases width,
{
    if width == 0 {
        Seq::empty()
    } else {
        spec_hex_fixed(n / 16, (width - 1) as nat) + seq![spec_hex_char(n % 16)]
    }
}

/// Whether two string slices hold the same characters.
pub fn str_eq(a: &str, b: &str) -> (r: bool)
    ensures
        r == (a@ == b@),
{
    let sa = String::from_str(a);
    let sb = String::from_str(b);
    sa == sb
}

/// Append the character of one decimal digit value.
fn append_digit(s: &mut String, d: u32)
    requires
        d < 10,
    ensures
        final(s)@ == old(s)@ + seq![spec_digit_char(d as nat)],
{
    let lit: &str = if d == 0 {
        "0"
    } else if d == 1 {
        "1"
    } else if d == 2 {
        "2"
    } else if d == 3 {
        "3"
    } else if d == 4 {
        "4"
    } else if d == 5 {
        "5"
    } else if d == 6 {
        "6"
    } else if d == 7 {
        "7"
    } else if d == 8 {
        "8"
    } else {
        "9"
    };
    proof {
        reveal_strlit("0");
        reveal_strlit("1");
        reveal_strlit("2");
        reveal_strlit("3");
        reveal_strlit("4");
        reveal_strlit("5");
        reveal_strlit("6");
        reveal_strlit("7");
        reveal_strlit("8");
        reveal_strlit("9");
        assert(lit@ =~= seq![spec_digit_char(d as nat)]);
    }
    s.append(lit);
}

/// Append the character of one hexadecimal digit value, lower case.
fn append_hex_digit(s: &mut String, d: u32)
    requires
        d < 16,
    ensures
        final(s)@ == old(s)@ + seq![spec_hex_char(d as nat)],
{
    if d < 10 {
        append_digit(s, d);
    } else {
        let lit: &str = if d == 10 {
            "a"
        } else if d == 11 {
            "b"
        } else if d == 12 {
            "c"
        } else if d == 13 {
            "d"
        } else if d == 14 {
            "e"
        } else {
            "f"
        };
        proof {
            reveal_strlit("a");
            reveal_strlit("b");
            reveal_strlit("c");
            reveal_strlit("d");
            reveal_strlit("e");
            reveal_strlit("f");
            assert(lit@ =~= seq![spec_hex_char(d as nat)]);
        }
        s.append(lit);
    }
}

/// Append the decimal rendering of a number.
pub fn push_dec(s: &mut String, n: u32)
    ensures
        final(s)@ == old(s)@ + spec_dec(n as nat),
    decreases n,
{
    if n >= 10 {
        push_dec(s, n / 10);
    }
    append_digit(s, n % 10);
    proof {
        assert(s@ =~= old(s)@ + spec_dec(n as nat));
    }
}

/// The decimal rendering of a number as a fresh string.
pub fn u32_to_dec(n: u32) -> (s: String)
    ensures
        s@ == spec_dec(n as nat),
{
    let mut s = String::new();
    push_dec(&mut s, n);
    proof {
        assert(s@ =~= spec_dec(n as nat));
    }
    s
}

/// Append the hexadecimal rendering of a number at a fixed digit width.
pub fn push_hex_fixed(s: &mut String, n: u32, width: u32)
    requires
        width <= 8,
    ensures
        final(s)@ == old(s)@ + spec_hex_fixed(n as nat, width as nat),
    decreases width,
{
    if width > 0 {
        push_hex_fixed(s, n / 16, width - 1);
        append_hex_digit(s, n % 16);
    }
    proof {
        assert(s@ =~= old(s)@ + spec_hex_fixed(n as nat, width as nat));
    }
}

} // verus!
