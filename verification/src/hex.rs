//! Hexadecimal rendering of machine words, used by the debug rendering of an
//! encoded pointer.

use vstd::prelude::*;
use vstd::string::StringExecFns;

verus! {

/// The lowercase hexadecimal digit for a value below 16.
pub open spec fn nibble_char_lower(d: nat) -> char
    recommends
        d < 16,
{
    if d == 0 {
        '0'
    } else if d == 1 {
        '1'
    } else if d == 2 {
        '2'
    } else if d == 3 {
        '3'
    } else if d == 4 {
        '4'
    } else if d == 5 {
        '5'
    } else if d == 6 {
        '6'
    } else if d == 7 {
        '7'
    } else if d == 8 {
        '8'
    } else if d == 9 {
        '9'
    } else if d == 10 {
        'a'
    } else if d == 11 {
        'b'
    } else if d == 12 {
        'c'
    } else if d == 13 {
        'd'
    } else if d == 14 {
        'e'
    } else {
        'f'
    }
}

/// The uppercase hexadecimal digit for a value below 16.
pub open spec fn nibble_char_upper(d: nat) -> char
    recommends
        d < 16,
{
    if d < 10 {
        nibble_char_lower(d)
    } else if d == 10 {
        'A'
    } else if d == 11 {
        'B'
    } else if d == 12 {
        'C'
    } else if d == 13 {
        'D'
    } else if d == 14 {
        'E'
    } else {
        'F'
    }
}

/// The lowercase hexadecimal digits of `n`, most significant first, with no
/// leading zeros; `0` renders as a single `'0'`.
pub open spec fn hex_seq_lower(n: nat) -> Seq<char>
    decreases n,
{
    if n < 16 {
        seq![nibble_char_lower(n)]
    } else {
        hex_seq_lower(n / 16) + seq![nibble_char_lower(n % 16)]
    }
}

/// The uppercase hexadecimal digits of `n % 16^width`, most significant
/// first, zero-padded to exactly `width` digits.
pub open spec fn hex_seq_upper_padded(n: nat, width: nat) -> Seq<char>
    decreases width,
{
    if width == 0 {
        Seq::empty()
    } else {
        hex_seq_upper_padded(n / 16, (width - 1) as nat) + seq![nibble_char_upper(n % 16)]
    }
}

/// The lowercase hexadecimal digit of a value below 16, as a string slice.
pub fn hex_digit_lower(d: usize) -> (r: &'static str)
    requires
        d < 16,
    ensures
        r@ == seq![nibble_char_lower(d as nat)],
{
    let r: &'static str = if d == 0 {
        "0"
    } else if d == 1 {
        "1"
    } else if d == 2 {
        "2"
    } else if d == 3 {
        "3"
    } else if d == 4 {
        "4"
    } else if d == 5 {
        "5"
    } else if d == 6 {
        "6"
    } else if d == 7 {
        "7"
    } else if d == 8 {
        "8"
    } else if d == 9 {
        "9"
    } else if d == 10 {
        "a"
    } else if d == 11 {
        "b"
    } else if d == 12 {
        "c"
    } else if d == 13 {
        "d"
    } else if d == 14 {
        "e"
    } else {
        "f"
    };
    proof {
        reveal_strlit("0");
        reveal_strlit("1");
        reveal_strlit("2");
        reveal_strlit("3");
        reveal_strlit("4");
        reveal_strlit("5");
        reveal_strlit("6");
        reveal_strlit("7");
        reveal_strlit("8");
        reveal_strlit("9");
        reveal_strlit("a");
        reveal_strlit("b");
        reveal_strlit("c");
        reveal_strlit("d");
        reveal_strlit("e");
        reveal_strlit("f");
        assert(r@ =~= seq![nibble_char_lower(d as nat)]);
    }
    r
}

/// The uppercase hexadecimal digit of a value below 16, as a string slice.
pub fn hex_digit_upper(d: usize) -> (r: &'static str)
    requires
        d < 16,
    ensures
        r@ == seq![nibble_char_upper(d as nat)],
{
    if d < 10 {
        hex_digit_lower(d)
    } else {
        let r: &'static str = if d == 10 {
            "A"
        } else if d == 11 {
            "B"
        } else if d == 12 {
            "C"
        } else if d == 13 {
            "D"
        } else if d == 14 {
            "E"
        } else {
            "F"
        };
        proof {
            reveal_strlit("A");
            reveal_strlit("B");
            reveal_strlit("C");
            reveal_strlit("D");
            reveal_strlit("E");
            reveal_strlit("F");
            assert(r@ =~= seq![nibble_char_upper(d as nat)]);
        }
        r
    }
}

/// Renders `n` in lowercase hexadecimal with no leading zeros.
pub fn hex_lower(n: usize) -> (r: String)
    ensures
        r@ == hex_seq_lower(n as nat),
    decreases n,
{
    if n < 16 {
        String::from_str(hex_digit_lower(n))
    } else {
        let mut s = hex_lower(n / 16);
        s.append(hex_digit_lower(n % 16));
        proof {
            assert(s@ =~= hex_seq_lower(n as nat));
        }
        s
    }
}

/// Renders the low `width` hexadecimal digits of `n` in uppercase,
/// zero-padded to exactly `width` digits.
pub fn hex_upper_padded(n: usize, width: usize) -> (r: String)
    ensures
        r@ == hex_seq_upper_padded(n as nat, width as nat),
    decreases width,
{
    if width == 0 {
        String::new()
    } else {
        let mut s = hex_upper_padded(n / 16, width - 1);
        s.append(hex_digit_upper(n % 16));
        proof {
            assert(s@ =~= hex_seq_upper_padded(n as nat, width as nat));
        }
        s
    }
}

} // verus!
