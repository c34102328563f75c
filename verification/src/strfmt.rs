//! Decimal and hexadecimal rendering of unsigned 64-bit values, for
//! the derived snapshot fields (stringified sizes, hex-formatted
//! GUIDs).

use vstd::prelude::*;

verus! {

/// The decimal digit character of `d`.
pub open spec fn spec_digit(d: int) -> char {
    if d == 0 {
        '0'
    } else if d == 1 {
        '1'
    } else if d == 2 {
        '2'
    } else if d == 3 {
        '3'
    } else if d == 4 {
        '4'
    } else if d == 5 {
        '5'
    } else if d == 6 {
        '6'
    } else if d == 7 {
        '7'
    } else if d == 8 {
        '8'
    } else {
        '9'
    }
}

/// The decimal rendering of `n`, most significant digit first.
pub open spec fn spec_dec_digits(n: int) -> Seq<char>
    recommends
        n >= 0,
    decreases n,
    via spec_dec_digits_dec
{
    if n < 10 {
        seq![spec_digit(n)]
    } else {
        spec_dec_digits(n / 10).push(spec_digit(n % 10))
    }
}

#[via_fn]
proof fn spec_dec_digits_dec(n: int) {
    if n >= 10 {
        assert(0 <= n / 10 < n) by (nonlinear_arith)
            requires
                n >= 10,
        ;
    }
}

/// The uppercase hexadecimal digit character of `d`.
pub open spec fn spec_hex_digit(d: int) -> char {
    if d < 10 {
        spec_digit(d)
    } else if d == 10 {
        'A'
    } else if d == 11 {
        'B'
    } else if d == 12 {
        'C'
    } else if d == 13 {
        'D'
    } else if d == 14 {
        'E'
    } else {
        'F'
    }
}

/// The hexadecimal rendering of `n` in exactly `k` digits, leading
/// zeros kept, most significant digit first.
pub open spec fn spec_hex_digits(n: int, k: nat) -> Seq<char>
    decreases k,
{
    if k == 0 {
        Seq::empty()
    } else {
        spec_hex_digits(n / 16, (k - 1) as nat).push(spec_hex_digit(n % 16))
    }
}

/// One decimal digit as a string.
fn digit_str(d: u64) -> (r: String)
    requires
        d < 10,
    ensures
        r@ == seq![spec_digit(d as int)],
{
    let s: String = if d == 0 {
        "0".to_owned()
    } else if d == 1 {
        "1".to_owned()
    } else if d == 2 {
        "2".to_owned()
    } else if d == 3 {
        "3".to_owned()
    } else if d == 4 {
        "4".to_owned()
    } else if d == 5 {
        "5".to_owned()
    } else if d == 6 {
        "6".to_owned()
    } else if d == 7 {
        "7".to_owned()
    } else if d == 8 {
        "8".to_owned()
    } else {
        "9".to_owned()
    };
    proof {
        reveal_strlit("0");
        reveal_strlit("1");
        reveal_strlit("2");
        reveal_strlit("3");
        reveal_strlit("4");
        reveal_strlit("5");
        reveal_strlit("6");
        reveal_strlit("7");
        reveal_strlit("8");
        reveal_strlit("9");
        assert(s@ =~= seq![spec_digit(d as int)]);
    }
    s
}

/// One uppercase hexadecimal digit as a string.
fn hex_digit_str(d: u64) -> (r: String)
    requires
        d < 16,
    ensures
        r@ == seq![spec_hex_digit(d as int)],
{
    if d < 10 {
        let s = digit_str(d);
        s
    } else {
        let s: String = if d == 10 {
            "A".to_owned()
        } else if d == 11 {
            "B".to_owned()
        } else if d == 12 {
            "C".to_owned()
        } else if d == 13 {
            "D".to_owned()
        } else if d == 14 {
            "E".to_owned()
        } else {
            "F".to_owned()
        };
        proof {
            reveal_strlit("A");
            reveal_strlit("B");
            reveal_strlit("C");
            reveal_strlit("D");
            reveal_strlit("E");
            reveal_strlit("F");
            assert(s@ =~= seq![spec_hex_digit(d as int)]);
        }
        s
    }
}

/// Renders `n` in decimal.
pub fn u64_to_string(n: u64) -> (s: String)
    ensures
        s@ == spec_dec_digits(n as int),
    decreases n,
{
    if n < 10 {
        digit_str(n)
    } else {
        proof {
            assert(0 <= n as int / 10 < n as int) by (nonlinear_arith)
                requires
                    n >= 10,
            ;
        }
        let mut s = u64_to_string(n / 10);
        let d = digit_str(n % 10);
        s.append(d.as_str());
        s
    }
}

/// Renders `n` in uppercase hexadecimal, in exactly `k` digits with
/// leading zeros.
pub fn u64_to_hex(n: u64, k: usize) -> (s: String)
    ensures
        s@ == spec_hex_digits(n as int, k as nat),
    decreases k,
{
    if k == 0 {
        String::new()
    } else {
        let mut s = u64_to_hex(n / 16, k - 1);
        let d = hex_digit_str(n % 16);
        s.append(d.as_str());
        s
    }
}

} // verus!
