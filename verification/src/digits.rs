//! Decimal rendering of the numeric identities that go into the user
//! namespace's identity-map files. The kernel parses these files as plain
//! decimal numerals separated by spaces, so the library renders them itself
//! and proves the exact character sequence produced.

use vstd::prelude::*;

verus! {

/// The character for one decimal digit.
pub open spec fn digit_char(d: int) -> char {
    if d == 0 {
        '0'
    } else if d == 1 {
        '1'
    } else if d == 2 {
        '2'
    } else if d == 3 {
        '3'
    } else if d == 4 {
        '4'
    } else if d == 5 {
        '5'
    } else if d == 6 {
        '6'
    } else if d == 7 {
        '7'
    } else if d == 8 {
        '8'
    } else {
        '9'
    }
}

/// The decimal numeral of `n`: most significant digit first, no sign, no
/// leading zero (a single `'0'` for zero itself).
pub open spec fn decimal_digits(n: nat) -> Seq<char>
    decreases n,
{
    if n < 10 {
        seq![digit_char(n as int)]
    } else {
        decimal_digits(n / 10).push(digit_char((n % 10) as int))
    }
}

/// The one-character numeral of a single decimal digit.
fn digit_str(d: u32) -> (r: &'static str)
    requires
        d < 10,
    ensures
        r@ == seq![digit_char(d as int)],
{
    proof {
        reveal_strlit("0");
        reveal_strlit("1");
        reveal_strlit("2");
        reveal_strlit("3");
        reveal_strlit("4");
        reveal_strlit("5");
        reveal_strlit("6");
        reveal_strlit("7");
        reveal_strlit("8");
        reveal_strlit("9");
    }
    let r: &'static str = if d == 0 {
        "0"
    } else if d == 1 {
        "1"
    } else if d == 2 {
        "2"
    } else if d == 3 {
        "3"
    } else if d == 4 {
        "4"
    } else if d == 5 {
        "5"
    } else if d == 6 {
        "6"
    } else if d == 7 {
        "7"
    } else if d == 8 {
        "8"
    } else {
        "9"
    };
    proof {
        assert(r@ =~= seq![digit_char(d as int)]);
    }
    r
}

/// Renders `n` in decimal.
pub fn u32_decimal(n: u32) -> (r: String)
    ensures
        r@ == decimal_digits(n as nat),
    decreases n,
{
    if n < 10 {
        String::from_str(digit_str(n))
    } else {
        let prefix = u32_decimal(n / 10);
        let r = prefix.concat(digit_str(n % 10));
        proof {
            assert(r@ =~= decimal_digits(n as nat));
        }
        r
    }
}

/// One identity-map line, as the kernel's map files expect it: the identity
/// seen inside the namespace, the host identity backing it, and a range width
/// of one.
pub open spec fn map_line(inside: nat, host: nat) -> Seq<char> {
    decimal_digits(inside) + seq![' '] + decimal_digits(host) + seq![' ', '1']
}

/// Renders the one-entry identity-map line mapping `inside` (the identity the
/// namespace observes) onto `host` (the backing host identity), width 1.
pub fn format_map_line(inside: u32, host: u32) -> (r: String)
    ensures
        r@ == map_line(inside as nat, host as nat),
{
    let mut s = u32_decimal(inside);
    s.append(" ");
    let h = u32_decimal(host);
    s.append(h.as_str());
    s.append(" 1");
    proof {
        reveal_strlit(" ");
        reveal_strlit(" 1");
        assert(s@ =~= map_line(inside as nat, host as nat));
    }
    s
}

} // verus!
