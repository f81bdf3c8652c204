//! Small verified string helpers shared across the crate: comparison of
//! string slices and decimal rendering of numbers.

use vstd::prelude::*;

verus! {

use crate::split::{digit_value, digits_value, is_digit_seq};

/// Character-wise equality of two string slices.
pub fn str_eq_str(a: &str, b: &str) -> (r: bool)
    ensures
        r == (a@ == b@),
{
    let na = a.unicode_len();
    let nb = b.unicode_len();
    if na != nb {
        return false;
    }
    let mut i: usize = 0;
    while i < na
        invariant
            0 <= i <= na,
            na == a@.len(),
            na == b@.len(),
            forall|j: int| 0 <= j < i ==> a@[j] == b@[j],
        decreases na - i,
    {
        if a.get_char(i) != b.get_char(i) {
            return false;
        }
        i += 1;
    }
    proof {
        assert(a@ =~= b@);
    }
    true
}

/// The character denoting one decimal digit.
pub open spec fn digit_char(d: nat) -> char {
    if d == 0 {
        '0'
    } else if d == 1 {
        '1'
    } else if d == 2 {
        '2'
    } else if d == 3 {
        '3'
    } else if d == 4 {
        '4'
    } else if d == 5 {
        '5'
    } else if d == 6 {
        '6'
    } else if d == 7 {
        '7'
    } else if d == 8 {
        '8'
    } else {
        '9'
    }
}

/// The decimal digit sequence denoting `n`, most significant digit first.
pub open spec fn spec_decimal(n: nat) -> Seq<char>
    decreases n,
{
    if n < 10 {
        seq![digit_char(n)]
    } else {
        spec_decimal(n / 10).push(digit_char(n % 10))
    }
}

/// The codepoints of the ten digit characters.
proof fn lemma_digit_char_value(d: nat)
    requires
        d < 10,
    ensures
        digit_value(digit_char(d)) == d,
        48 <= (digit_char(d) as u32) <= 57,
{
    assert(('0' as u32) == 48 && ('1' as u32) == 49 && ('2' as u32) == 50 && ('3' as u32) == 51
        && ('4' as u32) == 52 && ('5' as u32) == 53 && ('6' as u32) == 54 && ('7' as u32) == 55
        && ('8' as u32) == 56 && ('9' as u32) == 57);
}

/// `spec_decimal` denotes its argument: it is a non-empty digit string with
/// that value.
pub proof fn lemma_spec_decimal_value(n: nat)
    ensures
        is_digit_seq(spec_decimal(n)),
        digits_value(spec_decimal(n)) == n,
        spec_decimal(n).len() > 0,
    decreases n,
{
    if n < 10 {
        lemma_digit_char_value(n);
        let s = spec_decimal(n);
        assert(s.drop_last() =~= Seq::<char>::empty());
        assert(digits_value(Seq::<char>::empty()) == 0);
        assert(digits_value(s) == digits_value(s.drop_last()) * 10 + digit_value(s.last()));
    } else {
        lemma_spec_decimal_value(n / 10);
        lemma_digit_char_value(n % 10);
        let s = spec_decimal(n);
        let p = spec_decimal(n / 10);
        assert(s.drop_last() =~= p);
        assert((n / 10) * 10 + n % 10 == n) by (nonlinear_arith);
    }
}

/// The one-character string slice denoting a decimal digit.
fn digit_str(d: u64) -> (r: &'static str)
    requires
        d < 10,
    ensures
        r@ =~= seq![digit_char(d as nat)],
{
    proof {
        reveal_strlit("0");
        reveal_strlit("1");
        reveal_strlit("2");
        reveal_strlit("3");
        reveal_strlit("4");
        reveal_strlit("5");
        reveal_strlit("6");
        reveal_strlit("7");
        reveal_strlit("8");
        reveal_strlit("9");
    }
    match d {
        0 => "0",
        1 => "1",
        2 => "2",
        3 => "3",
        4 => "4",
        5 => "5",
        6 => "6",
        7 => "7",
        8 => "8",
        _ => "9",
    }
}

/// Renders an unsigned number in decimal.
pub fn u64_to_string(n: u64) -> (r: String)
    ensures
        r@ == spec_decimal(n as nat),
{
    let mut digits: Vec<u64> = Vec::new();
    let mut m: u64 = n;
    loop
        invariant_except_break
            spec_decimal(n as nat) == spec_decimal(m as nat) + digits@.map_values(
                |d: u64| digit_char(d as nat),
            ).reverse(),
        invariant
            forall|j: int| 0 <= j < digits@.len() ==> #[trigger] digits@[j] < 10,
        ensures
            forall|j: int| 0 <= j < digits@.len() ==> #[trigger] digits@[j] < 10,
            spec_decimal(n as nat) == digits@.map_values(|d: u64| digit_char(d as nat)).reverse(),
        decreases m,
    {
        let d: u64 = m % 10;
        proof {
            let chars = |x: u64| digit_char(x as nat);
            let old_chars = digits@.map_values(chars);
            assert(digits@.push(d).map_values(chars) =~= old_chars.push(digit_char(d as nat)));
            if m >= 10 {
                assert(spec_decimal(m as nat) == spec_decimal((m as nat) / 10).push(
                    digit_char((m as nat) % 10),
                ));
                assert(spec_decimal((m as nat) / 10) + old_chars.push(
                    digit_char(d as nat),
                ).reverse() =~= spec_decimal((m as nat) / 10).push(digit_char(d as nat))
                    + old_chars.reverse());
            } else {
                assert(spec_decimal(m as nat) =~= seq![digit_char(d as nat)]);
                assert(seq![digit_char(d as nat)] + old_chars.reverse() =~= old_chars.push(
                    digit_char(d as nat),
                ).reverse());
            }
        }
        digits.push(d);
        if m < 10 {
            break;
        }
        m = m / 10;
    }
    let ghost rendered = digits@.map_values(|d: u64| digit_char(d as nat));
    let mut s = String::new();
    let mut i: usize = digits.len();
    proof {
        assert(rendered.subrange(i as int, rendered.len() as int).reverse() =~= Seq::<
            char,
        >::empty());
    }
    while i > 0
        invariant
            0 <= i <= digits@.len(),
            rendered == digits@.map_values(|d: u64| digit_char(d as nat)),
            forall|j: int| 0 <= j < digits@.len() ==> #[trigger] digits@[j] < 10,
            s@ == rendered.subrange(i as int, rendered.len() as int).reverse(),
        decreases i,
    {
        i = i - 1;
        let piece = digit_str(digits[i]);
        s.append(piece);
        proof {
            assert(rendered.subrange(i as int, rendered.len() as int).reverse() =~= rendered
                .subrange(i + 1, rendered.len() as int)
                .reverse()
                .push(rendered[i as int]));
        }
    }
    proof {
        assert(rendered.subrange(0, rendered.len() as int) =~= rendered);
    }
    s
}

} // verus!
