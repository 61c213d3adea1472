//! Decimal rendering of the integers that the host hands back.
//!
//! The network bridge reports the host's status code and response handle in a
//! human-readable success value, so it needs the decimal text of unsigned
//! integers. The rendering is defined by [`dec_str`] and produced by
//! [`append_u32_decimal`].

use vstd::prelude::*;

verus! {

/// The character for a single decimal digit value.
pub open spec fn digit_char(d: nat) -> char
    recommends
        d < 10,
{
    if d == 0 {
        '0'
    } else if d == 1 {
        '1'
    } else if d == 2 {
        '2'
    } else if d == 3 {
        '3'
    } else if d == 4 {
        '4'
    } else if d == 5 {
        '5'
    } else if d == 6 {
        '6'
    } else if d == 7 {
        '7'
    } else if d == 8 {
        '8'
    } else {
        '9'
    }
}

/// The decimal text of `n`: most significant digit first, no leading zeros
/// (zero itself is the single character '0').
pub open spec fn dec_str(n: nat) -> Seq<char>
    decreases n,
{
    if n < 10 {
        seq![digit_char(n)]
    } else {
        dec_str(n / 10) + seq![digit_char(n % 10)]
    }
}

/// Whether `c` is a decimal digit character.
pub open spec fn is_dec_digit(c: char) -> bool {
    ('0' as u32) <= (c as u32) && (c as u32) <= ('9' as u32)
}

/// The value of a decimal digit character.
pub open spec fn digit_val(c: char) -> nat
    recommends
        is_dec_digit(c),
{
    ((c as u32) - ('0' as u32)) as nat
}

/// Whether every character of `s` is a decimal digit.
pub open spec fn all_dec_digits(s: Seq<char>) -> bool {
    forall|i: int| 0 <= i < s.len() ==> is_dec_digit(#[trigger] s[i])
}

/// The number that a sequence of decimal digit characters denotes.
pub open spec fn dec_value(s: Seq<char>) -> nat
    recommends
        all_dec_digits(s),
    decreases s.len(),
{
    if s.len() == 0 {
        0
    } else {
        dec_value(s.drop_last()) * 10 + digit_val(s.last())
    }
}

/// A digit's character denotes that digit.
pub proof fn lemma_digit_char_val(d: nat)
    requires
        d < 10,
    ensures
        is_dec_digit(digit_char(d)),
        digit_val(digit_char(d)) == d,
{
    assert(('0' as u32) == 48 && ('1' as u32) == 49 && ('2' as u32) == 50 && ('3' as u32) == 51
        && ('4' as u32) == 52 && ('5' as u32) == 53 && ('6' as u32) == 54 && ('7' as u32) == 55 && (
    '8' as u32) == 56 && ('9' as u32) == 57);
}

/// The decimal text of a number is non-empty and consists of digits only.
pub proof fn lemma_dec_str_digits(n: nat)
    ensures
        dec_str(n).len() >= 1,
        all_dec_digits(dec_str(n)),
    decreases n,
{
    if n < 10 {
        lemma_digit_char_val(n);
    } else {
        lemma_dec_str_digits(n / 10);
        lemma_digit_char_val(n % 10);
        assert forall|i: int| 0 <= i < dec_str(n).len() implies is_dec_digit(
            #[trigger] dec_str(n)[i],
        ) by {
            if i < dec_str(n / 10).len() {
                assert(dec_str(n)[i] == dec_str(n / 10)[i]);
            }
        }
    }
}

/// Reading the decimal text of `n` back as a number yields `n`.
pub proof fn lemma_dec_value_round_trip(n: nat)
    ensures
        dec_value(dec_str(n)) == n,
    decreases n,
{
    if n < 10 {
        lemma_digit_char_val(n);
        assert(dec_str(n).drop_last() =~= Seq::<char>::empty());
        assert(dec_value(Seq::<char>::empty()) == 0);
        assert(dec_str(n).last() == digit_char(n));
        assert(dec_value(dec_str(n)) == dec_value(Seq::<char>::empty()) * 10 + digit_val(
            digit_char(n),
        ));
    } else {
        lemma_dec_value_round_trip(n / 10);
        lemma_digit_char_val(n % 10);
        assert(dec_str(n).drop_last() =~= dec_str(n / 10));
        assert(dec_str(n).last() == digit_char(n % 10));
        assert(dec_value(dec_str(n)) == dec_value(dec_str(n / 10)) * 10 + digit_val(
            digit_char(n % 10),
        ));
        vstd::arithmetic::div_mod::lemma_fundamental_div_mod(n as int, 10);
    }
}

/// Decimal texts cannot run into each other: where each is followed by some
/// non-digit, equal concatenations mean equal numbers and equal remainders.
pub proof fn lemma_dec_str_prefix_free(m: nat, n: nat, rest_m: Seq<char>, rest_n: Seq<char>)
    requires
        dec_str(m) + rest_m == dec_str(n) + rest_n,
        rest_m.len() > 0,
        rest_n.len() > 0,
        !is_dec_digit(rest_m[0]),
        !is_dec_digit(rest_n[0]),
    ensures
        m == n,
        rest_m == rest_n,
{
    let a = dec_str(m);
    let b = dec_str(n);
    lemma_dec_str_digits(m);
    lemma_dec_str_digits(n);
    if a.len() < b.len() {
        assert((a + rest_m)[a.len() as int] == rest_m[0]);
        assert((b + rest_n)[a.len() as int] == b[a.len() as int]);
        assert(false);
    }
    if b.len() < a.len() {
        assert((b + rest_n)[b.len() as int] == rest_n[0]);
        assert((a + rest_m)[b.len() as int] == a[b.len() as int]);
        assert(false);
    }
    assert(a =~= b) by {
        assert forall|i: int| 0 <= i < a.len() implies a[i] == b[i] by {
            assert((a + rest_m)[i] == a[i]);
            assert((b + rest_n)[i] == b[i]);
        }
    }
    lemma_dec_value_round_trip(m);
    lemma_dec_value_round_trip(n);
    assert((a + rest_m).len() == (b + rest_n).len());
    assert(rest_m.len() == rest_n.len());
    assert(rest_m =~= rest_n) by {
        assert forall|i: int| 0 <= i < rest_m.len() implies rest_m[i] == rest_n[i] by {
            assert((a + rest_m)[a.len() + i] == rest_m[i]);
            assert((b + rest_n)[b.len() + i] == rest_n[i]);
        }
    }
}

/// Appends the character of one decimal digit to `s`.
fn append_digit(s: &mut String, d: u32)
    requires
        d < 10,
    ensures
        final(s)@ == old(s)@ + seq![digit_char(d as nat)],
{
    if d == 0 {
        proof {
            reveal_strlit("0");
        }
        s.append("0");
        assert(s@ =~= old(s)@ + seq![digit_char(d as nat)]);
    } else if d == 1 {
        proof {
            reveal_strlit("1");
        }
        s.append("1");
        assert(s@ =~= old(s)@ + seq![digit_char(d as nat)]);
    } else if d == 2 {
        proof {
            reveal_strlit("2");
        }
        s.append("2");
        assert(s@ =~= old(s)@ + seq![digit_char(d as nat)]);
    } else if d == 3 {
        proof {
            reveal_strlit("3");
        }
        s.append("3");
        assert(s@ =~= old(s)@ + seq![digit_char(d as nat)]);
    } else if d == 4 {
        proof {
            reveal_strlit("4");
        }
        s.append("4");
        assert(s@ =~= old(s)@ + seq![digit_char(d as nat)]);
    } else if d == 5 {
        proof {
            reveal_strlit("5");
        }
        s.append("5");
        assert(s@ =~= old(s)@ + seq![digit_char(d as nat)]);
    } else if d == 6 {
        proof {
            reveal_strlit("6");
        }
        s.append("6");
        assert(s@ =~= old(s)@ + seq![digit_char(d as nat)]);
    } else if d == 7 {
        proof {
            reveal_strlit("7");
        }
        s.append("7");
        assert(s@ =~= old(s)@ + seq![digit_char(d as nat)]);
    } else if d == 8 {
        proof {
            reveal_strlit("8");
        }
        s.append("8");
        assert(s@ =~= old(s)@ + seq![digit_char(d as nat)]);
    } else {
        proof {
            reveal_strlit("9");
        }
        s.append("9");
        assert(s@ =~= old(s)@ + seq![digit_char(d as nat)]);
    }
}

/// Appends the decimal text of `n` to `s`.
pub fn append_u32_decimal(s: &mut String, n: u32)
    ensures
        final(s)@ == old(s)@ + dec_str(n as nat),
    decreases n,
{
    if n < 10 {
        append_digit(s, n);
    } else {
        append_u32_decimal(s, n / 10);
        append_digit(s, n % 10);
        assert(s@ =~= old(s)@ + dec_str(n as nat));
    }
}

} // verus!
