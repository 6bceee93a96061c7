//! Numbers as text.
use vstd::prelude::*;
use vstd::string::*;

use crate::numbers::decimal;
use crate::numbers::digit_char;
use crate::numbers::digits;
use crate::numbers::digits_value;
use crate::numbers::is_digit;
use crate::numbers::parsed_i32;
use crate::numbers::three_digits;
use crate::numbers::with_commas;

verus! {

/// A number below ten is written as its digit; a larger one as what comes before its last digit,
/// then that digit; a negative one as a minus sign and its opposite.
pub proof fn decimals_are_spelled(n: int)
    ensures
        0 <= n < 10 ==> decimal(n) == seq!["0123456789"@[n]],
        n >= 10 ==> decimal(n) == decimal(n / 10) + decimal(n % 10),
        n < 0 ==> decimal(n) == "-"@ + decimal(-n),
{
    reveal_strlit("0123456789");
    reveal_strlit("-");
    if 0 <= n < 10 {
        assert(digit_char(n as nat) == "0123456789"@[n]);
    }
    if n >= 10 {
        assert(decimal(n) =~= decimal(n / 10) + decimal(n % 10));
    }
    if n < 0 {
        assert("-"@ =~= seq!['-']);
    }
}

proof fn digits_stand(n: nat)
    ensures
        1 <= digits(n).len(),
        forall|i: int| 0 <= i < digits(n).len() ==> '0' <= #[trigger] digits(n)[i] <= '9',
        n < 1000 ==> digits(n).len() <= 3,
    decreases n,
{
    if n >= 10 {
        digits_stand(n / 10);
    }
    if n < 1000 {
        reveal_with_fuel(digits, 4);
    }
}

/// In a grouped number exactly every fourth character, counted from the end, is a comma, and
/// no comma comes first; every other character is a digit.
pub proof fn commas_stand_in_their_places(n: nat)
    ensures
        with_commas(n).len() > 0,
        with_commas(n)[0] != ',',
        forall|i: int|
            0 <= i < with_commas(n).len() ==> if i % 4 == 3 {
                #[trigger] with_commas(n)[with_commas(n).len() - 1 - i] == ','
            } else {
                '0' <= with_commas(n)[with_commas(n).len() - 1 - i] <= '9'
            },
    decreases n,
{
    if n < 1000 {
        digits_stand(n);
    } else {
        commas_stand_in_their_places(n / 1000);
        let c = with_commas(n);
        let h = with_commas(n / 1000);
        assert(c == h + seq![','] + three_digits(n % 1000));
        assert(c[0] == h[0]);
        assert forall|i: int| 0 <= i < c.len() implies if i % 4 == 3 {
            #[trigger] c[c.len() - 1 - i] == ','
        } else {
            '0' <= c[c.len() - 1 - i] <= '9'
        } by {
            if i >= 4 {
                assert(c[c.len() - 1 - i] == h[h.len() - 1 - (i - 4)]);
            }
        }
    }
}

proof fn digits_give_the_number(n: nat)
    ensures
        digits_value(digits(n)) == n,
    decreases n,
{
    if n >= 10 {
        digits_give_the_number(n / 10);
        assert(digits(n).drop_last() =~= digits(n / 10));
    } else {
        assert(digits(n).drop_last() =~= Seq::<char>::empty());
        reveal_with_fuel(digits_value, 2);
    }
}

/// What is written in decimal reads back as the same number, with or without a plus sign.
pub proof fn decimals_read_back(n: int)
    requires
        -0x8000_0000 <= n < 0x8000_0000,
    ensures
        parsed_i32(decimal(n)) == Some(n),
        n >= 0 ==> parsed_i32("+"@ + decimal(n)) == Some(n),
{
    reveal_strlit("+");
    if n >= 0 {
        digits_stand(n as nat);
        digits_give_the_number(n as nat);
        let d = decimal(n);
        assert('0' <= d[0] <= '9');
        assert(("+"@ + d).drop_first() =~= d);
        assert(("+"@ + d)[0] == '+');
    } else {
        digits_stand((-n) as nat);
        digits_give_the_number((-n) as nat);
        assert(decimal(n).drop_first() =~= digits((-n) as nat));
    }
}

proof fn zero_in_front(s: Seq<char>)
    ensures
        digits_value(seq!['0'] + s) == digits_value(s),
    decreases s.len(),
{
    let t = seq!['0'] + s;
    if s.len() == 0 {
        assert(t.drop_last() =~= s);
        reveal_with_fuel(digits_value, 2);
    } else {
        zero_in_front(s.drop_last());
        assert(t.drop_last() =~= seq!['0'] + s.drop_last());
    }
}

/// A zero before the digits changes nothing.
pub proof fn zeros_in_front_do_not_count(s: Seq<char>)
    requires
        s.len() > 0,
        '0' <= s[0] <= '9',
    ensures
        parsed_i32("0"@ + s) == parsed_i32(s),
{
    reveal_strlit("0");
    assert("0"@ =~= seq!['0']);
    let t = "0"@ + s;
    zero_in_front(s);
    assert(t[0] == '0');
    assert forall|i: int| 0 <= i < s.len() implies s[i] == #[trigger] t[i + 1] by {}
    if crate::numbers::all_digits(s) {
        assert forall|i: int| 0 <= i < t.len() implies is_digit(#[trigger] t[i]) by {
            if i > 0 {
                assert(is_digit(s[i - 1]));
            }
        }
    }
    if crate::numbers::all_digits(t) {
        assert forall|i: int| 0 <= i < s.len() implies is_digit(#[trigger] s[i]) by {
            assert(is_digit(t[i + 1]));
        }
    }
}

/// Only a run of decimal digits, with or without a sign before it, is read as a number, and only
/// where the number has 32 bits.
pub proof fn nothing_else_reads_as_a_number(s: Seq<char>)
    ensures
        parsed_i32(s) matches Some(n) ==> {
            &&& -0x8000_0000 <= n < 0x8000_0000
            &&& s.len() > 0
            &&& forall|i: int|
                0 < i < s.len() ==> '0' <= #[trigger] s[i] <= '9'
            &&& ('0' <= s[0] <= '9') || (s.len() > 1 && (s[0] == '-' || s[0] == '+'))
            &&& s[0] == '-' ==> n <= 0
            &&& s[0] != '-' ==> n >= 0
        },
{
    if parsed_i32(s) is Some {
        let signed = s[0] == '-' || s[0] == '+';
        let ds = if signed {
            s.drop_first()
        } else {
            s
        };
        digits_are_not_negative(ds);
        assert forall|i: int| 0 < i < s.len() implies '0' <= #[trigger] s[i] <= '9' by {
            if signed {
                assert(is_digit(ds[i - 1]));
            } else {
                assert(is_digit(ds[i]));
            }
        }
        if !signed {
            assert(is_digit(ds[0]));
        }
    }
}

proof fn digits_are_not_negative(s: Seq<char>)
    requires
        crate::numbers::all_digits(s),
    ensures
        digits_value(s) >= 0,
    decreases s.len(),
{
    if s.len() > 0 {
        assert(is_digit(s[s.len() - 1]));
        assert forall|i: int| 0 <= i < s.drop_last().len() implies is_digit(
            #[trigger] s.drop_last()[i],
        ) by {
            assert(is_digit(s[i]));
        }
        digits_are_not_negative(s.drop_last());
    }
}

} // verus!
