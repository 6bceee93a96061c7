//! Numbers as text: decimal, grouped decimal, and reading decimal back.
use vstd::prelude::*;

use crate::text::chars_of;

verus! {

/// The decimal digit `d` as a character.
pub open spec fn digit_char(d: nat) -> char {
    (48 + d) as char
}

/// A natural number in decimal, without leading zeros.
pub open spec fn digits(n: nat) -> Seq<char>
    decreases n,
{
    if n < 10 {
        seq![digit_char(n)]
    } else {
        digits(n / 10).push(digit_char(n % 10))
    }
}

/// An integer in decimal, with a leading `-` where it is negative.
pub open spec fn decimal(n: int) -> Seq<char> {
    if n < 0 {
        seq!['-'] + digits((-n) as nat)
    } else {
        digits(n as nat)
    }
}

/// Appends `n` in decimal.
pub fn push_nat(out: &mut String, n: u128)
    ensures
        final(out)@ == old(out)@ + digits(n as nat),
    decreases n,
{
    if n >= 10 {
        push_nat(out, n / 10);
    }
    let d: u8 = (n % 10) as u8;
    out.push((48 + d) as char);
    proof {
        assert(old(out)@ + digits(n as nat) =~= out@);
    }
}

/// Appends `n` in decimal.
pub fn push_i64(out: &mut String, n: i64)
    ensures
        final(out)@ == old(out)@ + decimal(n as int),
{
    if n < 0 {
        out.push('-');
        let m: u64 = (-(n + 1)) as u64 + 1;
        push_nat(out, m as u128);
        proof {
            assert(old(out)@ + decimal(n as int) =~= out@);
        }
    } else {
        push_nat(out, n as u128);
    }
}

/// `n` in decimal.
pub fn decimal_text(n: i64) -> (r: String)
    ensures
        r@ == decimal(n as int),
{
    let mut out = String::new();
    push_i64(&mut out, n);
    proof {
        assert(out@ =~= decimal(n as int));
    }
    out
}

/// Three decimal digits of `n`, which is below one thousand.
pub open spec fn three_digits(n: nat) -> Seq<char> {
    seq![digit_char(n / 100), digit_char(n / 10 % 10), digit_char(n % 10)]
}

/// A natural number in decimal with a comma before every group of three digits.
pub open spec fn with_commas(n: nat) -> Seq<char>
    decreases n,
{
    if n < 1000 {
        digits(n)
    } else {
        with_commas(n / 1000) + seq![','] + three_digits(n % 1000)
    }
}

/// Appends `n` in decimal, grouped by commas.
fn push_with_commas(out: &mut String, n: u64)
    ensures
        final(out)@ == old(out)@ + with_commas(n as nat),
    decreases n,
{
    if n < 1000 {
        push_nat(out, n as u128);
    } else {
        push_with_commas(out, n / 1000);
        let low: u64 = n % 1000;
        out.push(',');
        out.push((48 + (low / 100) as u8) as char);
        out.push((48 + (low / 10 % 10) as u8) as char);
        out.push((48 + (low % 10) as u8) as char);
        proof {
            assert(old(out)@ + with_commas(n as nat) =~= out@);
        }
    }
}

/// `n` in decimal with a comma before every group of three digits: `1,234,567`.
pub fn format_with_commas(n: usize) -> (r: String)
    ensures
        r@ == with_commas(n as nat),
{
    let mut out = String::new();
    push_with_commas(&mut out, n as u64);
    proof {
        assert(out@ =~= with_commas(n as nat));
    }
    out
}

/// The characters of `s` other than `c`, in order.
pub open spec fn without(s: Seq<char>, c: char) -> Seq<char> {
    s.filter(|x: char| x != c)
}

proof fn without_push(s: Seq<char>, x: char, c: char)
    ensures
        without(s.push(x), c) == if x != c {
            without(s, c).push(x)
        } else {
            without(s, c)
        },
        without(Seq::<char>::empty(), c) == Seq::<char>::empty(),
{
    reveal(Seq::filter);
    assert(s.push(x).drop_last() =~= s);
}

proof fn thousands(n: nat)
    ensures
        n / 10 / 10 / 10 == n / 1000,
        n / 10 / 10 % 10 == n % 1000 / 100,
        n / 10 % 10 == n % 1000 / 10 % 10,
        n % 10 == n % 1000 % 10,
{
    let q = n / 1000;
    let m = n % 1000;
    assert(n == 1000 * q + m);
    assert(n / 10 == 100 * q + m / 10);
    assert(n / 10 / 10 == 10 * q + m / 100);
}

proof fn digits_three(n: nat)
    requires
        n >= 1000,
    ensures
        digits(n) == digits(n / 1000) + three_digits(n % 1000),
{
    thousands(n);
    let a = n / 10;
    let b = a / 10;
    let c = b / 10;
    assert(digits(n) == digits(a).push(digit_char(n % 10)));
    assert(digits(a) == digits(b).push(digit_char(a % 10)));
    assert(digits(b) == digits(c).push(digit_char(b % 10)));
    assert(digits(n) =~= digits(c) + seq![
        digit_char(b % 10),
        digit_char(a % 10),
        digit_char(n % 10),
    ]);
}

proof fn digits_plain(n: nat)
    ensures
        without(digits(n), ',') == digits(n),
    decreases n,
{
    if n < 10 {
        without_push(Seq::empty(), digit_char(n), ',');
        assert(digits(n) =~= Seq::<char>::empty().push(digit_char(n)));
    } else {
        digits_plain(n / 10);
        without_push(digits(n / 10), digit_char(n % 10), ',');
    }
}

proof fn without_plain(s: Seq<char>, t: Seq<char>, c: char)
    requires
        forall|i: int| 0 <= i < t.len() ==> t[i] != c,
    ensures
        without(s + t, c) == without(s, c) + t,
    decreases t.len(),
{
    if t.len() == 0 {
        assert(s + t =~= s);
        assert(without(s, c) + t =~= without(s, c));
    } else {
        without_plain(s, t.drop_last(), c);
        without_push(s + t.drop_last(), t.last(), c);
        assert((s + t.drop_last()).push(t.last()) =~= s + t);
        assert((without(s, c) + t.drop_last()).push(t.last()) =~= without(s, c) + t);
    }
}

proof fn three_plain(m: nat)
    requires
        m < 1000,
    ensures
        three_digits(m).len() == 3,
        forall|i: int| 0 <= i < 3 ==> three_digits(m)[i] != ',',
{
    assert(m / 100 < 10);
    assert(m / 10 % 10 < 10);
    assert(m % 10 < 10);
}

proof fn commas_step(s: Seq<char>, t: Seq<char>)
    requires
        forall|i: int| 0 <= i < t.len() ==> t[i] != ',',
    ensures
        without(s + seq![','] + t, ',') == without(s, ',') + t,
{
    without_push(s, ',', ',');
    assert(s.push(',') =~= s + seq![',']);
    without_plain(s.push(','), t, ',');
}

/// Grouping by commas adds nothing but commas: without them the plain decimal is left.
pub proof fn commas_only_group(n: nat)
    ensures
        without(with_commas(n), ',') == digits(n),
    decreases n,
{
    if n < 1000 {
        digits_plain(n);
    } else {
        commas_only_group(n / 1000);
        commas_group_step(n);
    }
}

proof fn commas_group_step(n: nat)
    requires
        n >= 1000,
        without(with_commas(n / 1000), ',') == digits(n / 1000),
    ensures
        without(with_commas(n), ',') == digits(n),
{
    let high = n / 1000;
    let low = n % 1000;
    digits_three(n);
    three_plain(low);
    commas_step(with_commas(high), three_digits(low));
    assert(with_commas(n) == with_commas(high) + seq![','] + three_digits(low));
}

/// An ASCII decimal digit.
pub open spec fn is_digit(c: char) -> bool {
    '0' <= c <= '9'
}

/// Every character is an ASCII decimal digit.
pub open spec fn all_digits(s: Seq<char>) -> bool {
    forall|i: int| 0 <= i < s.len() ==> is_digit(#[trigger] s[i])
}

/// The number that a run of decimal digits stands for.
pub open spec fn digits_value(s: Seq<char>) -> int
    decreases s.len(),
{
    if s.len() == 0 {
        0
    } else {
        digits_value(s.drop_last()) * 10 + (s.last() as int - '0' as int)
    }
}

/// The 32-bit integer that `s` spells: an optional sign, then one or more decimal digits.
pub open spec fn parsed_i32(s: Seq<char>) -> Option<int> {
    let signed = s.len() > 0 && (s[0] == '-' || s[0] == '+');
    let ds = if signed {
        s.drop_first()
    } else {
        s
    };
    let n = if signed && s[0] == '-' {
        -digits_value(ds)
    } else {
        digits_value(ds)
    };
    if ds.len() > 0 && all_digits(ds) && i32::MIN <= n <= i32::MAX {
        Some(n)
    } else {
        None
    }
}

/// Adding digits never makes the number smaller.
proof fn digits_value_grows(s: Seq<char>, k: int)
    requires
        0 <= k <= s.len(),
        all_digits(s),
    ensures
        0 <= digits_value(s.take(k)) <= digits_value(s),
    decreases s.len(),
{
    if s.len() > 0 {
        assert(is_digit(s[s.len() - 1]));
        assert forall|i: int| 0 <= i < s.drop_last().len() implies is_digit(
            #[trigger] s.drop_last()[i],
        ) by {
            assert(is_digit(s[i]));
        }
        if k < s.len() {
            digits_value_grows(s.drop_last(), k);
            assert(s.drop_last().take(k) =~= s.take(k));
        } else {
            digits_value_grows(s.drop_last(), s.len() - 1);
            assert(s.drop_last().take(s.len() - 1) =~= s.drop_last());
            assert(s.take(k) =~= s);
        }
    }
}

/// Reads `s` as a 32-bit integer: an optional sign, then one or more decimal digits.
pub fn parse_i32(s: &str) -> (r: Option<i32>)
    ensures
        match r {
            Some(n) => parsed_i32(s@) == Some(n as int),
            None => parsed_i32(s@) is None,
        },
{
    let v = chars_of(s);
    let n: usize = v.len();
    let negative = n > 0 && v[0] == '-';
    let from: usize = if n > 0 && (v[0] == '-' || v[0] == '+') {
        1
    } else {
        0
    };
    let ghost ds = if from == 1 {
        s@.drop_first()
    } else {
        s@
    };
    if from == n {
        return None;
    }
    let mut acc: i64 = 0;
    let mut i: usize = from;
    proof {
        assert(ds.take(0) =~= Seq::<char>::empty());
    }
    while i < n
        invariant
            n == v@.len(),
            v@ == s@,
            from <= i <= n,
            from <= 1,
            ds == s@.skip(from as int),
            0 <= acc <= 2147483648,
            acc == digits_value(ds.take(i - from)),
            forall|j: int| 0 <= j < i - from ==> is_digit(#[trigger] ds[j]),
            negative ==> from == 1,
            parsed_i32(s@) is Some ==> all_digits(ds) && digits_value(ds) <= 2147483648,
        decreases n - i,
    {
        let c = v[i];
        let ghost k = i - from;
        assert(ds[k] == c);
        if c < '0' || c > '9' {
            assert(!is_digit(ds[k]));
            return None;
        }
        let d: i64 = c as i64 - 48;
        acc = acc * 10 + d;
        assert(ds.take(k + 1).drop_last() =~= ds.take(k));
        if acc > 2147483648 {
            proof {
                if all_digits(ds) {
                    digits_value_grows(ds, k + 1);
                }
            }
            return None;
        }
        i = i + 1;
    }
    assert(ds.take(ds.len() as int) =~= ds);
    let value: i64 = if negative {
        -acc
    } else {
        acc
    };
    if value > 2147483647 {
        return None;
    }
    Some(value as i32)
}

} // verus!
