//! Decimal numbers in text: reading unsigned integers as `str::parse` does,
//! and writing them as `{}` formats them.
use vstd::prelude::*;
use crate::text::{chars_of, is_digit, string_of};

verus! {

pub open spec fn digit_value(c: char) -> nat {
    ((c as u32) - ('0' as u32)) as nat
}

/// The value of a string of decimal digits.
pub open spec fn decimal_value(d: Seq<char>) -> nat
    decreases d.len(),
{
    if d.len() == 0 {
        0
    } else {
        decimal_value(d.drop_last()) * 10 + digit_value(d.last())
    }
}

pub open spec fn all_digits(d: Seq<char>) -> bool {
    forall|i: int| 0 <= i < d.len() ==> is_digit(#[trigger] d[i])
}

/// `str::parse` for an unsigned type whose largest value is `max`: an
/// optional `+`, then one or more decimal digits, whose value fits.
pub open spec fn parse_unsigned(s: Seq<char>, max: nat) -> Option<nat> {
    let d = if s.len() > 0 && s[0] == '+' {
        s.drop_first()
    } else {
        s
    };
    if d.len() == 0 || !all_digits(d) {
        None
    } else if decimal_value(d) > max {
        None
    } else {
        Some(decimal_value(d))
    }
}

proof fn lemma_decimal_grows(d: Seq<char>, c: char)
    requires
        is_digit(c),
    ensures
        decimal_value(d.push(c)) >= decimal_value(d),
        decimal_value(d.push(c)) == decimal_value(d) * 10 + digit_value(c),
{
    assert(d.push(c).drop_last() =~= d);
}

proof fn lemma_decimal_prefix_bound(d: Seq<char>, n: int)
    requires
        0 <= n <= d.len(),
        all_digits(d),
    ensures
        decimal_value(d.subrange(0, n)) <= decimal_value(d),
    decreases d.len() - n,
{
    if n < d.len() {
        lemma_decimal_prefix_bound(d, n + 1);
        let p = d.subrange(0, n);
        assert(d.subrange(0, n + 1) =~= p.push(d[n]));
        lemma_decimal_grows(p, d[n]);
    } else {
        assert(d.subrange(0, n) =~= d);
    }
}

/// Reads an unsigned decimal number no larger than `max`.
pub fn parse_unsigned_exec(s: &str, max: u64) -> (r: Option<u64>)
    ensures
        match r {
            Some(v) => parse_unsigned(s@, max as nat) == Some(v as nat),
            None => parse_unsigned(s@, max as nat) is None,
        },
{
    let v = chars_of(s);
    let start: usize = if v.len() > 0 && v[0] == '+' {
        1
    } else {
        0
    };
    let ghost d = if s@.len() > 0 && s@[0] == '+' {
        s@.drop_first()
    } else {
        s@
    };
    assert(v@.subrange(start as int, v@.len() as int) =~= d);
    if start == v.len() {
        return None;
    }
    let mut acc: u64 = 0;
    let mut i: usize = start;
    while i < v.len()
        invariant
            start <= i <= v@.len(),
            v@ == s@,
            d == (if s@.len() > 0 && s@[0] == '+' {
                s@.drop_first()
            } else {
                s@
            }),
            d == v@.subrange(start as int, v@.len() as int),
            forall|k: int| start <= k < i ==> is_digit(v@[k]),
            acc as nat == decimal_value(v@.subrange(start as int, i as int)),
            acc <= max,
        decreases v@.len() - i,
    {
        let c = v[i];
        let ghost p = v@.subrange(start as int, i as int);
        assert(v@.subrange(start as int, i + 1) =~= p.push(c));
        if !('0' <= c && c <= '9') {
            assert(d[i - start] == c);
            assert(!all_digits(d));
            return None;
        }
        proof {
            lemma_decimal_grows(p, c);
        }
        let dv: u64 = ((c as u32) - ('0' as u32)) as u64;
        assert(dv as nat == digit_value(c));
        let prod = acc.checked_mul(10);
        let next = match prod {
            Some(m) => m.checked_add(dv),
            None => None,
        };
        assert(next is None ==> acc * 10 + dv > u64::MAX);
        match next {
            Some(n) => {
                if n > max {
                    proof {
                        assert forall|k: int| 0 <= k < (i + 1 - start) implies is_digit(#[trigger] v@.subrange(start as int, i + 1)[k]) by {
                            assert(v@.subrange(start as int, i + 1)[k] == v@[start + k]);
                        }
                        if all_digits(d) {
                            lemma_decimal_prefix_bound(d, i + 1 - start);
                            assert(d.subrange(0, i + 1 - start) =~= v@.subrange(start as int, i + 1));
                        }
                    }
                    return None;
                }
                acc = n;
            },
            None => {
                proof {
                    if all_digits(d) {
                        lemma_decimal_prefix_bound(d, i + 1 - start);
                        assert(d.subrange(0, i + 1 - start) =~= v@.subrange(start as int, i + 1));
                    }
                }
                return None;
            },
        }
        i = i + 1;
    }
    assert(all_digits(d)) by {
        assert forall|k: int| 0 <= k < d.len() implies is_digit(#[trigger] d[k]) by {
            assert(d[k] == v@[start + k]);
        }
    }
    Some(acc)
}

pub open spec fn digit_char(n: nat) -> char {
    ((n + ('0' as u32)) as u32) as char
}

/// The decimal text of a number, as `{}` writes it.
pub open spec fn decimal_text(n: nat) -> Seq<char>
    decreases n,
{
    if n < 10 {
        seq![digit_char(n)]
    } else {
        decimal_text(n / 10).push(digit_char(n % 10))
    }
}

fn digit_of(n: u64) -> (c: char)
    requires
        n < 10,
    ensures
        c == digit_char(n as nat),
{
    let b: u8 = (n as u8) + 48;
    assert(b as u32 == n + ('0' as u32));
    b as char
}

fn decimal_chars(n: u64, out: &mut Vec<char>)
    ensures
        final(out)@ == old(out)@ + decimal_text(n as nat),
    decreases n,
{
    if n < 10 {
        out.push(digit_of(n));
    } else {
        decimal_chars(n / 10, out);
        out.push(digit_of(n % 10));
    }
}

/// Writes a number in decimal.
pub fn u64_text(n: u64) -> (r: String)
    ensures
        r@ == decimal_text(n as nat),
{
    let mut out: Vec<char> = Vec::new();
    decimal_chars(n, &mut out);
    assert(out@ =~= decimal_text(n as nat));
    string_of(out.as_slice())
}

/// The decimal text of a signed number, as `{}` writes it.
pub open spec fn signed_text(n: int) -> Seq<char> {
    if n < 0 {
        seq!['-'] + decimal_text((-n) as nat)
    } else {
        decimal_text(n as nat)
    }
}

/// Writes a signed number in decimal.
pub fn i64_text(n: i64) -> (r: String)
    ensures
        r@ == signed_text(n as int),
{
    let mut out: Vec<char> = Vec::new();
    if n < 0 {
        out.push('-');
        let m: u64 = if n == i64::MIN {
            9223372036854775808u64
        } else {
            (-n) as u64
        };
        assert(m as int == -(n as int));
        decimal_chars(m, &mut out);
        assert(out@ =~= seq!['-'] + decimal_text((-(n as int)) as nat));
    } else {
        decimal_chars(n as u64, &mut out);
        assert(out@ =~= decimal_text(n as nat));
    }
    string_of(out.as_slice())
}

} // verus!
