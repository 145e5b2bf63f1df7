//! Decimal integers: the grammar of `i32` text fields and decimal rendering.

use vstd::prelude::*;
use vstd::string::StrSliceExecFns;
use vstd::string::StringExecFns;
use crate::text::{trim, trim_spec, clean_opt, clean_opt_spec, opt_view, push_char, lemma_trim_idempotent, err_view};

verus! {

pub open spec fn is_digit(c: char) -> bool {
    '0' <= c && c <= '9'
}

pub open spec fn digit_value(c: char) -> int {
    c as int - '0' as int
}

pub open spec fn all_digits(s: Seq<char>) -> bool {
    forall|i: int| 0 <= i < s.len() ==> is_digit(#[trigger] s[i])
}

/// Value of a run of decimal digits (most significant first).
pub open spec fn digits_value(s: Seq<char>) -> int
    decreases s.len(),
{
    if s.len() == 0 {
        0
    } else {
        digits_value(s.drop_last()) * 10 + digit_value(s.last())
    }
}

/// The integer text grammar of `i32`: an optional `+` or `-`, then at least
/// one decimal digit, with the value inside the range of `i32`.
pub open spec fn parse_i32_spec(s: Seq<char>) -> Option<i32> {
    let neg = s.len() > 0 && s[0] == '-';
    let signed = s.len() > 0 && (s[0] == '-' || s[0] == '+');
    let ds = if signed { s.drop_first() } else { s };
    if ds.len() == 0 || !all_digits(ds) {
        None
    } else {
        let v = if neg { -digits_value(ds) } else { digits_value(ds) };
        if i32::MIN <= v && v <= i32::MAX {
            Some(v as i32)
        } else {
            None
        }
    }
}

proof fn lemma_digits_value_nonneg(s: Seq<char>)
    requires
        all_digits(s),
    ensures
        digits_value(s) >= 0,
    decreases s.len(),
{
    if s.len() > 0 {
        lemma_digits_value_nonneg(s.drop_last());
    }
}

pub open spec fn min_int(a: int, b: int) -> int {
    if a < b { a } else { b }
}

/// The `i32` written in `s`, if `s` follows the grammar exactly.
pub fn parse_i32(s: &str) -> (r: Option<i32>)
    ensures
        r == parse_i32_spec(s@),
{
    let n = s.unicode_len();
    let mut i: usize = 0;
    let mut neg = false;
    if n > 0 {
        let c = s.get_char(0);
        if c == '-' {
            neg = true;
            i = 1;
        } else if c == '+' {
            i = 1;
        }
    }
    let start = i;
    assert(start == 1 <==> (s@.len() > 0 && (s@[0] == '-' || s@[0] == '+')));
    assert(neg <==> (s@.len() > 0 && s@[0] == '-'));
    let ghost ds = if start == 1 { s@.drop_first() } else { s@ };
    if start == n {
        return None;
    }
    let cap: i64 = 2147483649;
    let mut acc: i64 = 0;
    while i < n
        invariant
            start <= i <= n,
            n == s@.len(),
            start == 0 || start == 1,
            ds.len() == n - start,
            forall|j: int| 0 <= j < ds.len() ==> ds[j] == s@[j + start],
            all_digits(ds.subrange(0, i - start)),
            acc == min_int(digits_value(ds.subrange(0, i - start)), cap as int),
            0 <= acc <= cap,
            cap == 2147483649,
            start == 1 <==> (s@.len() > 0 && (s@[0] == '-' || s@[0] == '+')),
            neg <==> (s@.len() > 0 && s@[0] == '-'),
            ds == (if start == 1 { s@.drop_first() } else { s@ }),
        decreases n - i,
    {
        let c = s.get_char(i);
        if !('0' <= c && c <= '9') {
            proof {
                assert(ds[i - start] == c);
                assert(!is_digit(ds[i - start]));
            }
            return None;
        }
        let d = (c as u32 - '0' as u32) as i64;
        assert(0 <= d <= 9);
        assert(d == digit_value(c));
        let ghost pre = ds.subrange(0, i - start);
        let ghost nxt = ds.subrange(0, i - start + 1);
        proof {
            assert(nxt.drop_last() =~= pre);
            assert(nxt.last() == c);
            lemma_digits_value_nonneg(pre);
            assert forall|j: int| 0 <= j < nxt.len() implies is_digit(#[trigger] nxt[j]) by {
                if j < pre.len() {
                    assert(nxt[j] == pre[j]);
                }
            }
        }
        let v = acc * 10 + d;
        acc = if v < cap { v } else { cap };
        i = i + 1;
    }
    proof {
        assert(ds.subrange(0, n - start) =~= ds);
        lemma_digits_value_nonneg(ds);
    }
    if neg {
        if acc > 2147483648 {
            None
        } else {
            Some((0 - acc) as i32)
        }
    } else {
        if acc > 2147483647 {
            None
        } else {
            Some(acc as i32)
        }
    }
}

/// What a required integer field yields: its trimmed text read as an `i32`.
pub open spec fn i32_field_spec(value: Seq<char>, label: Seq<char>) -> Result<i32, Seq<char>> {
    match parse_i32_spec(trim_spec(value)) {
        Some(n) => Ok(n),
        None => Err(label + " debe ser numérico"@),
    }
}

/// What an optional integer field yields: blank is absent.
pub open spec fn opt_i32_field_spec(value: Option<Seq<char>>, label: Seq<char>) -> Result<Option<i32>, Seq<char>> {
    match clean_opt_spec(value) {
        None => Ok(None),
        Some(t) => match parse_i32_spec(t) {
            Some(n) => Ok(Some(n)),
            None => Err(label + " debe ser numérico"@),
        },
    }
}

/// A required integer field: the trimmed text must be an `i32`.
pub fn parse_i32_field(value: &str, label: &str) -> (r: Result<i32, String>)
    ensures
        err_view(r) == i32_field_spec(value@, label@),
        match r {
            Ok(v) => parse_i32_spec(trim_spec(value@)) == Some(v),
            Err(m) => parse_i32_spec(trim_spec(value@)) is None && m@ == label@
                + " debe ser numérico"@,
        },
{
    match parse_i32(trim(value)) {
        Some(v) => Ok(v),
        None => Err(String::from_str(label).concat(" debe ser numérico")),
    }
}

/// An optional integer field: blank means absent, anything else must be an `i32`.
pub fn parse_optional_i32_field(value: Option<String>, label: &str) -> (r: Result<
    Option<i32>,
    String,
>)
    ensures
        err_view(r) == opt_i32_field_spec(opt_view(value), label@),
        match clean_opt_spec(opt_view(value)) {
            None => r == Ok::<Option<i32>, String>(None),
            Some(t) => match r {
                Ok(o) => o is Some && parse_i32_spec(t) == o,
                Err(m) => parse_i32_spec(t) is None && m@ == label@ + " debe ser numérico"@,
            },
        },
{
    let ghost orig = opt_view(value);
    match clean_opt(value) {
        Some(v) => {
            proof {
                lemma_trim_idempotent(orig->0);
            }
            match parse_i32_field(v.as_str(), label) {
                Ok(n) => Ok(Some(n)),
                Err(m) => Err(m),
            }
        },
        None => Ok(None),
    }
}

/// Decimal digit character for `d` in `0..10`.
pub open spec fn digit_char(d: int) -> char {
    (('0' as int) + d) as char
}

/// Decimal text of a natural number, without leading zeros.
pub open spec fn nat_text(n: nat) -> Seq<char>
    decreases n,
{
    if n < 10 {
        seq![digit_char(n as int)]
    } else {
        nat_text(n / 10).push(digit_char((n % 10) as int))
    }
}

/// Decimal text of an integer, with a `-` sign when negative.
pub open spec fn int_text(i: int) -> Seq<char> {
    if i < 0 {
        seq!['-'] + nat_text((-i) as nat)
    } else {
        nat_text(i as nat)
    }
}

/// `s` left-padded with zeros up to `w` characters.
pub open spec fn zero_pad(s: Seq<char>, w: nat) -> Seq<char> {
    if s.len() >= w {
        s
    } else {
        Seq::new((w - s.len()) as nat, |_i: int| '0') + s
    }
}

/// Appends the decimal text of `n`.
pub fn push_nat(out: &mut String, n: u64)
    ensures
        final(out)@ == old(out)@ + nat_text(n as nat),
    decreases n,
{
    if n >= 10 {
        push_nat(out, n / 10);
    }
    let d = (n % 10) as u32;
    let c = char_of_digit(d);
    push_char(out, c);
    proof {
        assert(old(out)@ + nat_text(n as nat) =~= (if n >= 10 {
            old(out)@ + nat_text((n / 10) as nat)
        } else {
            old(out)@
        }).push(digit_char((n % 10) as int)));
    }
}

/// Appends the decimal text of `n`, zero-padded to `w` characters.
pub fn push_nat_padded(out: &mut String, n: u64, w: u64)
    ensures
        final(out)@ == old(out)@ + zero_pad(nat_text(n as nat), w as nat),
{
    let mut digits = String::new();
    push_nat(&mut digits, n);
    let len = digits.as_str().unicode_len();
    let mut k: u64 = 0;
    let ghost pre = out@;
    if (len as u64) < w {
        let fill = w - len as u64;
        while k < fill
            invariant
                k <= fill,
                out@ == pre + Seq::new(k as nat, |_i: int| '0'),
            decreases fill - k,
        {
            push_char(out, '0');
            k = k + 1;
            proof {
                assert(pre + Seq::new(k as nat, |_i: int| '0') =~= (pre + Seq::new(
                    (k - 1) as nat,
                    |_i: int| '0',
                )).push('0'));
            }
        }
    }
    out.append(digits.as_str());
    proof {
        if len < w {
            assert(pre + Seq::new((w - len) as nat, |_i: int| '0') + digits@ =~= pre + (Seq::new(
                (w - len) as nat,
                |_i: int| '0',
            ) + digits@));
        }
    }
}

/// Appends the decimal text of `i`.
pub fn push_int(out: &mut String, i: i64)
    ensures
        final(out)@ == old(out)@ + int_text(i as int),
{
    if i < 0 {
        push_char(out, '-');
        let m: u64 = if i == i64::MIN {
            9223372036854775808u64
        } else {
            (0 - i) as u64
        };
        push_nat(out, m);
        proof {
            assert(old(out)@ + int_text(i as int) =~= old(out)@.push('-') + nat_text(m as nat));
        }
    } else {
        push_nat(out, i as u64);
    }
}

fn char_of_digit(d: u32) -> (c: char)
    requires
        d < 10,
    ensures
        c == digit_char(d as int),
{
    let b: u8 = 48u8 + (d as u8);
    b as char
}


} // verus!
