//! Unsigned integers written in a base up to ten: the parse that
//! `from_str_radix` performs for unsigned types, the digits that `{}` and
//! `{:o}` print, and the round trip between the two.
use vstd::prelude::*;
use vstd::string::*;
use crate::text::push_char;

verus! {

/// The character that writes digit `d`.
pub open spec fn digit_char(d: nat) -> char {
    (0x30 + d) as char
}

/// `c` is a digit of base `base`.
pub open spec fn is_digit(c: char, base: nat) -> bool {
    0x30 <= (c as u32) < 0x30 + base
}

/// The value of the digit `c`.
pub open spec fn digit_value(c: char) -> nat {
    ((c as u32) - 0x30) as nat
}

/// Every character of `s` is a digit of base `base`.
pub open spec fn all_digits(s: Seq<char>, base: nat) -> bool {
    forall|i: int| 0 <= i < s.len() ==> is_digit(#[trigger] s[i], base)
}

/// The number that the digits `s` write in base `base`, most
/// significant digit first.
pub open spec fn digits_value(s: Seq<char>, base: nat) -> nat
    decreases s.len(),
{
    if s.len() == 0 {
        0
    } else {
        digits_value(s.drop_last(), base) * base + digit_value(s.last())
    }
}

/// What is left of `s` after one leading `'+'`, the only sign that an
/// unsigned parse accepts.
pub open spec fn unsigned_body(s: Seq<char>) -> Seq<char> {
    if s.len() > 0 && s[0] == '+' {
        s.drop_first()
    } else {
        s
    }
}

/// The result of `from_str_radix` for an unsigned type whose largest
/// value is `max`: the value when the text after an optional `'+'` is a
/// non-empty run of digits whose value fits, and nothing otherwise.
pub open spec fn parse_unsigned(s: Seq<char>, base: nat, max: nat) -> Option<nat> {
    let b = unsigned_body(s);
    if b.len() > 0 && all_digits(b, base) && digits_value(b, base) <= max {
        Some(digits_value(b, base))
    } else {
        None
    }
}

/// The digits of `n` in base `base` without leading zeros; `0` is
/// written as one digit.
pub open spec fn digits_of(n: nat, base: nat) -> Seq<char>
    recommends
        2 <= base <= 10,
    decreases n,
{
    if n < base || base < 2 {
        seq![digit_char(n)]
    } else {
        proof {
            assert(n / base < n) by (nonlinear_arith)
                requires
                    n >= base,
                    base >= 2,
            ;
        }
        digits_of(n / base, base).push(digit_char(n % base))
    }
}

proof fn lemma_digits_value_prefix(s: Seq<char>, base: nat, k: int)
    requires
        base >= 1,
        0 <= k <= s.len(),
    ensures
        digits_value(s.take(k), base) <= digits_value(s, base),
    decreases s.len(),
{
    if k < s.len() {
        assert(s.drop_last().take(k) =~= s.take(k));
        lemma_digits_value_prefix(s.drop_last(), base, k);
        let p = digits_value(s.drop_last(), base);
        assert(p <= p * base) by (nonlinear_arith)
            requires
                base >= 1,
        ;
    } else {
        assert(s.take(k) =~= s);
    }
}

/// Parses `s` as an unsigned number of base `base` no larger than `max`,
/// as `from_str_radix` does for an unsigned type whose largest value is
/// `max`.
pub fn parse_unsigned_str(s: &str, base: u64, max: u64) -> (r: Option<u64>)
    requires
        2 <= base <= 10,
        max <= u32::MAX,
    ensures
        r matches Some(v) ==> parse_unsigned(s@, base as nat, max as nat) == Some(v as nat),
        r is None ==> parse_unsigned(s@, base as nat, max as nat) is None,
{
    let n = s.unicode_len();
    let mut i: usize = 0;
    if n > 0 && s.get_char(0) == '+' {
        i = 1;
    }
    let start = i;
    let ghost body = unsigned_body(s@);
    proof {
        assert(body =~= s@.skip(start as int));
    }
    if start == n {
        return None;
    }
    let mut acc: u64 = 0;
    proof {
        assert(body.take(0) =~= Seq::<char>::empty());
    }
    while i < n
        invariant
            n == s@.len(),
            start <= i <= n,
            start < n,
            body == s@.skip(start as int),
            body == unsigned_body(s@),
            2 <= base <= 10,
            max <= u32::MAX,
            acc <= max,
            acc == digits_value(body.take(i - start), base as nat),
            all_digits(body.take(i - start), base as nat),
        decreases n - i,
    {
        let c = s.get_char(i);
        let v = c as u32;
        if !(0x30 <= v && (v as u64) < 0x30 + base) {
            proof {
                assert(body[i - start] == c);
                assert(!is_digit(c, base as nat));
                assert(!all_digits(body, base as nat));
                assert(parse_unsigned(s@, base as nat, max as nat) is None);
            }
            return None;
        }
        let d = (v - 0x30) as u64;
        let ghost prev = body.take(i - start);
        let ghost next = body.take(i - start + 1);
        proof {
            assert(next.drop_last() =~= prev);
            assert(next.last() == c);
            assert(acc * base + d <= u32::MAX * 10 + 9) by (nonlinear_arith)
                requires
                    acc <= u32::MAX,
                    base <= 10,
                    d <= 9,
            ;
        }
        acc = acc * base + d;
        if acc > max {
            proof {
                assert(acc == digits_value(next, base as nat));
                lemma_digits_value_prefix(body, base as nat, i - start + 1);
                assert(parse_unsigned(s@, base as nat, max as nat) is None);
            }
            return None;
        }
        i = i + 1;
        proof {
            assert(all_digits(next, base as nat)) by {
                assert forall|k: int| 0 <= k < next.len() implies is_digit(
                    #[trigger] next[k],
                    base as nat,
                ) by {
                    if k < prev.len() {
                        assert(next[k] == prev[k]);
                    }
                }
            }
        }
    }
    proof {
        assert(body.take(n - start) =~= body);
    }
    Some(acc)
}

/// The character of digit `d`.
fn digit_to_char(d: u64) -> (c: char)
    requires
        d < 10,
    ensures
        c == digit_char(d as nat),
{
    let b: u8 = 0x30 + d as u8;
    b as char
}

/// `n` written in base `base`, as `{}` (base ten) or `{:o}` (base eight)
/// prints it.
pub fn format_unsigned(n: u64, base: u64) -> (s: String)
    requires
        2 <= base <= 10,
    ensures
        s@ == digits_of(n as nat, base as nat),
    decreases n,
{
    if n < base {
        let mut s = String::new();
        push_char(&mut s, digit_to_char(n));
        s
    } else {
        assert(n / base < n) by (nonlinear_arith)
            requires
                n >= base,
                base >= 2,
        ;
        let mut s = format_unsigned(n / base, base);
        push_char(&mut s, digit_to_char(n % base));
        s
    }
}

/// Parsing what `digits_of` writes gives back the number.
pub proof fn lemma_digits_round_trip(n: nat, base: nat)
    requires
        2 <= base <= 10,
    ensures
        digits_of(n, base).len() > 0,
        digits_of(n, base)[0] != '+',
        all_digits(digits_of(n, base), base),
        digits_value(digits_of(n, base), base) == n,
    decreases n,
{
    let d = digits_of(n, base);
    if n < base {
        assert(d.drop_last() =~= Seq::<char>::empty());
        assert(digits_value(Seq::<char>::empty(), base) == 0);
        assert(digit_value(digit_char(n)) == n);
        assert(0 * base == 0);
        assert(digits_value(d, base) == n);
    } else {
        assert(n / base < n) by (nonlinear_arith)
            requires
                n >= base,
                base >= 2,
        ;
        lemma_digits_round_trip(n / base, base);
        let p = digits_of(n / base, base);
        assert(d.drop_last() =~= p);
        assert(n == (n / base) * base + n % base) by (nonlinear_arith)
            requires
                base >= 2,
        ;
        assert(n % base < base) by (nonlinear_arith)
            requires
                base >= 2,
        ;
        assert forall|i: int| 0 <= i < d.len() implies is_digit(#[trigger] d[i], base) by {
            if i < p.len() {
                assert(d[i] == p[i]);
            }
        }
        assert(d[0] == p[0]);
        assert(digit_value(digit_char(n % base)) == n % base);
        assert(digits_value(d, base) == digits_value(p, base) * base + n % base);
    }
}

} // verus!
