use vstd::prelude::*;
use crate::source::{first_at, find_char};
use crate::text::{slice_of, concat_chars};

verus! {

/// The character of a digit below sixteen: `0`-`9`, then `a`-`f`.
pub open spec fn digit_char(d: nat) -> char {
    if d < 10 {
        ((48 + d) as u8) as char
    } else {
        ((87 + d) as u8) as char
    }
}

/// The decimal text of `n`, without sign or leading zeros.
pub open spec fn decimal(n: nat) -> Seq<char>
    decreases n,
{
    if n < 10 {
        seq![digit_char(n)]
    } else {
        decimal(n / 10).push(digit_char(n % 10))
    }
}

/// The last `k` hexadecimal digits of `n`, most significant first.
pub open spec fn hex_digits(n: nat, k: nat) -> Seq<char>
    decreases k,
{
    if k == 0 {
        Seq::empty()
    } else {
        hex_digits(n / 16, (k - 1) as nat).push(digit_char(n % 16))
    }
}

/// The value of a digit character in base 16 (letters of either case), or 16 for any
/// other character.
pub open spec fn digit_value(c: char) -> nat {
    if '0' <= c <= '9' {
        (c as u32 - 48) as nat
    } else if 'a' <= c <= 'f' {
        (c as u32 - 87) as nat
    } else if 'A' <= c <= 'F' {
        (c as u32 - 55) as nat
    } else {
        16
    }
}

pub open spec fn all_digits(s: Seq<char>, base: nat) -> bool {
    forall|i: int| 0 <= i < s.len() ==> digit_value(#[trigger] s[i]) < base
}

/// The number that the digits `s` write in `base`.
pub open spec fn digits_value(s: Seq<char>, base: nat) -> nat
    decreases s.len(),
{
    if s.len() == 0 {
        0
    } else {
        digits_value(s.drop_last(), base) * base + digit_value(s.last())
    }
}

/// An unsigned integer as written: an optional `+`, then at least one decimal digit.
pub open spec fn unsigned_text(s: Seq<char>) -> Option<nat> {
    let body = if s.len() > 0 && s[0] == '+' {
        s.drop_first()
    } else {
        s
    };
    if body.len() > 0 && all_digits(body, 10) {
        Some(digits_value(body, 10))
    } else {
        None
    }
}

/// A signed 32-bit integer written in hexadecimal: an optional `+` or `-`, then at least
/// one hexadecimal digit, the value within the range of `i32`.
pub open spec fn hex_i32_text(s: Seq<char>) -> Option<i32> {
    let neg = s.len() > 0 && s[0] == '-';
    let body = if s.len() > 0 && (s[0] == '+' || s[0] == '-') {
        s.drop_first()
    } else {
        s
    };
    if body.len() > 0 && all_digits(body, 16) {
        let v = digits_value(body, 16) as int;
        let signed = if neg {
            -v
        } else {
            v
        };
        if i32::MIN <= signed <= i32::MAX {
            Some(signed as i32)
        } else {
            None
        }
    } else {
        None
    }
}

fn digit_of(c: char) -> (r: u64)
    ensures
        r == digit_value(c),
{
    if '0' <= c && c <= '9' {
        (c as u64) - 48
    } else if 'a' <= c && c <= 'f' {
        (c as u64) - 87
    } else if 'A' <= c && c <= 'F' {
        (c as u64) - 55
    } else {
        16
    }
}

/// The character of a digit below sixteen.
pub fn digit_char_of(d: u64) -> (r: char)
    requires
        d < 16,
    ensures
        r == digit_char(d as nat),
{
    if d < 10 {
        ((48 + d) as u8) as char
    } else {
        ((87 + d) as u8) as char
    }
}

proof fn lemma_digits_grow(s: Seq<char>, base: nat, j: int)
    requires
        0 <= j <= s.len(),
        base >= 1,
    ensures
        digits_value(s.subrange(0, j), base) <= digits_value(s, base),
    decreases s.len() - j,
{
    if j < s.len() {
        lemma_digits_grow(s, base, j + 1);
        let t = s.subrange(0, j + 1);
        assert(t.drop_last() == s.subrange(0, j));
        let a = digits_value(s.subrange(0, j), base);
        assert(a <= a * base) by (nonlinear_arith)
            requires
                base >= 1,
        ;
    } else {
        assert(s.subrange(0, j) == s);
    }
}

/// Reads the digits `s[from..]` in `base`, or `None` where one is no digit of the base or
/// the value exceeds `max`.
fn read_digits(s: &[char], from: usize, base: u64, max: u64) -> (r: Option<u64>)
    requires
        from <= s@.len(),
        2 <= base <= 16,
    ensures
        ({
            let body = s@.subrange(from as int, s@.len() as int);
            match r {
                Some(v) => all_digits(body, base as nat) && v == digits_value(body, base as nat)
                    && v <= max,
                None => !all_digits(body, base as nat) || digits_value(body, base as nat) > max,
            }
        }),
{
    let ghost body = s@.subrange(from as int, s@.len() as int);
    let mut acc: u64 = 0;
    let mut i: usize = from;
    while i < s.len()
        invariant
            from <= i <= s@.len(),
            2 <= base <= 16,
            body == s@.subrange(from as int, s@.len() as int),
            all_digits(s@.subrange(from as int, i as int), base as nat),
            acc == digits_value(s@.subrange(from as int, i as int), base as nat),
            acc <= max,
        decreases s@.len() - i,
    {
        let d = digit_of(s[i]);
        let ghost pre = s@.subrange(from as int, i as int);
        let ghost next = s@.subrange(from as int, i + 1);
        assert(next.drop_last() == pre);
        assert(next == body.subrange(0, i + 1 - from));
        if d >= base {
            assert(body[i - from] == s@[i as int]);
            return None;
        }
        if d > max {
            proof {
                lemma_digits_grow(body, base as nat, i + 1 - from);
            }
            return None;
        }
        let lim = (max - d) / base;
        if acc > lim {
            proof {
                assert(acc * base + d > max) by (nonlinear_arith)
                    requires
                        acc > lim,
                        lim as int == (max as int - d as int) / (base as int),
                        base >= 2,
                        d <= max,
                ;
                lemma_digits_grow(body, base as nat, i + 1 - from);
            }
            return None;
        }
        assert(acc * base + d <= max) by (nonlinear_arith)
            requires
                acc <= lim,
                lim as int == (max as int - d as int) / (base as int),
                base >= 2,
                d <= max,
        ;
        acc = acc * base + d;
        assert(all_digits(next, base as nat)) by {
            assert forall|k: int| 0 <= k < next.len() implies digit_value(#[trigger] next[k])
                < base by {
                if k < pre.len() {
                    assert(next[k] == pre[k]);
                }
            }
        }
        i += 1;
    }
    assert(s@.subrange(from as int, i as int) == body);
    Some(acc)
}

/// Reads an unsigned integer that must not exceed `max`.
pub fn parse_unsigned(s: &[char], max: u64) -> (r: Option<u64>)
    ensures
        r == (match unsigned_text(s@) {
            Some(v) => if v <= max {
                Some(v as u64)
            } else {
                None::<u64>
            },
            None => None,
        }),
{
    let from: usize = if s.len() > 0 && s[0] == '+' {
        1
    } else {
        0
    };
    let ghost body = s@.subrange(from as int, s@.len() as int);
    assert(body == (if s@.len() > 0 && s@[0] == '+' {
        s@.drop_first()
    } else {
        s@
    }));
    if from == s.len() {
        return None;
    }
    read_digits(s, from, 10, max)
}

/// Reads a signed 32-bit integer written in hexadecimal, as `i32::from_str_radix` with
/// radix 16 accepts it.
pub fn parse_hex_i32(s: &[char]) -> (r: Option<i32>)
    ensures
        r == hex_i32_text(s@),
{
    let neg = s.len() > 0 && s[0] == '-';
    let from: usize = if s.len() > 0 && (s[0] == '+' || s[0] == '-') {
        1
    } else {
        0
    };
    let ghost body = s@.subrange(from as int, s@.len() as int);
    assert(body == (if s@.len() > 0 && (s@[0] == '+' || s@[0] == '-') {
        s@.drop_first()
    } else {
        s@
    }));
    if from == s.len() {
        return None;
    }
    let max: u64 = if neg {
        0x8000_0000
    } else {
        0x7fff_ffff
    };
    match read_digits(s, from, 16, max) {
        Some(v) => {
            if neg {
                Some((0 - (v as i64)) as i32)
            } else {
                Some(v as i32)
            }
        },
        None => None,
    }
}

/// Appends the decimal text of `n`.
pub fn push_decimal(out: &mut Vec<char>, n: u64)
    ensures
        final(out)@ == old(out)@ + decimal(n as nat),
    decreases n,
{
    if n >= 10 {
        push_decimal(out, n / 10);
    }
    out.push(digit_char_of(n % 10));
}

/// Appends the last `k` hexadecimal digits of `n`, in small letters.
pub fn push_hex_digits(out: &mut Vec<char>, n: u64, k: u64)
    ensures
        final(out)@ == old(out)@ + hex_digits(n as nat, k as nat),
    decreases k,
{
    if k > 0 {
        push_hex_digits(out, n / 16, k - 1);
        out.push(digit_char_of(n % 16));
    }
}

pub open spec fn pow10(k: nat) -> nat
    decreases k,
{
    if k == 0 {
        1
    } else {
        10 * pow10((k - 1) as nat)
    }
}

/// A non-negative decimal number: `mantissa / 10^scale`.
#[derive(Debug, Clone, Copy, PartialEq, Eq, Structural)]
pub struct Multiplier {
    pub mantissa: u64,
    pub scale: u32,
}

/// The most digits after the point that a multiplier keeps.
pub const MAX_SCALE: u32 = 18;

/// A decimal number as written: an optional `+`, digits, and optionally a point followed
/// by more digits; as the digits without the point and their count after it.
pub open spec fn decimal_text(s: Seq<char>) -> Option<(nat, nat)> {
    let body = if s.len() > 0 && s[0] == '+' {
        s.drop_first()
    } else {
        s
    };
    let p = first_at(body, '.');
    let whole = body.subrange(0, p);
    if p == body.len() {
        if whole.len() > 0 && all_digits(whole, 10) {
            Some((digits_value(whole, 10), 0))
        } else {
            None
        }
    } else {
        let frac = body.subrange(p + 1, body.len() as int);
        if whole.len() > 0 && frac.len() > 0 && all_digits(whole + frac, 10) {
            Some((digits_value(whole + frac, 10), frac.len()))
        } else {
            None
        }
    }
}

/// The multiplier that `s` writes, where its digits fit.
pub open spec fn multiplier_text(s: Seq<char>) -> Option<Multiplier> {
    match decimal_text(s) {
        Some((m, k)) => if m <= u64::MAX && k <= MAX_SCALE {
            Some(Multiplier { mantissa: m as u64, scale: k as u32 })
        } else {
            None
        },
        None => None,
    }
}

/// The number shown with one digit after the point, rounded half to even.
pub open spec fn one_decimal(m: Multiplier) -> Seq<char> {
    if m.scale == 0 {
        decimal(m.mantissa as nat) + seq!['.', '0']
    } else {
        let p = pow10((m.scale - 1) as nat);
        let q = m.mantissa as nat / p;
        let r = m.mantissa as nat % p;
        let t = if 2 * r > p || (2 * r == p && q % 2 == 1) {
            q + 1
        } else {
            q
        };
        decimal(t / 10) + seq!['.', digit_char(t % 10)]
    }
}

/// The multiplier equals one.
pub open spec fn is_one(m: Multiplier) -> bool {
    m.mantissa as nat == pow10(m.scale as nat)
}

fn pow10_u64(k: u32) -> (r: u64)
    requires
        k <= 19,
    ensures
        r == pow10(k as nat),
{
    let mut r: u64 = 1;
    let mut i: u32 = 0;
    while i < k
        invariant
            i <= k <= 19,
            r == pow10(i as nat),
            r <= 10_000_000_000_000_000_000u64,
        decreases k - i,
    {
        proof {
            lemma_pow10_bound(i as nat);
        }
        assert(pow10((i + 1) as nat) == 10 * pow10(i as nat));
        r = r * 10;
        i += 1;
    }
    proof {
        lemma_pow10_bound(k as nat);
    }
    r
}

proof fn lemma_pow10_grows(a: nat, b: nat)
    requires
        a <= b,
    ensures
        pow10(a) <= pow10(b),
    decreases b - a,
{
    if a < b {
        lemma_pow10_grows(a, (b - 1) as nat);
        lemma_pow10_positive((b - 1) as nat);
    }
}

proof fn lemma_pow10_bound(k: nat)
    requires
        k <= 19,
    ensures
        pow10(k) <= 10_000_000_000_000_000_000,
        k < 19 ==> pow10(k) <= 1_000_000_000_000_000_000,
{
    reveal_with_fuel(pow10, 20);
    assert(pow10(19) == 10_000_000_000_000_000_000);
    assert(pow10(18) == 1_000_000_000_000_000_000);
    lemma_pow10_grows(k, 19);
    if k < 19 {
        lemma_pow10_grows(k, 18);
    }
}

impl Multiplier {
    /// Reads a multiplier written as a decimal number.
    pub fn parse(s: &[char]) -> (r: Option<Multiplier>)
        ensures
            r == multiplier_text(s@),
    {
        let from: usize = if s.len() > 0 && s[0] == '+' {
            1
        } else {
            0
        };
        let body = slice_of(s, from, s.len());
        assert(body@ == (if s@.len() > 0 && s@[0] == '+' {
            s@.drop_first()
        } else {
            s@
        }));
        let p = find_char(&body, '.');
        let whole = slice_of(&body, 0, p);
        if whole.len() == 0 || whole[0] == '+' {
            proof {
                if whole@.len() > 0 {
                    assert(digit_value(whole@[0]) == 16);
                    assert(!all_digits(whole@, 10));
                    let frac = body@.subrange(p + 1, body@.len() as int);
                    assert((whole@ + frac)[0] == whole@[0]);
                    assert(!all_digits(whole@ + frac, 10));
                }
            }
            return None;
        }
        if p == body.len() {
            return match parse_unsigned(&whole, u64::MAX) {
                Some(m) => {
                    assert(whole@[0] != '+');
                    Some(Multiplier { mantissa: m, scale: 0 })
                },
                None => {
                    assert(whole@[0] != '+');
                    None
                },
            };
        }
        let frac = slice_of(&body, p + 1, body.len());
        if frac.len() == 0 || frac.len() > MAX_SCALE as usize {
            return None;
        }
        let digits = concat_chars(&whole, &frac);
        assert(digits@[0] != '+');
        match parse_unsigned(&digits, u64::MAX) {
            Some(m) => Some(Multiplier { mantissa: m, scale: frac.len() as u32 }),
            None => None,
        }
    }

    /// Whether the multiplier equals one.
    pub fn is_one(&self) -> (r: bool)
        requires
            self.scale <= MAX_SCALE,
        ensures
            r == is_one(*self),
    {
        self.mantissa == pow10_u64(self.scale)
    }

    /// Appends the number with one digit after the point.
    pub fn push_one_decimal(&self, out: &mut Vec<char>)
        requires
            self.scale <= MAX_SCALE,
        ensures
            final(out)@ == old(out)@ + one_decimal(*self),
    {
        if self.scale == 0 {
            push_decimal(out, self.mantissa);
            out.push('.');
            out.push('0');
        } else {
            let p = pow10_u64(self.scale - 1);
            proof {
                lemma_pow10_bound((self.scale - 1) as nat);
                assert(pow10((self.scale - 1) as nat) >= 1) by {
                    lemma_pow10_positive((self.scale - 1) as nat);
                }
            }
            let q = self.mantissa / p;
            let r = self.mantissa % p;
            let t: u64 = if 2 * r > p || (2 * r == p && q % 2 == 1) {
                assert(r > 0 ==> p >= 2);
                assert(q < u64::MAX) by {
                    if p == 1 {
                        assert(r == 0);
                    } else {
                        assert(q <= self.mantissa / 2) by (nonlinear_arith)
                            requires
                                q == self.mantissa / p,
                                p >= 2,
                        ;
                    }
                }
                q + 1
            } else {
                q
            };
            push_decimal(out, t / 10);
            out.push('.');
            out.push(digit_char_of(t % 10));
        }
        assert(final(out)@ =~= old(out)@ + one_decimal(*self));
    }
}

proof fn lemma_pow10_positive(k: nat)
    ensures
        pow10(k) >= 1,
    decreases k,
{
    if k > 0 {
        lemma_pow10_positive((k - 1) as nat);
    }
}

} // verus!
