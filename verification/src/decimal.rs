//! Exact decimal numbers for prices and quantities.
//!
//! A `Decimal` stands for `mantissa / 10^scale`. Numbers read from the wire
//! keep every digit that was written; products are formed without rounding.
//! A number is read only if it fits: a mantissa of at most 63 bits and at
//! most 18 fractional digits. Whoever needs binary floating point converts
//! on the way out.

use vstd::prelude::*;
use crate::text::{
    all_digits, chars_of, digit_run_end, digits_capped, digits_value, is_digit,
    lemma_run_end_bounds, run_end,
};

verus! {

/// Largest magnitude of the mantissa of a number read from the wire.
pub const MANTISSA_MAX: u64 = 9223372036854775807;

/// Largest number of fractional digits of a number read from the wire.
pub const SCALE_MAX: u32 = 18;

/// The number `mantissa / 10^scale`.
///
/// One number has many forms: `1.5` and `1.50` differ in scale. `==`
/// compares forms; `equals` and `le` compare numbers.
#[derive(Clone, Copy, Debug, PartialEq, Eq, Structural)]
pub struct Decimal {
    pub mantissa: i128,
    pub scale: u32,
}

/// `10^n`.
pub open spec fn pow10(n: nat) -> nat
    decreases n,
{
    if n == 0 {
        1
    } else {
        10 * pow10((n - 1) as nat)
    }
}

/// Powers of ten are positive.
pub proof fn lemma_pow10_positive(n: nat)
    ensures
        pow10(n) > 0,
    decreases n,
{
    if n > 0 {
        lemma_pow10_positive((n - 1) as nat);
    }
}

/// Powers of ten grow with the exponent.
pub proof fn lemma_pow10_monotone(a: nat, b: nat)
    requires
        a <= b,
    ensures
        pow10(a) <= pow10(b),
    decreases b,
{
    if a < b {
        lemma_pow10_monotone(a, (b - 1) as nat);
    }
}

/// The two largest powers of ten that the readers meet.
pub proof fn lemma_pow10_19()
    ensures
        pow10(18) == 1_000_000_000_000_000_000,
        pow10(19) == 10_000_000_000_000_000_000,
{
    reveal_with_fuel(pow10, 20);
}

impl Decimal {
    /// Whether the number is in the range that the wire readers produce.
    pub open spec fn is_wire(self) -> bool {
        &&& -(MANTISSA_MAX as int) <= self.mantissa <= MANTISSA_MAX as int
        &&& self.scale <= SCALE_MAX
    }

    /// The exact product: mantissas multiply, scales add.
    pub open spec fn spec_times(self, other: Decimal) -> Decimal {
        Decimal {
            mantissa: (self.mantissa * other.mantissa) as i128,
            scale: (self.scale + other.scale) as u32,
        }
    }

    /// `self <= other` as numbers.
    pub open spec fn spec_le(self, other: Decimal) -> bool {
        self.mantissa * pow10(other.scale as nat) <= other.mantissa * pow10(self.scale as nat)
    }

    /// `self == other` as numbers, whatever their scales.
    pub open spec fn same_value(self, other: Decimal) -> bool {
        self.mantissa * pow10(other.scale as nat) == other.mantissa * pow10(self.scale as nat)
    }

    /// Whether `self` is the product of `a` and `b` as numbers.
    pub open spec fn is_product_of(self, a: Decimal, b: Decimal) -> bool {
        self.mantissa * pow10((a.scale + b.scale) as nat) == a.mantissa * b.mantissa * pow10(
            self.scale as nat,
        )
    }

    /// The integer `n`.
    pub fn from_int(n: i64) -> (r: Decimal)
        ensures
            r == (Decimal { mantissa: n as i128, scale: 0 }),
    {
        Decimal { mantissa: n as i128, scale: 0 }
    }

    /// The product of two wire numbers, formed exactly.
    pub fn times(&self, other: &Decimal) -> (r: Decimal)
        requires
            self.is_wire(),
            other.is_wire(),
        ensures
            r == self.spec_times(*other),
            r.mantissa == self.mantissa * other.mantissa,
            r.scale == self.scale + other.scale,
    {
        assert(-0x4000_0000_0000_0000_0000_0000_0000_0000 <= self.mantissa * other.mantissa
            <= 0x4000_0000_0000_0000_0000_0000_0000_0000) by (nonlinear_arith)
            requires
                -0x8000_0000_0000_0000 <= self.mantissa <= 0x8000_0000_0000_0000,
                -0x8000_0000_0000_0000 <= other.mantissa <= 0x8000_0000_0000_0000,
        ;
        Decimal { mantissa: self.mantissa * other.mantissa, scale: self.scale + other.scale }
    }

    /// Whether `self <= other` as numbers.
    pub fn le(&self, other: &Decimal) -> (r: bool)
        requires
            self.is_wire(),
            other.is_wire(),
        ensures
            r == self.spec_le(*other),
    {
        let a: i128 = scaled(self.mantissa, other.scale);
        let b: i128 = scaled(other.mantissa, self.scale);
        a <= b
    }

    /// Whether `self` and `other` are the same number.
    pub fn equals(&self, other: &Decimal) -> (r: bool)
        requires
            self.is_wire(),
            other.is_wire(),
        ensures
            r == self.same_value(*other),
    {
        let a: i128 = scaled(self.mantissa, other.scale);
        let b: i128 = scaled(other.mantissa, self.scale);
        a == b
    }
}

/// `10^n` for the exponents that fit.
pub fn pow10_of(n: u32) -> (r: u64)
    requires
        n <= 19,
    ensures
        r == pow10(n as nat),
{
    let mut r: u64 = 1;
    let mut i: u32 = 0;
    while i < n
        invariant
            i <= n <= 19,
            r == pow10(i as nat),
        decreases n - i,
    {
        proof {
            lemma_pow10_monotone(i as nat, 18);
            lemma_pow10_19();
        }
        r = r * 10;
        i = i + 1;
    }
    r
}

fn scaled(mantissa: i128, by: u32) -> (r: i128)
    requires
        -(MANTISSA_MAX as int) <= mantissa <= MANTISSA_MAX as int,
        by <= SCALE_MAX,
    ensures
        r == mantissa * pow10(by as nat),
{
    let p = pow10_of(by);
    proof {
        lemma_pow10_monotone(by as nat, 18);
        lemma_pow10_19();
        assert(-0x4000_0000_0000_0000_0000_0000_0000_0000 <= mantissa * (p as int)
            <= 0x4000_0000_0000_0000_0000_0000_0000_0000) by (nonlinear_arith)
            requires
                -0x8000_0000_0000_0000 <= mantissa <= 0x8000_0000_0000_0000,
                0 <= p <= 0x1000_0000_0000_0000,
        ;
    }
    mantissa * (p as i128)
}

/// The product of two wire numbers loses nothing: its mantissa is the
/// product of the mantissas, its scale the sum of the scales, and as a
/// number it is the product of the two.
pub proof fn times_is_exact(a: Decimal, b: Decimal)
    requires
        a.is_wire(),
        b.is_wire(),
    ensures
        a.spec_times(b).mantissa == a.mantissa * b.mantissa,
        a.spec_times(b).scale == a.scale + b.scale,
        a.spec_times(b).is_product_of(a, b),
{
    assert(-0x4000_0000_0000_0000_0000_0000_0000_0000 <= a.mantissa * b.mantissa
        <= 0x4000_0000_0000_0000_0000_0000_0000_0000) by (nonlinear_arith)
        requires
            -0x8000_0000_0000_0000 <= a.mantissa <= 0x8000_0000_0000_0000,
            -0x8000_0000_0000_0000 <= b.mantissa <= 0x8000_0000_0000_0000,
    ;
}

/// The order of numbers is total.
pub proof fn lemma_le_total(a: Decimal, b: Decimal)
    ensures
        a.spec_le(b) || b.spec_le(a),
{
}

/// The order of numbers is transitive.
pub proof fn lemma_le_transitive(a: Decimal, b: Decimal, c: Decimal)
    requires
        a.spec_le(b),
        b.spec_le(c),
    ensures
        a.spec_le(c),
{
    let pa = pow10(a.scale as nat) as int;
    let pb = pow10(b.scale as nat) as int;
    let pc = pow10(c.scale as nat) as int;
    let x = a.mantissa as int;
    let y = b.mantissa as int;
    let z = c.mantissa as int;
    lemma_pow10_positive(a.scale as nat);
    lemma_pow10_positive(b.scale as nat);
    lemma_pow10_positive(c.scale as nat);
    assert((x * pb) * pc <= (y * pa) * pc) by (nonlinear_arith)
        requires
            x * pb <= y * pa,
            pc > 0,
    ;
    assert((y * pc) * pa <= (z * pb) * pa) by (nonlinear_arith)
        requires
            y * pc <= z * pb,
            pa > 0,
    ;
    assert((x * pb) * pc == (x * pc) * pb) by (nonlinear_arith);
    assert((y * pa) * pc == (y * pc) * pa) by (nonlinear_arith);
    assert((z * pb) * pa == (z * pa) * pb) by (nonlinear_arith);
    assert(x * pc <= z * pa) by (nonlinear_arith)
        requires
            (x * pc) * pb <= (z * pa) * pb,
            pb > 0,
    ;
}

/// The parts of a decimal literal.
pub struct Literal {
    pub negative: bool,
    /// Integer digits followed by fraction digits.
    pub digits: Seq<char>,
    /// How many of `digits` stand after the point.
    pub frac_len: nat,
    pub exponent: int,
}

/// Whether `c` is a plus or minus sign.
pub open spec fn is_sign(c: char) -> bool {
    c == '-' || c == '+'
}

/// Whether `c` introduces an exponent.
pub open spec fn is_exp_mark(c: char) -> bool {
    c == 'e' || c == 'E'
}

/// Splits `sign? (digits+ ('.' digits*)? | '.' digits+) (('e'|'E') sign?
/// digits+)?` into its parts; `None` for any other text. A point may stand
/// first or last among the digits, as in `.5` and `5.`, but not alone.
pub open spec fn literal_of(s: Seq<char>) -> Option<Literal> {
    let start: int = if s.len() > 0 && is_sign(s[0]) {
        1
    } else {
        0
    };
    let int_end = digit_run_end(s, start);
    let has_frac = int_end < s.len() && s[int_end] == '.';
    let frac_end = if has_frac {
        digit_run_end(s, int_end + 1)
    } else {
        int_end
    };
    let has_exp = frac_end < s.len() && is_exp_mark(s[frac_end]);
    let exp_signed = has_exp && frac_end + 1 < s.len() && is_sign(s[frac_end + 1]);
    let exp_start = if exp_signed {
        frac_end + 2
    } else if has_exp {
        frac_end + 1
    } else {
        frac_end
    };
    let exp_end = if has_exp {
        digit_run_end(s, exp_start)
    } else {
        frac_end
    };
    if (start < int_end || (has_frac && int_end + 1 < frac_end)) && (has_exp ==> exp_start
        < exp_end) && exp_end == s.len() {
        let frac = if has_frac {
            s.subrange(int_end + 1, frac_end)
        } else {
            Seq::<char>::empty()
        };
        let e = if has_exp {
            digits_value(s.subrange(exp_start, exp_end)) as int
        } else {
            0
        };
        Some(
            Literal {
                negative: start == 1 && s[0] == '-',
                digits: s.subrange(start, int_end) + frac,
                frac_len: frac.len(),
                exponent: if exp_signed && s[frac_end + 1] == '-' {
                    -e
                } else {
                    e
                },
            },
        )
    } else {
        None
    }
}

/// The number that a literal denotes, when it is in the wire range: at most
/// `SCALE_MAX` fractional digits once the exponent is applied, and a mantissa
/// of magnitude at most `MANTISSA_MAX`.
pub open spec fn decimal_of(lit: Literal) -> Option<Decimal> {
    let m = digits_value(lit.digits) as int;
    let shift = lit.frac_len - lit.exponent;
    let magnitude = if shift >= 0 {
        m
    } else {
        m * pow10((-shift) as nat)
    };
    let scale = if shift >= 0 {
        shift
    } else {
        0
    };
    if magnitude <= MANTISSA_MAX && scale <= SCALE_MAX {
        Some(
            Decimal {
                mantissa: (if lit.negative {
                    -magnitude
                } else {
                    magnitude
                }) as i128,
                scale: scale as u32,
            },
        )
    } else {
        None
    }
}

/// What `parse_decimal` returns for a text.
pub open spec fn decimal_text_value(s: Seq<char>) -> Option<Decimal> {
    match literal_of(s) {
        Some(lit) => decimal_of(lit),
        None => None,
    }
}

fn append_range(dst: &mut Vec<char>, src: &Vec<char>, from: usize, to: usize)
    requires
        from <= to <= src.len(),
    ensures
        final(dst)@ == old(dst)@ + src@.subrange(from as int, to as int),
{
    let mut i: usize = from;
    while i < to
        invariant
            from <= i <= to <= src.len(),
            dst@ == old(dst)@ + src@.subrange(from as int, i as int),
        decreases to - i,
    {
        dst.push(src[i]);
        assert(src@.subrange(from as int, i + 1) == src@.subrange(from as int, i as int).push(
            src@[i as int],
        ));
        i = i + 1;
    }
}

fn signed(negative: bool, magnitude: u128, scale: u32) -> (r: Decimal)
    requires
        magnitude <= MANTISSA_MAX,
    ensures
        r.scale == scale,
        r.mantissa == if negative {
            -(magnitude as int)
        } else {
            magnitude as int
        },
{
    let m = magnitude as i128;
    Decimal {
        mantissa: if negative {
            -m
        } else {
            m
        },
        scale,
    }
}

/// A literal as the scanner found it: the exponent's digits are
/// `text[exp_from..exp_to]`, an empty range when there is no exponent.
struct Scanned {
    negative: bool,
    digits: Vec<char>,
    frac_len: usize,
    exp_negative: bool,
    exp_from: usize,
    exp_to: usize,
}

impl Scanned {
    spec fn matches_literal(self, text: Seq<char>, lit: Literal) -> bool {
        &&& self.negative == lit.negative
        &&& self.digits@ == lit.digits
        &&& all_digits(self.digits@)
        &&& self.frac_len == lit.frac_len
        &&& self.exp_from <= self.exp_to <= text.len()
        &&& all_digits(text.subrange(self.exp_from as int, self.exp_to as int))
        &&& lit.exponent == if self.exp_negative {
            -(digits_value(text.subrange(self.exp_from as int, self.exp_to as int)) as int)
        } else {
            digits_value(text.subrange(self.exp_from as int, self.exp_to as int)) as int
        }
    }
}

fn scan(text: &Vec<char>) -> (r: Option<Scanned>)
    ensures
        r is Some <==> literal_of(text@) is Some,
        r matches Some(found) ==> found.matches_literal(text@, literal_of(text@)->0),
{
    let n = text.len();
    let start: usize = if n > 0 && (text[0] == '-' || text[0] == '+') {
        1
    } else {
        0
    };
    let int_end = run_end(text, start);
    let has_frac = int_end < n && text[int_end] == '.';
    let frac_end = if has_frac {
        run_end(text, int_end + 1)
    } else {
        int_end
    };
    let has_exp = frac_end < n && (text[frac_end] == 'e' || text[frac_end] == 'E');
    let exp_signed = has_exp && frac_end + 1 < n && (text[frac_end + 1] == '-' || text[frac_end
        + 1] == '+');
    let exp_start = if exp_signed {
        frac_end + 2
    } else if has_exp {
        frac_end + 1
    } else {
        frac_end
    };
    let exp_end = if has_exp {
        run_end(text, exp_start)
    } else {
        frac_end
    };
    if !((start < int_end || (has_frac && int_end + 1 < frac_end)) && (!has_exp || exp_start
        < exp_end) && exp_end == n) {
        return None;
    }
    let ghost lit = literal_of(text@)->0;
    let mut digits: Vec<char> = Vec::new();
    append_range(&mut digits, text, start, int_end);
    if has_frac {
        append_range(&mut digits, text, int_end + 1, frac_end);
    }
    let frac_len: usize = if has_frac {
        frac_end - int_end - 1
    } else {
        0
    };
    proof {
        lemma_run_end_bounds(text@, start as int);
        if has_frac {
            lemma_run_end_bounds(text@, int_end + 1);
        }
        if has_exp {
            lemma_run_end_bounds(text@, exp_start as int);
        }
        assert(digits@ =~= lit.digits);
        assert forall|i: int| 0 <= i < digits@.len() implies is_digit(#[trigger] digits@[i]) by {
            if i < int_end - start {
                assert(text@.subrange(start as int, int_end as int)[i] == digits@[i]);
            } else {
                assert(text@.subrange(int_end + 1, frac_end as int)[i - (int_end - start)]
                    == digits@[i]);
            }
        }
        if !has_exp {
            assert(text@.subrange(frac_end as int, frac_end as int) =~= Seq::<char>::empty());
        }
    }
    Some(
        Scanned {
            negative: start == 1 && text[0] == '-',
            digits,
            frac_len,
            exp_negative: exp_signed && text[frac_end + 1] == '-',
            exp_from: if has_exp {
                exp_start
            } else {
                frac_end
            },
            exp_to: exp_end,
        },
    )
}

fn evaluate(found: &Scanned, text: &Vec<char>, Ghost(lit): Ghost<Literal>) -> (r: Option<Decimal>)
    requires
        found.matches_literal(text@, lit),
    ensures
        r == decimal_of(lit),
{
    let frac_len = found.frac_len;
    proof {
        assert(found.digits@.subrange(0, found.digits@.len() as int) == found.digits@);
        lemma_pow10_19();
    }
    let m = digits_capped(&found.digits, 0, found.digits.len(), 0x8000_0000_0000_0000);
    if found.exp_negative {
        let e: u128 = digits_capped(text, found.exp_from, found.exp_to, 19);
        if e >= 19 || frac_len as u128 + e > 18 || m > MANTISSA_MAX as u128 {
            return None;
        }
        Some(signed(found.negative, m, (frac_len as u128 + e) as u32))
    } else {
        let e: u128 = digits_capped(text, found.exp_from, found.exp_to, frac_len as u128 + 20);
        if e <= frac_len as u128 {
            let shift: u128 = frac_len as u128 - e;
            if shift > 18 || m > MANTISSA_MAX as u128 {
                return None;
            }
            Some(signed(found.negative, m, shift as u32))
        } else if m == 0 {
            proof {
                assert(0 * pow10((lit.exponent - lit.frac_len) as nat) == 0);
            }
            Some(signed(found.negative, 0, 0))
        } else if e >= frac_len as u128 + 20 || m > MANTISSA_MAX as u128 {
            proof {
                let k = (lit.exponent - lit.frac_len) as nat;
                let mv = digits_value(lit.digits) as int;
                lemma_pow10_positive(k);
                if e >= frac_len as u128 + 20 {
                    lemma_pow10_monotone(19, k);
                }
                assert(mv * pow10(k) > MANTISSA_MAX) by (nonlinear_arith)
                    requires
                        mv >= 1,
                        pow10(k) >= 1,
                        mv > MANTISSA_MAX || pow10(k) > MANTISSA_MAX,
                ;
            }
            None
        } else {
            let k: u32 = (e - frac_len as u128) as u32;
            let p = pow10_of(k);
            proof {
                lemma_pow10_monotone(k as nat, 19);
                assert(m * p <= 0x8000_0000_0000_0000 * 10_000_000_000_000_000_000)
                    by (nonlinear_arith)
                    requires
                        m <= 0x8000_0000_0000_0000,
                        p <= 10_000_000_000_000_000_000,
                ;
            }
            let magnitude: u128 = m * (p as u128);
            if magnitude > MANTISSA_MAX as u128 {
                return None;
            }
            Some(signed(found.negative, magnitude, 0))
        }
    }
}

/// Reads a decimal literal exactly: an optional sign, digits with an
/// optional point among them, and an optional exponent. `None` when the
/// text has another shape or the number is outside the wire range. The
/// words `inf` and `nan` stand for no decimal number and are refused.
pub fn parse_decimal(s: &str) -> (r: Option<Decimal>)
    ensures
        r == decimal_text_value(s@),
        r matches Some(d) ==> d.is_wire(),
{
    let text = chars_of(s);
    match scan(&text) {
        Some(found) => evaluate(&found, &text, Ghost(literal_of(text@)->0)),
        None => None,
    }
}

} // verus!
