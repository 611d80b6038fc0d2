use rust_decimal::Decimal;
use vstd::prelude::*;

verus! {

/// `rust_decimal::Decimal`, carried through opaquely: its value is read
/// only through `decimal_mantissa` and `decimal_scale`.
#[verifier::external_type_specification]
#[verifier::external_body]
pub struct ExDecimal(Decimal);

/// Largest magnitude of an amount's unit count: a 96-bit mantissa, as in
/// `rust_decimal::Decimal`, so every amount converts back to a decimal.
pub const MAX_UNITS: i128 = 79228162514264337593543950335;

/// Amounts carry this many decimal places.
pub const DECIMAL_PLACES: u32 = 4;

/// Units in one whole currency unit.
pub const UNITS_PER_WHOLE: i128 = 10000;

/// Ten to the power `n`.
pub open spec fn pow10(n: nat) -> int
    decreases n,
{
    if n == 0 {
        1
    } else {
        10 * pow10((n - 1) as nat)
    }
}

/// Whether `u` ten-thousandths is exactly the value `m * 10^-s`.
pub open spec fn units_denote(u: int, m: int, s: nat) -> bool {
    u * pow10(s) == m * pow10(DECIMAL_PLACES as nat)
}

/// Whether a unit count fits in an amount.
pub open spec fn in_range(v: int) -> bool {
    -MAX_UNITS <= v <= MAX_UNITS
}

/// A fixed-point money amount, in ten-thousandths of a currency unit.
#[derive(Clone, Copy, Debug, PartialEq, Eq, Structural)]
pub struct Amount {
    pub units: i128,
}

impl Amount {
    pub open spec fn wf(self) -> bool {
        in_range(self.units as int)
    }

    pub open spec fn spec_zero() -> Amount {
        Amount { units: 0 }
    }

    pub fn zero() -> (r: Amount)
        ensures
            r == Amount::spec_zero(),
            r.wf(),
    {
        Amount { units: 0 }
    }

    /// The amount of `n` whole currency units.
    pub fn from_whole(n: i64) -> (r: Amount)
        ensures
            r.units == n * UNITS_PER_WHOLE,
            r.wf(),
    {
        Amount { units: (n as i128) * UNITS_PER_WHOLE }
    }

    /// The amount of `units` ten-thousandths, where it fits.
    pub fn from_units(units: i128) -> (r: Option<Amount>)
        ensures
            r is Some <==> in_range(units as int),
            r matches Some(a) ==> a.units == units,
    {
        if -MAX_UNITS <= units && units <= MAX_UNITS {
            Some(Amount { units })
        } else {
            None
        }
    }

    pub fn units(&self) -> (r: i128)
        ensures
            r == self.units,
    {
        self.units
    }
}

/// Whether the sum of two in-range unit counts is in range.
pub fn sum_in_range(x: i128, y: i128) -> (r: bool)
    requires
        in_range(x as int),
        in_range(y as int),
    ensures
        r == in_range(x + y),
{
    let s = x + y;
    -MAX_UNITS <= s && s <= MAX_UNITS
}

/// Whether the difference of two in-range unit counts is in range.
pub fn diff_in_range(x: i128, y: i128) -> (r: bool)
    requires
        in_range(x as int),
        in_range(y as int),
    ensures
        r == in_range(x - y),
{
    let s = x - y;
    -MAX_UNITS <= s && s <= MAX_UNITS
}

proof fn lemma_pow10_positive(n: nat)
    ensures
        pow10(n) >= 1,
    decreases n,
{
    if n > 0 {
        lemma_pow10_positive((n - 1) as nat);
    }
}

proof fn lemma_pow10_add(a: nat, b: nat)
    ensures
        pow10(a + b) == pow10(a) * pow10(b),
    decreases a,
{
    if a > 0 {
        lemma_pow10_add((a - 1) as nat, b);
        assert(pow10(a + b) == 10 * pow10((a - 1 + b) as nat));
        assert(pow10(a + b) == pow10(a) * pow10(b)) by (nonlinear_arith)
            requires
                pow10(a + b) == 10 * pow10((a - 1 + b) as nat),
                pow10((a - 1 + b) as nat) == pow10((a - 1) as nat) * pow10(b),
                pow10(a) == 10 * pow10((a - 1) as nat),
        ;
    }
}

/// Moving a factor ten between the mantissa and the scale keeps the value.
proof fn lemma_shift_digit(u: int, m: int, s: nat)
    requires
        s >= 1,
    ensures
        units_denote(u, 10 * m, s) <==> units_denote(u, m, (s - 1) as nat),
{
    let p = pow10((s - 1) as nat);
    let k = pow10(DECIMAL_PLACES as nat);
    lemma_pow10_positive((s - 1) as nat);
    assert(pow10(s) == 10 * p);
    assert(u * (10 * p) == (10 * m) * k <==> u * p == m * k) by (nonlinear_arith);
}

/// Past four places, a value is a whole number of units only where the
/// mantissa ends in a zero.
proof fn lemma_finer_digit(u: int, m: int, s: nat)
    requires
        s > DECIMAL_PLACES,
        units_denote(u, m, s),
    ensures
        m % 10 == 0,
{
    let k = pow10(DECIMAL_PLACES as nat);
    let e = (s - DECIMAL_PLACES - 1) as nat;
    lemma_pow10_positive(DECIMAL_PLACES as nat);
    lemma_pow10_add((e + 1) as nat, DECIMAL_PLACES as nat);
    assert(pow10((e + 1) as nat) == 10 * pow10(e));
    let q = u * pow10(e);
    assert(u * (10 * pow10(e) * k) == m * k ==> m == 10 * q) by (nonlinear_arith)
        requires
            k >= 1,
            q == u * pow10(e),
    ;
}

/// At four places or fewer, the units are the mantissa scaled up, so they
/// are at least as large.
proof fn lemma_scaled_up(u: int, m: int, s: nat)
    requires
        s <= DECIMAL_PLACES,
        units_denote(u, m, s),
    ensures
        u == m * pow10((DECIMAL_PLACES - s) as nat),
        m >= 0 ==> u >= m,
        m < 0 ==> u <= m,
{
    let e = (DECIMAL_PLACES - s) as nat;
    lemma_pow10_positive(s);
    lemma_pow10_positive(e);
    lemma_pow10_add(e, s);
    assert(e + s == DECIMAL_PLACES as nat);
    let p = pow10(s);
    let f = pow10(e);
    assert(u * p == m * (f * p) ==> u == m * f) by (nonlinear_arith)
        requires
            p >= 1,
    ;
    assert(m >= 0 ==> m * f >= m) by (nonlinear_arith)
        requires
            f >= 1,
    ;
    assert(m < 0 ==> m * f <= m) by (nonlinear_arith)
        requires
            f >= 1,
    ;
}

impl Amount {
    /// The amount `mantissa * 10^-scale`, where it is a whole number of
    /// ten-thousandths in range; `None` where it has a nonzero digit past the
    /// fourth place or is out of range.
    pub fn from_parts(mantissa: i128, scale: u32) -> (r: Option<Amount>)
        ensures
            r matches Some(a) ==> a.wf() && units_denote(
                a.units as int,
                mantissa as int,
                scale as nat,
            ),
            r is None ==> forall|u: int|
                in_range(u) ==> !#[trigger] units_denote(u, mantissa as int, scale as nat),
    {
        let mut m: i128 = mantissa;
        let mut s: u32 = scale;
        while s > DECIMAL_PLACES
            invariant
                forall|u: int| #[trigger]
                    units_denote(u, mantissa as int, scale as nat) <==> units_denote(
                        u,
                        m as int,
                        s as nat,
                    ),
            decreases s,
        {
            if m % 10 != 0 {
                proof {
                    assert forall|u: int| in_range(u) implies !#[trigger] units_denote(
                        u,
                        mantissa as int,
                        scale as nat,
                    ) by {
                        if units_denote(u, mantissa as int, scale as nat) {
                            lemma_finer_digit(u, m as int, s as nat);
                        }
                    }
                }
                return None;
            }
            let q = m / 10;
            assert(m == 10 * q);
            proof {
                assert forall|u: int| #[trigger]
                    units_denote(u, mantissa as int, scale as nat) <==> units_denote(
                        u,
                        q as int,
                        (s - 1) as nat,
                    ) by {
                    lemma_shift_digit(u, q as int, s as nat);
                }
            }
            m = q;
            s = s - 1;
        }
        while s < DECIMAL_PLACES
            invariant
                s <= DECIMAL_PLACES,
                forall|u: int| #[trigger]
                    units_denote(u, mantissa as int, scale as nat) <==> units_denote(
                        u,
                        m as int,
                        s as nat,
                    ),
            decreases DECIMAL_PLACES - s,
        {
            if m > MAX_UNITS || m < -MAX_UNITS {
                proof {
                    assert forall|u: int| in_range(u) implies !#[trigger] units_denote(
                        u,
                        mantissa as int,
                        scale as nat,
                    ) by {
                        if units_denote(u, mantissa as int, scale as nat) {
                            lemma_scaled_up(u, m as int, s as nat);
                        }
                    }
                }
                return None;
            }
            proof {
                assert forall|u: int| #[trigger]
                    units_denote(u, mantissa as int, scale as nat) <==> units_denote(
                        u,
                        10 * m,
                        (s + 1) as nat,
                    ) by {
                    lemma_shift_digit(u, m as int, (s + 1) as nat);
                }
            }
            m = m * 10;
            s = s + 1;
        }
        proof {
            let k = pow10(DECIMAL_PLACES as nat);
            lemma_pow10_positive(DECIMAL_PLACES as nat);
            assert(s == DECIMAL_PLACES);
            assert forall|u: int| #[trigger] units_denote(u, m as int, s as nat) <==> u == m by {
                assert(u * k == m * k <==> u == m) by (nonlinear_arith)
                    requires
                        k >= 1,
                ;
            }
        }
        if m > MAX_UNITS || m < -MAX_UNITS {
            None
        } else {
            Some(Amount { units: m })
        }
    }

    /// The amount that a decimal holds, where it has at most four decimal
    /// places that are not zero and fits in range.
    pub fn from_decimal(d: &Decimal) -> (r: Option<Amount>)
        ensures
            r matches Some(a) ==> a.wf(),
    {
        let mantissa = decimal_mantissa(d);
        let scale = decimal_scale(d);
        Amount::from_parts(mantissa, scale)
    }
}

/// Relies on `rust_decimal::Decimal::mantissa`: the signed 96-bit integer
/// part of the decimal's representation.
#[verifier::external_body]
fn decimal_mantissa(d: &Decimal) -> (r: i128)
    ensures
        -0x1_0000_0000_0000_0000_0000_0000 < r < 0x1_0000_0000_0000_0000_0000_0000,
{
    d.mantissa()
}

/// Relies on `rust_decimal::Decimal::scale`: the power of ten that the
/// mantissa is divided by.
#[verifier::external_body]
fn decimal_scale(d: &Decimal) -> (r: u32) {
    d.scale()
}

} // verus!
