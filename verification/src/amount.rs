use rust_decimal::Decimal;
use vstd::arithmetic::power::{lemma_pow_adds, lemma_pow_positive, pow};
use vstd::arithmetic::mul::{
    lemma_mul_is_associative, lemma_mul_is_distributive_add_other_way,
    lemma_mul_strictly_positive, lemma_mul_by_zero_is_zero,
};
use vstd::prelude::*;

verus! {

/// The largest number of decimal places an amount carries.
pub const MAX_SCALE: u32 = 28;

/// Mantissas stay strictly inside `(-MANTISSA_BOUND, MANTISSA_BOUND)` (96 bits).
pub const MANTISSA_BOUND: i128 = 0x1_0000_0000_0000_0000_0000_0000;

/// The bound on four-place mantissas, `2^95`: half of `MANTISSA_BOUND`, so that
/// the sum or difference of two such mantissas still fits in 96 bits.
pub const FOUR_PLACE_BOUND: i128 = 0x8000_0000_0000_0000_0000_0000;

/// `10^n`.
pub open spec fn pow10(n: int) -> int {
    pow(10, n as nat)
}

/// The exact value of a `(mantissa, scale)` pair, counted in units of `10^-28`.
/// Every amount is a whole number of such units.
pub open spec fn value_of(p: (i128, u32)) -> int {
    p.0 * pow10(MAX_SCALE - p.1)
}

/// A representable `(mantissa, scale)` pair.
pub open spec fn valid_parts(p: (i128, u32)) -> bool {
    &&& -MANTISSA_BOUND < p.0 < MANTISSA_BOUND
    &&& p.1 <= MAX_SCALE
}

pub open spec fn larger_scale(a: (i128, u32), b: (i128, u32)) -> u32 {
    if a.1 >= b.1 {
        a.1
    } else {
        b.1
    }
}

/// The mantissa of `p` rewritten at the (larger or equal) scale `s`.
pub open spec fn mantissa_at(p: (i128, u32), s: u32) -> int {
    p.0 * pow10(s - p.1)
}

/// An amount with at most four decimal places, whose mantissa at four places
/// lies strictly inside `(-FOUR_PLACE_BOUND, FOUR_PLACE_BOUND)`.
pub open spec fn four_place_bounded(p: (i128, u32)) -> bool {
    &&& p.1 <= 4
    &&& -FOUR_PLACE_BOUND < mantissa_at(p, 4) < FOUR_PLACE_BOUND
}

/// The exact mantissa of `a + b` (or `a - b`) at the larger of the two scales.
pub open spec fn combined_mantissa(a: (i128, u32), b: (i128, u32), subtract: bool) -> int {
    let s = larger_scale(a, b);
    if subtract {
        mantissa_at(a, s) - mantissa_at(b, s)
    } else {
        mantissa_at(a, s) + mantissa_at(b, s)
    }
}

/// `a + b` (or `a - b`) is carried out without any rounding: one operand is
/// zero, or the exact result fits in 96 bits at the larger scale.
pub open spec fn exactly_representable(a: (i128, u32), b: (i128, u32), subtract: bool) -> bool {
    ||| a.0 == 0
    ||| b.0 == 0
    ||| -MANTISSA_BOUND < combined_mantissa(a, b, subtract) < MANTISSA_BOUND
}

/// The parts of the exact result, where `exactly_representable` holds: a zero
/// operand yields the other operand (negated for `0 - b`); otherwise the exact
/// mantissa at the larger scale.
pub open spec fn exact_result(a: (i128, u32), b: (i128, u32), subtract: bool) -> (i128, u32) {
    if a.0 == 0 {
        if subtract {
            ((-b.0) as i128, b.1)
        } else {
            b
        }
    } else if b.0 == 0 {
        a
    } else {
        (combined_mantissa(a, b, subtract) as i128, larger_scale(a, b))
    }
}

/// What `Decimal::checked_add` returns for the decimals with the given parts.
pub uninterp spec fn decimal_checked_add(a: (i128, u32), b: (i128, u32)) -> Option<(i128, u32)>;

/// What `Decimal::checked_sub` returns for the decimals with the given parts.
pub uninterp spec fn decimal_checked_sub(a: (i128, u32), b: (i128, u32)) -> Option<(i128, u32)>;

/// The parts of `a + b`: exact where no rounding is needed, otherwise what
/// the decimal addition gives (rounded, or `None` on overflow).
pub open spec fn sum_parts(a: (i128, u32), b: (i128, u32)) -> Option<(i128, u32)> {
    if exactly_representable(a, b, false) {
        Some(exact_result(a, b, false))
    } else {
        decimal_checked_add(a, b)
    }
}

/// The parts of `a - b`, in the same way as `sum_parts`.
pub open spec fn difference_parts(a: (i128, u32), b: (i128, u32)) -> Option<(i128, u32)> {
    if exactly_representable(a, b, true) {
        Some(exact_result(a, b, true))
    } else {
        decimal_checked_sub(a, b)
    }
}

/// The parts of an optional amount.
pub open spec fn parts_of(r: Option<Amount>) -> Option<(i128, u32)> {
    match r {
        Some(a) => Some(a.parts()),
        None => None,
    }
}

/// A monetary amount: `mantissa / 10^scale`, with a 96-bit mantissa and at
/// most 28 decimal places.
#[derive(Clone, Copy, Debug)]
pub struct Amount {
    mantissa: i128,
    scale: u32,
}

impl View for Amount {
    type V = int;

    open spec fn view(&self) -> int {
        value_of(self.parts())
    }
}

impl Amount {
    #[verifier::type_invariant]
    spec fn well_formed(self) -> bool {
        valid_parts((self.mantissa, self.scale))
    }

    /// The `(mantissa, scale)` pair.
    pub closed spec fn parts(self) -> (i128, u32) {
        (self.mantissa, self.scale)
    }

    /// The amount with the given parts.
    pub closed spec fn with_parts(p: (i128, u32)) -> Amount {
        Amount { mantissa: p.0, scale: p.1 }
    }

    pub broadcast proof fn lemma_with_parts(p: (i128, u32))
        ensures
            #[trigger] Amount::with_parts(p).parts() == p,
    {
    }

    pub broadcast proof fn lemma_parts_determine(a: Amount)
        ensures
            #[trigger] Amount::with_parts(a.parts()) == a,
    {
    }

    /// A representable amount (every exec value is one).
    pub open spec fn valid(self) -> bool {
        valid_parts(self.parts())
    }

    /// `self + other`, as `Option`.
    pub open spec fn plus(self, other: Amount) -> Option<Amount> {
        match sum_parts(self.parts(), other.parts()) {
            Some(p) => Some(Amount::with_parts(p)),
            None => None,
        }
    }

    /// `self - other`, as `Option`.
    pub open spec fn minus(self, other: Amount) -> Option<Amount> {
        match difference_parts(self.parts(), other.parts()) {
            Some(p) => Some(Amount::with_parts(p)),
            None => None,
        }
    }

    /// Zero.
    pub fn zero() -> (r: Amount)
        ensures
            r.parts() == (0i128, 0u32),
            r@ == 0,
    {
        let r = Amount { mantissa: 0, scale: 0 };
        proof {
            lemma_mul_by_zero_is_zero(pow10(28));
        }
        r
    }

    /// `mantissa / 10^scale`; the scale must not exceed 28.
    pub fn new(mantissa: i64, scale: u32) -> (r: Amount)
        requires
            scale <= MAX_SCALE,
        ensures
            r.parts() == (mantissa as i128, scale),
    {
        Amount { mantissa: mantissa as i128, scale }
    }

    /// The amount with the given parts, or `None` when the mantissa does not
    /// fit in 96 bits or the scale exceeds 28.
    pub fn from_parts(mantissa: i128, scale: u32) -> (r: Option<Amount>)
        ensures
            r is Some <==> valid_parts((mantissa, scale)),
            r matches Some(a) ==> a.parts() == (mantissa, scale),
    {
        if scale <= MAX_SCALE && -MANTISSA_BOUND < mantissa && mantissa < MANTISSA_BOUND {
            Some(Amount { mantissa, scale })
        } else {
            None
        }
    }

    pub fn mantissa(&self) -> (r: i128)
        ensures
            r == self.parts().0,
            -MANTISSA_BOUND < r < MANTISSA_BOUND,
    {
        proof {
            use_type_invariant(self);
        }
        self.mantissa
    }

    pub fn scale(&self) -> (r: u32)
        ensures
            r == self.parts().1,
            r <= MAX_SCALE,
    {
        proof {
            use_type_invariant(self);
        }
        self.scale
    }

    /// Whether the amount is below zero.
    pub fn is_negative(&self) -> (r: bool)
        ensures
            r == (self@ < 0),
    {
        proof {
            use_type_invariant(self);
            lemma_sign_of_value(self.parts());
        }
        self.mantissa < 0
    }

    /// `self + other`: exact where no rounding is needed; `None` where the
    /// decimal addition overflows.
    #[verifier::external_body]
    pub(crate) fn checked_add(self, other: Amount) -> (r: Option<Amount>)
        ensures
            r == self.plus(other),
            !exactly_representable(self.parts(), other.parts(), false) ==> parts_of(r)
                == decimal_checked_add(self.parts(), other.parts()),
    {
        let x = Decimal::from_i128_with_scale(self.mantissa, self.scale);
        let y = Decimal::from_i128_with_scale(other.mantissa, other.scale);
        match x.checked_add(y) {
            Some(d) => Some(Amount { mantissa: d.mantissa(), scale: d.scale() }),
            None => None,
        }
    }

    /// `self - other`: exact where no rounding is needed; `None` where the
    /// decimal subtraction overflows.
    #[verifier::external_body]
    pub(crate) fn checked_sub(self, other: Amount) -> (r: Option<Amount>)
        ensures
            r == self.minus(other),
            !exactly_representable(self.parts(), other.parts(), true) ==> parts_of(r)
                == decimal_checked_sub(self.parts(), other.parts()),
    {
        let x = Decimal::from_i128_with_scale(self.mantissa, self.scale);
        let y = Decimal::from_i128_with_scale(other.mantissa, other.scale);
        match x.checked_sub(y) {
            Some(d) => Some(Amount { mantissa: d.mantissa(), scale: d.scale() }),
            None => None,
        }
    }

    /// Numeric `self >= other`.
    #[verifier::external_body]
    pub(crate) fn at_least(self, other: Amount) -> (r: bool)
        ensures
            r == (self@ >= other@),
    {
        let x = Decimal::from_i128_with_scale(self.mantissa, self.scale);
        let y = Decimal::from_i128_with_scale(other.mantissa, other.scale);
        x >= y
    }

    /// Numeric `self == other`.
    #[verifier::external_body]
    pub(crate) fn same_value(self, other: Amount) -> (r: bool)
        ensures
            r == (self@ == other@),
    {
        let x = Decimal::from_i128_with_scale(self.mantissa, self.scale);
        let y = Decimal::from_i128_with_scale(other.mantissa, other.scale);
        x == y
    }
}

impl PartialEq for Amount {
    fn eq(&self, other: &Amount) -> (r: bool) {
        self.same_value(*other)
    }
}

impl vstd::std_specs::cmp::PartialEqSpecImpl for Amount {
    open spec fn obeys_eq_spec() -> bool {
        true
    }

    open spec fn eq_spec(&self, other: &Amount) -> bool {
        self@ == other@
    }
}

/// The sign of a value is the sign of its mantissa.
pub proof fn lemma_sign_of_value(p: (i128, u32))
    requires
        p.1 <= MAX_SCALE,
    ensures
        (value_of(p) < 0) == (p.0 < 0),
        (value_of(p) == 0) == (p.0 == 0),
{
    let k = pow10(MAX_SCALE - p.1);
    lemma_pow_positive(10, (MAX_SCALE - p.1) as nat);
    if p.0 > 0 {
        lemma_mul_strictly_positive(p.0 as int, k);
    } else if p.0 < 0 {
        lemma_mul_strictly_positive(-p.0, k);
        assert(p.0 * k == -((-p.0) * k)) by (nonlinear_arith);
    } else {
        lemma_mul_by_zero_is_zero(k);
    }
}

/// Zero, at any scale, has value zero.
pub proof fn lemma_zero_value(p: (i128, u32))
    requires
        p.0 == 0,
    ensures
        value_of(p) == 0,
{
    lemma_mul_by_zero_is_zero(pow10(MAX_SCALE - p.1));
}

/// Where no rounding is needed, the result of `a + b` (or `a - b`) is itself
/// representable.
pub proof fn lemma_exact_result_valid(a: (i128, u32), b: (i128, u32), subtract: bool)
    requires
        valid_parts(a),
        valid_parts(b),
        exactly_representable(a, b, subtract),
    ensures
        valid_parts(exact_result(a, b, subtract)),
{
}

/// An exact sum: defined, representable, and of value `a + b`.
pub proof fn lemma_plus_exact(a: Amount, b: Amount)
    requires
        a.valid(),
        b.valid(),
        exactly_representable(a.parts(), b.parts(), false),
    ensures
        a.plus(b) is Some,
        a.plus(b).unwrap().valid(),
        a.plus(b).unwrap()@ == a@ + b@,
{
    lemma_exact_result_value(a.parts(), b.parts(), false);
    lemma_exact_result_valid(a.parts(), b.parts(), false);
    Amount::lemma_with_parts(exact_result(a.parts(), b.parts(), false));
}

/// An exact difference: defined, representable, and of value `a - b`.
pub proof fn lemma_minus_exact(a: Amount, b: Amount)
    requires
        a.valid(),
        b.valid(),
        exactly_representable(a.parts(), b.parts(), true),
    ensures
        a.minus(b) is Some,
        a.minus(b).unwrap().valid(),
        a.minus(b).unwrap()@ == a@ - b@,
{
    lemma_exact_result_value(a.parts(), b.parts(), true);
    lemma_exact_result_valid(a.parts(), b.parts(), true);
    Amount::lemma_with_parts(exact_result(a.parts(), b.parts(), true));
}

/// Rewriting at a larger scale keeps the value.
proof fn lemma_value_at_scale(p: (i128, u32), s: u32)
    requires
        p.1 <= s <= MAX_SCALE,
    ensures
        mantissa_at(p, s) * pow10(MAX_SCALE - s) == value_of(p),
{
    let e1 = (s - p.1) as nat;
    let e2 = (MAX_SCALE - s) as nat;
    lemma_pow_adds(10, e1, e2);
    lemma_mul_is_associative(p.0 as int, pow(10, e1), pow(10, e2));
}

/// Where no rounding is needed, the result of `a + b` (or `a - b`) has the
/// exact value.
pub proof fn lemma_exact_result_value(a: (i128, u32), b: (i128, u32), subtract: bool)
    requires
        a.1 <= MAX_SCALE,
        b.1 <= MAX_SCALE,
        -MANTISSA_BOUND < b.0 < MANTISSA_BOUND,
        exactly_representable(a, b, subtract),
    ensures
        value_of(exact_result(a, b, subtract)) == if subtract {
            value_of(a) - value_of(b)
        } else {
            value_of(a) + value_of(b)
        },
        exact_result(a, b, subtract).1 <= MAX_SCALE,
{
    lemma_sign_of_value(a);
    lemma_sign_of_value(b);
    if a.0 == 0 {
        if subtract {
            let k = pow10(MAX_SCALE - b.1);
            assert((-b.0) * k == -(b.0 * k)) by (nonlinear_arith);
        }
    } else if b.0 == 0 {
    } else {
        let s = larger_scale(a, b);
        let k = pow10(MAX_SCALE - s);
        lemma_value_at_scale(a, s);
        lemma_value_at_scale(b, s);
        let ma = mantissa_at(a, s);
        let mb = mantissa_at(b, s);
        if subtract {
            assert((ma - mb) * k == ma * k - mb * k) by (nonlinear_arith);
        } else {
            lemma_mul_is_distributive_add_other_way(k, ma, mb);
        }
    }
}

/// Rewriting a mantissa from scale `s` at the larger scale `t` multiplies it
/// by `10^(t - s)`.
proof fn lemma_rescale(p: (i128, u32), s: u32, t: u32)
    requires
        p.1 <= s <= t,
    ensures
        mantissa_at(p, s) * pow10(t - s) == mantissa_at(p, t),
{
    let e1 = (s - p.1) as nat;
    let e2 = (t - s) as nat;
    lemma_pow_adds(10, e1, e2);
    lemma_mul_is_associative(p.0 as int, pow(10, e1), pow(10, e2));
}

proof fn lemma_factor_keeps_bound(m: int, k: int, bound: int)
    by (nonlinear_arith)
    requires
        k >= 1,
        -bound < m * k < bound,
    ensures
        -bound < m < bound,
{
}

/// Two four-place amounts add and subtract without rounding.
pub proof fn lemma_four_place_exact(a: (i128, u32), b: (i128, u32), subtract: bool)
    requires
        four_place_bounded(a),
        four_place_bounded(b),
    ensures
        exactly_representable(a, b, subtract),
{
    let s = larger_scale(a, b);
    let k = pow10(4 - s);
    lemma_pow_positive(10, (4 - s) as nat);
    lemma_rescale(a, s, 4);
    lemma_rescale(b, s, 4);
    lemma_factor_keeps_bound(mantissa_at(a, s), k, FOUR_PLACE_BOUND as int);
    lemma_factor_keeps_bound(mantissa_at(b, s), k, FOUR_PLACE_BOUND as int);
}

} // verus!
