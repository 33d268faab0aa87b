use vstd::prelude::*;

verus! {

/// The numeric field that poses are computed over.
///
/// Pose representations are generic over this capability so that the same
/// closed-form Lie-algebra formulas work for plain floating-point numbers and
/// for forward-mode automatic-differentiation numbers alike; implementations
/// are supplied by the caller.
///
/// Each executable operation is pinned to an abstract specification function
/// of the implementing type, so contracts throughout the library state
/// exactly which expression over the scalar operations a result equals.
///
/// The `law_*` obligations are the algebraic laws that the library's proofs
/// rely on. They hold exactly of exact arithmetic over the real numbers (for
/// example of arbitrary-precision rationals extended with the required
/// analytic functions). A floating-point implementation satisfies most of
/// them bit-for-bit on finite values (negation, multiplication by zero and
/// one, addition of zero) and the remainder only up to rounding; such an
/// implementation is therefore a numerical model of this capability, which is
/// the usual reading for geometry over floating point.
pub trait Scalar: Sized + Copy {
    /// Abstract value of the additive identity.
    spec fn spec_zero() -> Self;

    /// Abstract value of the multiplicative identity.
    spec fn spec_one() -> Self;

    /// Abstract value of the constant `num / den`.
    spec fn spec_ratio(num: i64, den: i64) -> Self;

    /// Abstract addition.
    spec fn spec_add(self, rhs: Self) -> Self;

    /// Abstract subtraction.
    spec fn spec_sub(self, rhs: Self) -> Self;

    /// Abstract multiplication.
    spec fn spec_mul(self, rhs: Self) -> Self;

    /// Abstract division.
    spec fn spec_div(self, rhs: Self) -> Self;

    /// Abstract negation.
    spec fn spec_neg(self) -> Self;

    /// Abstract square root.
    spec fn spec_sqrt(self) -> Self;

    /// Abstract sine.
    spec fn spec_sin(self) -> Self;

    /// Abstract cosine.
    spec fn spec_cos(self) -> Self;

    /// Abstract arc cosine.
    spec fn spec_acos(self) -> Self;

    /// Abstract two-argument arc tangent; `self` is the ordinate (the `y` of
    /// `atan2(y, x)`), `rhs` the abscissa.
    spec fn spec_atan2(self, rhs: Self) -> Self;

    /// Abstract strict order.
    spec fn spec_lt(self, rhs: Self) -> bool;

    /// The additive identity.
    fn zero() -> (r: Self)
        ensures
            r == Self::spec_zero(),
    ;

    /// The multiplicative identity.
    fn one() -> (r: Self)
        ensures
            r == Self::spec_one(),
    ;

    /// The constant `num / den`; how literal constants (one half, small-angle
    /// thresholds, Taylor coefficients) enter the formulas.
    fn ratio(num: i64, den: i64) -> (r: Self)
        requires
            den != 0,
        ensures
            r == Self::spec_ratio(num, den),
    ;

    /// Addition.
    fn add(self, rhs: Self) -> (r: Self)
        ensures
            r == self.spec_add(rhs),
    ;

    /// Subtraction.
    fn sub(self, rhs: Self) -> (r: Self)
        ensures
            r == self.spec_sub(rhs),
    ;

    /// Multiplication.
    fn mul(self, rhs: Self) -> (r: Self)
        ensures
            r == self.spec_mul(rhs),
    ;

    /// Division. Total like its abstract counterpart: an implementation must
    /// return some value rather than fail when `rhs` is zero (floating-point
    /// division already is total).
    fn div(self, rhs: Self) -> (r: Self)
        ensures
            r == self.spec_div(rhs),
    ;

    /// Negation.
    fn neg(self) -> (r: Self)
        ensures
            r == self.spec_neg(),
    ;

    /// Square root.
    fn sqrt(self) -> (r: Self)
        ensures
            r == self.spec_sqrt(),
    ;

    /// Sine.
    fn sin(self) -> (r: Self)
        ensures
            r == self.spec_sin(),
    ;

    /// Cosine.
    fn cos(self) -> (r: Self)
        ensures
            r == self.spec_cos(),
    ;

    /// Arc cosine.
    fn acos(self) -> (r: Self)
        ensures
            r == self.spec_acos(),
    ;

    /// Two-argument arc tangent of `self` (ordinate) and `rhs` (abscissa).
    fn atan2(self, rhs: Self) -> (r: Self)
        ensures
            r == self.spec_atan2(rhs),
    ;

    /// Strict order comparison.
    fn lt(self, rhs: Self) -> (r: bool)
        ensures
            r == self.spec_lt(rhs),
    ;

    /// Addition is commutative.
    proof fn law_add_comm(a: Self, b: Self)
        ensures
            a.spec_add(b) == b.spec_add(a),
    ;

    /// Zero is neutral for addition.
    proof fn law_add_zero(a: Self)
        ensures
            a.spec_add(Self::spec_zero()) == a,
    ;

    /// Negation gives the additive inverse.
    proof fn law_add_neg(a: Self)
        ensures
            a.spec_add(a.spec_neg()) == Self::spec_zero(),
    ;

    /// Negation distributes over addition.
    proof fn law_neg_add(a: Self, b: Self)
        ensures
            a.spec_add(b).spec_neg() == a.spec_neg().spec_add(b.spec_neg()),
    ;

    /// Negation is an involution.
    proof fn law_neg_neg(a: Self)
        ensures
            a.spec_neg().spec_neg() == a,
    ;

    /// Zero is its own negation.
    proof fn law_neg_zero()
        ensures
            Self::spec_zero().spec_neg() == Self::spec_zero(),
    ;

    /// Subtraction is addition of the negation.
    proof fn law_sub_def(a: Self, b: Self)
        ensures
            a.spec_sub(b) == a.spec_add(b.spec_neg()),
    ;

    /// Multiplication is commutative.
    proof fn law_mul_comm(a: Self, b: Self)
        ensures
            a.spec_mul(b) == b.spec_mul(a),
    ;

    /// One is neutral for multiplication.
    proof fn law_mul_one(a: Self)
        ensures
            a.spec_mul(Self::spec_one()) == a,
    ;

    /// Multiplication by zero gives zero.
    proof fn law_mul_zero(a: Self)
        ensures
            a.spec_mul(Self::spec_zero()) == Self::spec_zero(),
    ;

    /// Negation moves through multiplication.
    proof fn law_mul_neg(a: Self, b: Self)
        ensures
            a.spec_mul(b.spec_neg()) == a.spec_mul(b).spec_neg(),
    ;

    /// Addition is associative.
    proof fn law_add_assoc(a: Self, b: Self, c: Self)
        ensures
            a.spec_add(b).spec_add(c) == a.spec_add(b.spec_add(c)),
    ;

    /// Multiplication is associative.
    proof fn law_mul_assoc(a: Self, b: Self, c: Self)
        ensures
            a.spec_mul(b).spec_mul(c) == a.spec_mul(b.spec_mul(c)),
    ;

    /// Multiplication distributes over addition.
    proof fn law_distrib(a: Self, b: Self, c: Self)
        ensures
            a.spec_mul(b.spec_add(c)) == a.spec_mul(b).spec_add(a.spec_mul(c)),
    ;

    /// Constants with a common denominator add by their numerators.
    proof fn law_ratio_add(n1: i64, n2: i64, s: i64, d: i64)
        requires
            d != 0,
            s == n1 + n2,
        ensures
            Self::spec_ratio(n1, d).spec_add(Self::spec_ratio(n2, d)) == Self::spec_ratio(s, d),
    ;

    /// Constants multiply by numerators and by denominators.
    proof fn law_ratio_mul(n1: i64, d1: i64, n2: i64, d2: i64, p: i64, q: i64)
        requires
            d1 != 0,
            d2 != 0,
            p == n1 * n2,
            q == d1 * d2,
        ensures
            Self::spec_ratio(n1, d1).spec_mul(Self::spec_ratio(n2, d2)) == Self::spec_ratio(p, q),
    ;

    /// The square root of zero is zero.
    proof fn law_sqrt_zero()
        ensures
            Self::spec_zero().spec_sqrt() == Self::spec_zero(),
    ;

    /// The cosine of zero is one.
    proof fn law_cos_zero()
        ensures
            Self::spec_zero().spec_cos() == Self::spec_one(),
    ;
}

/// Subtracting zero changes nothing.
pub proof fn lemma_sub_zero<T: Scalar>(a: T)
    ensures
        a.spec_sub(T::spec_zero()) == a,
{
    T::law_sub_def(a, T::spec_zero());
    T::law_neg_zero();
    T::law_add_zero(a);
}

/// Zero is neutral for addition on the left as well.
pub proof fn lemma_zero_add<T: Scalar>(a: T)
    ensures
        T::spec_zero().spec_add(a) == a,
{
    T::law_add_comm(T::spec_zero(), a);
    T::law_add_zero(a);
}

/// Zero annihilates on the left as well.
pub proof fn lemma_zero_mul<T: Scalar>(a: T)
    ensures
        T::spec_zero().spec_mul(a) == T::spec_zero(),
{
    T::law_mul_comm(T::spec_zero(), a);
    T::law_mul_zero(a);
}

/// One is neutral for multiplication on the left as well.
pub proof fn lemma_one_mul<T: Scalar>(a: T)
    ensures
        T::spec_one().spec_mul(a) == a,
{
    T::law_mul_comm(T::spec_one(), a);
    T::law_mul_one(a);
}

/// Negation moves through multiplication on the left as well.
pub proof fn lemma_neg_mul<T: Scalar>(a: T, b: T)
    ensures
        a.spec_neg().spec_mul(b) == a.spec_mul(b).spec_neg(),
{
    T::law_mul_comm(a.spec_neg(), b);
    T::law_mul_neg(b, a);
    T::law_mul_comm(b, a);
}

/// Subtracting a value from itself gives zero.
pub proof fn lemma_sub_self<T: Scalar>(a: T)
    ensures
        a.spec_sub(a) == T::spec_zero(),
{
    T::law_sub_def(a, a);
    T::law_add_neg(a);
}

/// Subtracting a negation is adding.
pub proof fn lemma_sub_neg<T: Scalar>(a: T, b: T)
    ensures
        a.spec_sub(b.spec_neg()) == a.spec_add(b),
{
    T::law_sub_def(a, b.spec_neg());
    T::law_neg_neg(b);
}

/// A negation cancels against its value on the left as well.
pub proof fn lemma_neg_add_self<T: Scalar>(a: T)
    ensures
        a.spec_neg().spec_add(a) == T::spec_zero(),
{
    T::law_add_comm(a.spec_neg(), a);
    T::law_add_neg(a);
}

/// Multiplication distributes over subtraction.
pub proof fn lemma_mul_sub<T: Scalar>(a: T, b: T, c: T)
    ensures
        a.spec_mul(b.spec_sub(c)) == a.spec_mul(b).spec_sub(a.spec_mul(c)),
{
    T::law_sub_def(b, c);
    T::law_distrib(a, b, c.spec_neg());
    T::law_mul_neg(a, c);
    T::law_sub_def(a.spec_mul(b), a.spec_mul(c));
}

/// Multiplication distributes over subtraction on the left as well.
pub proof fn lemma_sub_mul<T: Scalar>(a: T, b: T, c: T)
    ensures
        a.spec_sub(b).spec_mul(c) == a.spec_mul(c).spec_sub(b.spec_mul(c)),
{
    T::law_mul_comm(a.spec_sub(b), c);
    lemma_mul_sub(c, a, b);
    T::law_mul_comm(c, a);
    T::law_mul_comm(c, b);
}

/// Multiplication distributes over addition on the left as well.
pub proof fn lemma_add_mul<T: Scalar>(a: T, b: T, c: T)
    ensures
        a.spec_add(b).spec_mul(c) == a.spec_mul(c).spec_add(b.spec_mul(c)),
{
    T::law_mul_comm(a.spec_add(b), c);
    T::law_distrib(c, a, b);
    T::law_mul_comm(c, a);
    T::law_mul_comm(c, b);
}

/// The first two factors of a product of three may swap.
pub proof fn lemma_mul_left_comm<T: Scalar>(a: T, b: T, c: T)
    ensures
        a.spec_mul(b.spec_mul(c)) == b.spec_mul(a.spec_mul(c)),
{
    T::law_mul_assoc(a, b, c);
    T::law_mul_comm(a, b);
    T::law_mul_assoc(b, a, c);
}

/// The first two summands of a sum of three may swap.
pub proof fn lemma_add_left_comm<T: Scalar>(a: T, b: T, c: T)
    ensures
        a.spec_add(b.spec_add(c)) == b.spec_add(a.spec_add(c)),
{
    T::law_add_assoc(a, b, c);
    T::law_add_comm(a, b);
    T::law_add_assoc(b, a, c);
}

/// The middle summands of a balanced four-term sum may swap.
pub proof fn lemma_add_shuffle<T: Scalar>(a: T, b: T, c: T, d: T)
    ensures
        a.spec_add(b).spec_add(c.spec_add(d)) == a.spec_add(c).spec_add(b.spec_add(d)),
{
    T::law_add_assoc(a, b, c.spec_add(d));
    lemma_add_left_comm(b, c, d);
    T::law_add_assoc(a, c, b.spec_add(d));
}

/// Subtracting a sum from a sum subtracts componentwise.
pub proof fn lemma_sub_shuffle<T: Scalar>(a: T, b: T, c: T, d: T)
    ensures
        a.spec_add(b).spec_sub(c.spec_add(d)) == a.spec_sub(c).spec_add(b.spec_sub(d)),
{
    T::law_sub_def(a.spec_add(b), c.spec_add(d));
    T::law_neg_add(c, d);
    lemma_add_shuffle(a, b, c.spec_neg(), d.spec_neg());
    T::law_sub_def(a, c);
    T::law_sub_def(b, d);
}

/// A sum of three terms may rotate its first term to the end.
pub proof fn lemma_add_rot3<T: Scalar>(a: T, b: T, c: T)
    ensures
        a.spec_add(b).spec_add(c) == b.spec_add(c).spec_add(a),
{
    T::law_add_assoc(a, b, c);
    T::law_add_comm(a, b.spec_add(c));
}

/// A summand whose sum with another is zero is that other's negation.
pub proof fn lemma_cancel_left<T: Scalar>(a: T, x: T)
    requires
        a.spec_add(x) == T::spec_zero(),
    ensures
        x == a.spec_neg(),
{
    T::law_add_assoc(a.spec_neg(), a, x);
    lemma_neg_add_self(a);
    lemma_zero_add(x);
    T::law_add_zero(a.spec_neg());
}

/// Three differences around a cycle cancel.
pub proof fn lemma_cyclic_cancel<T: Scalar>(a: T, b: T, c: T)
    ensures
        a.spec_sub(b).spec_add(c.spec_sub(a)).spec_add(b.spec_sub(c)) == T::spec_zero(),
{
    T::law_sub_def(a, b);
    T::law_sub_def(c, a);
    T::law_add_comm(c, a.spec_neg());
    lemma_add_shuffle(a, b.spec_neg(), a.spec_neg(), c);
    T::law_add_neg(a);
    lemma_zero_add(b.spec_neg().spec_add(c));
    T::law_sub_def(b, c);
    lemma_add_shuffle(b.spec_neg(), c, b, c.spec_neg());
    lemma_neg_add_self(b);
    T::law_add_neg(c);
    T::law_add_zero(T::spec_zero());
}

/// A nine-term sum whose trailing eight terms cancel in pairs and in one
/// group of four collapses to its leading term.
pub proof fn lemma_nine_term_collapse<T: Scalar>(
    a1: T,
    a2: T,
    a3: T,
    a4: T,
    a5: T,
    a6: T,
    a7: T,
    a8: T,
    a9: T,
)
    requires
        a2.spec_add(a4) == T::spec_zero(),
        a6.spec_add(a8) == T::spec_zero(),
        a3.spec_add(a5).spec_add(a7.spec_add(a9)) == T::spec_zero(),
    ensures
        a1.spec_add(a2).spec_add(a3).spec_add(a4.spec_add(a5).spec_add(a6)).spec_add(
            a7.spec_add(a8).spec_add(a9),
        ) == a1,
{
    let p2 = a4.spec_add(a5).spec_add(a6);
    let p3 = a7.spec_add(a8).spec_add(a9);
    // pull the leading term out of the whole sum
    T::law_add_assoc(a1, a2, a3);
    T::law_add_assoc(a1, a2.spec_add(a3), p2);
    T::law_add_assoc(a1, a2.spec_add(a3).spec_add(p2), p3);
    // the second group rotates so its first summand meets its cancelling mate
    lemma_add_rot3(a4, a5, a6);
    T::law_add_comm(a5.spec_add(a6), a4);
    lemma_add_shuffle(a2, a3, a4, a5.spec_add(a6));
    lemma_zero_add(a3.spec_add(a5.spec_add(a6)));
    // regroup so the remaining mates meet as well
    T::law_add_comm(a5, a6);
    lemma_add_left_comm(a3, a6, a5);
    T::law_add_assoc(a7, a8, a9);
    lemma_add_left_comm(a7, a8, a9);
    lemma_add_shuffle(a6, a3.spec_add(a5), a8, a7.spec_add(a9));
    T::law_add_zero(T::spec_zero());
    T::law_add_zero(a1);
}

/// Negation moves through subtraction.
pub proof fn lemma_neg_sub_neg<T: Scalar>(a: T, b: T)
    ensures
        a.spec_neg().spec_sub(b.spec_neg()) == a.spec_sub(b).spec_neg(),
{
    T::law_sub_def(a.spec_neg(), b.spec_neg());
    T::law_neg_neg(b);
    T::law_sub_def(a, b);
    T::law_neg_add(a, b.spec_neg());
}

} // verus!
