use vstd::prelude::*;

verus! {

/// The scalar field that every engine in this crate is generic over.
///
/// The frame-transform and orbital-element algebra only needs a handful of
/// operations: field arithmetic, a square root, the two trigonometric
/// functions, and an exact test against zero. Each executable operation is
/// pinned to a spec-level counterpart, so that the contracts of the
/// conversion functions can state, exactly, the closed-form expression they
/// compute over any scalar. The proof obligations at the end are the few
/// algebraic facts the crate's public lemmas rest on; every implementation
/// that the verifier sees must prove them.
pub trait RealField: Sized + Copy {
    /// Spec-level sum of `self` and `rhs`.
    spec fn add_spec(self, rhs: Self) -> Self;

    /// Spec-level difference of `self` and `rhs`.
    spec fn sub_spec(self, rhs: Self) -> Self;

    /// Spec-level product of `self` and `rhs`.
    spec fn mul_spec(self, rhs: Self) -> Self;

    /// Spec-level quotient of `self` by `rhs`.
    spec fn div_spec(self, rhs: Self) -> Self;

    /// Spec-level additive inverse of `self`.
    spec fn neg_spec(self) -> Self;

    /// Spec-level square root of `self`.
    spec fn sqrt_spec(self) -> Self;

    /// Spec-level sine of `self` (radians).
    spec fn sin_spec(self) -> Self;

    /// Spec-level cosine of `self` (radians).
    spec fn cos_spec(self) -> Self;

    /// Spec-level additive identity.
    spec fn zero_spec() -> Self;

    /// Spec-level multiplicative identity.
    spec fn one_spec() -> Self;

    /// Whether `self` is exactly the additive identity.
    spec fn is_zero_spec(self) -> bool;

    fn add(self, rhs: Self) -> (r: Self)
        ensures
            r == self.add_spec(rhs),
    ;

    fn sub(self, rhs: Self) -> (r: Self)
        ensures
            r == self.sub_spec(rhs),
    ;

    fn mul(self, rhs: Self) -> (r: Self)
        ensures
            r == self.mul_spec(rhs),
    ;

    fn div(self, rhs: Self) -> (r: Self)
        ensures
            r == self.div_spec(rhs),
    ;

    fn neg(self) -> (r: Self)
        ensures
            r == self.neg_spec(),
    ;

    fn sqrt(self) -> (r: Self)
        ensures
            r == self.sqrt_spec(),
    ;

    fn sin(self) -> (r: Self)
        ensures
            r == self.sin_spec(),
    ;

    fn cos(self) -> (r: Self)
        ensures
            r == self.cos_spec(),
    ;

    fn zero() -> (r: Self)
        ensures
            r == Self::zero_spec(),
    ;

    fn one() -> (r: Self)
        ensures
            r == Self::one_spec(),
    ;

    fn is_zero(self) -> (r: bool)
        ensures
            r == self.is_zero_spec(),
    ;

    /// Negation is an involution: `-(-x) == x`.
    proof fn law_neg_neg(self)
        ensures
            self.neg_spec().neg_spec() == self,
    ;

    /// The additive identity absorbs itself under addition.
    proof fn law_zero_add_zero()
        ensures
            Self::zero_spec().add_spec(Self::zero_spec()) == Self::zero_spec(),
    ;

    /// The additive identity absorbs itself under multiplication.
    proof fn law_zero_mul_zero()
        ensures
            Self::zero_spec().mul_spec(Self::zero_spec()) == Self::zero_spec(),
    ;

    /// The square root of the additive identity is itself.
    proof fn law_sqrt_zero()
        ensures
            Self::zero_spec().sqrt_spec() == Self::zero_spec(),
    ;

    /// The zero test recognizes the additive identity.
    proof fn law_zero_is_zero()
        ensures
            Self::zero_spec().is_zero_spec(),
    ;
}

} // verus!
