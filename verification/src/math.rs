//! Capability traits for scalars, and a two-component vector built on them.
//!
//! Each capability names, as a spec function, the value its operation
//! returns, so that whatever is computed through the traits can be stated
//! exactly, whichever scalar stands behind them. The integers of this crate
//! define those spec functions and Verus holds their operations to them. A
//! scalar that is defined where Verus does not look writes them as ordinary
//! functions, and its operations are then taken on trust to return what
//! they say.
//!
//! What a scalar's operations obey is a matter of its own: the laws are
//! traits of their own, `Exact` and `ExactRing`, which a scalar implements
//! by proving them.
use vstd::prelude::*;
use vstd::std_specs::convert::FromSpec;
use vstd::std_specs::ops::{AddSpecImpl, MulSpecImpl, NegSpecImpl, SubSpecImpl};

verus! {

/// An additive group: an identity, a sum, a difference and a negation.
pub trait Additive: Sized {
    /// The additive identity.
    const ZERO: Self;

    /// The sum of `self` and `n`.
    spec fn plus(self, n: Self) -> Self;

    /// The additive inverse of `self`.
    spec fn negated(self) -> Self;

    /// Adds `n` to `self`.
    fn add(self, n: Self) -> (r: Self)
        ensures
            r == self.plus(n),
    ;

    /// Subtracts `n` from `self`. The difference is the sum with the
    /// negation; a type without a subtraction of its own gets it from `add`
    /// and `neg`.
    fn sub(self, n: Self) -> (r: Self)
        ensures
            r == self.plus(n.negated()),
    {
        self.add(n.neg())
    }

    /// Negates `self`.
    fn neg(self) -> (r: Self)
        ensures
            r == self.negated(),
    ;
}

/// The difference of `a` and `b`: `a` plus the negation of `b`.
pub open spec fn minus<T: Additive>(a: T, b: T) -> T {
    a.plus(b.negated())
}

/// A ring: an additive group with a product and its identity.
pub trait Ring: Additive + Clone {
    /// The multiplicative identity.
    const ONE: Self;

    /// The product of `self` and `n`.
    spec fn times(self, n: Self) -> Self;

    /// Multiplies `self` by `n`.
    fn mul(self, n: Self) -> (r: Self)
        ensures
            r == self.times(n),
    ;

    /// Multiplies `ONE` by `self`, `n` times over and one factor at a time:
    /// `((ONE * self) * self) * ...`, which is `power(self, n)`.
    fn pow(self, n: u32) -> (r: Self) where Self: Copy
        ensures
            r == iterate(|acc: Self| acc.times(self), n as nat, Self::ONE),
    {
        let mut acc = Self::ONE;
        let mut i: u32 = 0;
        while i < n
            invariant
                i <= n,
                acc == iterate(|acc: Self| acc.times(self), i as nat, Self::ONE),
            decreases n - i,
        {
            acc = acc.mul(self);
            i = i + 1;
        }
        acc
    }
}

/// `f` applied `n` times over, starting from `init`.
pub open spec fn iterate<T>(f: spec_fn(T) -> T, n: nat, init: T) -> T
    decreases n,
{
    if n == 0 {
        init
    } else {
        f(iterate(f, (n - 1) as nat, init))
    }
}

/// `x` multiplied onto `ONE`, `n` times: `((ONE * x) * x) * ...`. The factors
/// are taken one by one and in this order, whatever the ring.
pub open spec fn power<T: Ring>(x: T, n: nat) -> T {
    iterate(|acc: T| acc.times(x), n, T::ONE)
}

/// Scaling by the elements of a ring `T`, which need not be `Self`.
pub trait Module<T>: Additive where T: Ring {
    /// `self` scaled by `n`.
    spec fn scaled(self, n: T) -> Self;

    /// Scales `self` by `n`.
    fn scale(self, n: T) -> (r: Self)
        ensures
            r == self.scaled(n),
    ;
}

/// A ring whose elements have square roots.
pub trait Algebraic: Ring {
    /// The square root of `self`.
    spec fn root(self) -> Self;

    /// Takes the square root of `self`.
    fn sqrt(self) -> (r: Self)
        ensures
            r == self.root(),
    ;
}

/// A ring with a division.
pub trait Field: Ring {
    /// The quotient of `self` by `n`.
    spec fn over(self, n: Self) -> Self;

    /// Divides `self` by `n`.
    fn div(self, n: Self) -> (r: Self)
        ensures
            r == self.over(n),
    ;
}

/// Additive groups that keep their laws exactly, as integers that wrap do
/// and a scalar that rounds does not.
pub trait Exact: Additive {
    /// `ZERO` is the identity of the sum, on either side.
    proof fn lemma_zero_is_identity(x: Self)
        ensures
            Self::ZERO.plus(x) == x,
            x.plus(Self::ZERO) == x,
    ;

    /// Subtracting what was added gives back what was there.
    proof fn lemma_add_then_sub(a: Self, b: Self)
        ensures
            minus(a.plus(b), b) == a,
    ;
}

/// Rings that keep their laws exactly.
pub trait ExactRing: Ring + Exact {
    /// `ONE` is the identity of the product, on either side.
    proof fn lemma_one_is_identity(x: Self)
        ensures
            Self::ONE.times(x) == x,
            x.times(Self::ONE) == x,
    ;
}

/// Negating is subtracting from `ZERO`.
pub proof fn lemma_neg_subtracts_from_zero<T: Exact>(a: T)
    ensures
        a.negated() == minus(T::ZERO, a),
{
    T::lemma_zero_is_identity(a.negated());
}

/// No factor at all leaves `ONE`, in any ring.
pub proof fn lemma_power_zero<T: Ring>(x: T)
    ensures
        power(x, 0) == T::ONE,
{
}

/// One more factor is one more product on the right, in any ring.
pub proof fn lemma_power_step<T: Ring>(x: T, n: nat)
    ensures
        power(x, n + 1) == power(x, n).times(x),
{
}

/// In a ring that keeps its laws, the first power is the element itself and
/// the second its product with itself.
pub proof fn lemma_small_powers<T: ExactRing>(x: T)
    ensures
        power(x, 0) == T::ONE,
        power(x, 1) == x,
        power(x, 2) == x.times(x),
{
    lemma_power_step(x, 0);
    lemma_power_step(x, 1);
    T::lemma_one_is_identity(x);
}

/// A vector of two components over a scalar `T`.
#[allow(non_camel_case_types)]
#[derive(Debug, Clone, Copy, PartialEq)]
pub struct vec2<T> {
    pub x: T,
    pub y: T,
}

impl<T> vec2<T> {
    /// The vector with the components `x` and `y`.
    pub fn new(x: T, y: T) -> (v: vec2<T>)
        ensures
            v == (vec2 { x, y }),
    {
        vec2 { x, y }
    }
}

impl<T: Additive> vec2<T> {
    /// The vector whose components are both `ZERO`.
    pub open spec fn zero_spec() -> vec2<T> {
        vec2 { x: T::ZERO, y: T::ZERO }
    }

    /// The componentwise sum.
    pub open spec fn plus(self, v: vec2<T>) -> vec2<T> {
        vec2 { x: self.x.plus(v.x), y: self.y.plus(v.y) }
    }

    /// The componentwise difference.
    pub open spec fn minus(self, v: vec2<T>) -> vec2<T> {
        vec2 { x: self::minus(self.x, v.x), y: self::minus(self.y, v.y) }
    }

    /// The componentwise negation.
    pub open spec fn negated(self) -> vec2<T> {
        vec2 { x: self.x.negated(), y: self.y.negated() }
    }

    /// Both components scaled by `n`.
    pub open spec fn scaled<K: Ring>(self, n: K) -> vec2<T> where T: Module<K> {
        vec2 { x: self.x.scaled(n), y: self.y.scaled(n) }
    }

    /// The zero vector, the identity of the vector sum.
    #[verifier::when_used_as_spec(zero_spec)]
    pub fn zero() -> (r: vec2<T>)
        ensures
            r == Self::zero_spec(),
    {
        vec2 { x: T::ZERO, y: T::ZERO }
    }
}

impl<T: Additive> Default for vec2<T> {
    /// The zero vector.
    fn default() -> (r: vec2<T>)
        ensures
            r == vec2::<T>::zero(),
    {
        vec2 { x: T::ZERO, y: T::ZERO }
    }
}

impl<T: Additive> core::ops::Add for vec2<T> {
    type Output = vec2<T>;

    fn add(self, v: vec2<T>) -> (r: vec2<T>)
        ensures
            r == self.plus(v),
    {
        vec2 { x: self.x.add(v.x), y: self.y.add(v.y) }
    }
}

impl<T: Additive> AddSpecImpl for vec2<T> {
    open spec fn obeys_add_spec() -> bool {
        true
    }

    open spec fn add_req(self, v: vec2<T>) -> bool {
        true
    }

    open spec fn add_spec(self, v: vec2<T>) -> vec2<T> {
        self.plus(v)
    }
}

impl<T: Additive> core::ops::Sub for vec2<T> {
    type Output = vec2<T>;

    fn sub(self, v: vec2<T>) -> (r: vec2<T>)
        ensures
            r == self.minus(v),
    {
        vec2 { x: self.x.sub(v.x), y: self.y.sub(v.y) }
    }
}

impl<T: Additive> SubSpecImpl for vec2<T> {
    open spec fn obeys_sub_spec() -> bool {
        true
    }

    open spec fn sub_req(self, v: vec2<T>) -> bool {
        true
    }

    open spec fn sub_spec(self, v: vec2<T>) -> vec2<T> {
        self.minus(v)
    }
}

impl<T: Additive> core::ops::Neg for vec2<T> {
    type Output = vec2<T>;

    fn neg(self) -> (r: vec2<T>)
        ensures
            r == self.negated(),
    {
        vec2 { x: self.x.neg(), y: self.y.neg() }
    }
}

impl<T: Additive> NegSpecImpl for vec2<T> {
    open spec fn obeys_neg_spec() -> bool {
        true
    }

    open spec fn neg_req(self) -> bool {
        true
    }

    open spec fn neg_spec(self) -> vec2<T> {
        self.negated()
    }
}

impl<T, K> core::ops::Mul<K> for vec2<T> where T: Module<K>, K: Ring + Copy {
    type Output = vec2<T>;

    fn mul(self, n: K) -> (r: vec2<T>)
        ensures
            r == self.scaled(n),
    {
        vec2 { x: self.x.scale(n), y: self.y.scale(n) }
    }
}

impl<T, K> MulSpecImpl<K> for vec2<T> where T: Module<K>, K: Ring + Copy {
    open spec fn obeys_mul_spec() -> bool {
        true
    }

    open spec fn mul_req(self, n: K) -> bool {
        true
    }

    open spec fn mul_spec(self, n: K) -> vec2<T> {
        self.scaled(n)
    }
}

impl<T: Ring + Copy> vec2<T> {
    /// The squared length: the sum of the squares of the components.
    pub open spec fn normsq_spec(self) -> T {
        power(self.x, 2).plus(power(self.y, 2))
    }

    /// The squared length, each square taken as a second power.
    #[verifier::when_used_as_spec(normsq_spec)]
    pub fn normsq(self) -> (r: T)
        ensures
            r == self.normsq_spec(),
    {
        self.x.pow(2).add(self.y.pow(2))
    }

    /// The length, in a scalar `A` that the squared length converts to and
    /// that has square roots: the root of what the squared length converts
    /// to.
    pub fn norm<A: Algebraic + From<T>>(self) -> (r: A)
        ensures
            exists|a: A| #[trigger] call_ensures(A::from, (self.normsq(),), a) && r == a.root(),
            A::obeys_from_spec() ==> r == A::from_spec(self.normsq()).root(),
    {
        A::from(self.normsq()).sqrt()
    }
}

/// The zero vector is the identity of the vector sum, on either side.
pub proof fn lemma_vector_zero_is_identity<T: Exact>(v: vec2<T>)
    ensures
        vec2::<T>::zero().plus(v) == v,
        v.plus(vec2::<T>::zero()) == v,
{
    T::lemma_zero_is_identity(v.x);
    T::lemma_zero_is_identity(v.y);
}

/// Subtracting the vector that was added gives back, component by component,
/// the vector that was there.
pub proof fn lemma_vector_inverse<T: Exact>(a: vec2<T>, b: vec2<T>)
    ensures
        a.plus(b).minus(b) == a,
{
    T::lemma_add_then_sub(a.x, b.x);
    T::lemma_add_then_sub(a.y, b.y);
}

} // verus!
