//! Bodies, the pull they exert on one another, the derivative field of a
//! whole system and the Runge-Kutta step built on it.
//!
//! Everything here is written over a scalar `T` and stated over the spec
//! functions of its capabilities, operation by operation and in the order in
//! which they are taken. What a function returns is therefore settled by its
//! arguments alone, however the work is spread over the threads, also for a
//! scalar that rounds.
use crate::math::{vec2, Additive, Algebraic, Field, Module, Ring};
use crate::parallel::par_tabulate;
use vstd::prelude::*;

verus! {

/// The scalars in which positions, velocities and masses are measured: they
/// have roots and quotients, scale themselves, and may be handed from thread
/// to thread. No integer is one. What is proved over a `Scalar` holds of
/// every scalar whose operations return what its spec functions say.
pub trait Scalar: Algebraic + Field + Module<Self> + Copy + Send + Sync {
    /// The gravitational constant.
    const G: Self;
}

/// A point mass. A system is a sequence of them, and the place of a body in
/// the sequence is what tells it from the others.
#[derive(Clone, Copy, Debug, PartialEq)]
pub struct Object<T> {
    /// Position.
    pub s: vec2<T>,
    /// Velocity.
    pub v: vec2<T>,
    /// Mass. No operation of this module changes it.
    pub m: T,
}

/// The rates at which a body's position and velocity change.
#[derive(Clone, Copy, Debug, PartialEq)]
pub struct Deriv<T> {
    /// The rate of the position: a velocity.
    pub ds: vec2<T>,
    /// The rate of the velocity: an acceleration.
    pub dv: vec2<T>,
}

impl<T: Additive> Deriv<T> {
    /// The rates of a body at rest and under no force: the zero vector, twice.
    pub open spec fn rest() -> Deriv<T> {
        Deriv { ds: vec2::zero(), dv: vec2::zero() }
    }
}

impl<T: Additive> Default for Deriv<T> {
    /// The zero vector, twice.
    fn default() -> (r: Deriv<T>)
        ensures
            r == Deriv::<T>::rest(),
    {
        Deriv { ds: vec2::zero(), dv: vec2::zero() }
    }
}

/// `o` after the time `dt` at the rates `d`: the position moved by `ds * dt`,
/// the velocity by `dv * dt`, the mass as it was.
pub open spec fn partial_spec<T: Ring + Module<T>>(o: Object<T>, d: Deriv<T>, dt: T) -> Object<T> {
    Object { s: o.s.plus(d.ds.scaled(dt)), v: o.v.plus(d.dv.scaled(dt)), m: o.m }
}

/// Advances one body by `dt` at the rates `d`.
pub fn partial<T: Ring + Module<T> + Copy>(o: &Object<T>, d: &Deriv<T>, dt: T) -> (r: Object<T>)
    ensures
        r == partial_spec(*o, *d, dt),
{
    Object { m: o.m, s: o.s + d.ds * dt, v: o.v + d.dv * dt }
}

/// The acceleration that `b` exerts on `a`: along the line from `a` to `b`,
/// with the strength `G * b.m / r^2`. The operations are taken in this order:
/// the strength is divided out first, the direction is brought to unit
/// length last. Where the two bodies coincide nothing is clamped: the value
/// is what the scalar's division makes of a zero distance.
pub open spec fn grav_spec<T: Scalar>(a: Object<T>, b: Object<T>) -> vec2<T> {
    let ba = b.s.minus(a.s);
    let rsq = ba.normsq();
    let mag = T::G.times(b.m).over(rsq);
    ba.scaled(mag).scaled(T::ONE.over(rsq.root()))
}

/// The gravitational acceleration that `b` exerts on `a`.
pub fn grav<T: Scalar>(a: &Object<T>, b: &Object<T>) -> (r: vec2<T>)
    ensures
        r == grav_spec(*a, *b),
{
    let ba = b.s - a.s;
    let rsq = ba.normsq();
    let mag = T::G.mul(b.m).div(rsq);
    ba * mag * T::ONE.div(rsq.sqrt())
}

/// The accelerations that the bodies `lo..hi` exert on body `i`, added one
/// by one onto the zero vector, in the order of their indices.
pub open spec fn pull_sum<T: Scalar>(bodies: Seq<Object<T>>, i: int, lo: int, hi: int) -> vec2<T>
    decreases hi - lo,
{
    if hi <= lo {
        vec2::zero()
    } else {
        pull_sum(bodies, i, lo, hi - 1).plus(grav_spec(bodies[i], bodies[hi - 1]))
    }
}

/// The acceleration of body `i` under all the others: what the bodies before
/// it exert, plus what the bodies after it exert. Its own pull on itself is
/// no part of the sum.
pub open spec fn net_accel<T: Scalar>(bodies: Seq<Object<T>>, i: int) -> vec2<T> {
    pull_sum(bodies, i, 0, i).plus(pull_sum(bodies, i, i + 1, bodies.len() as int))
}

/// Adds up, in the order of their indices, what the bodies `lo..hi` exert
/// on body `i`.
fn pull<T: Scalar>(bodies: &[Object<T>], i: usize, lo: usize, hi: usize) -> (r: vec2<T>)
    requires
        i < bodies.len(),
        lo <= hi <= bodies.len(),
    ensures
        r == pull_sum(bodies@, i as int, lo as int, hi as int),
{
    let mut acc = vec2::zero();
    let mut j: usize = lo;
    while j < hi
        invariant
            i < bodies.len(),
            lo <= j <= hi <= bodies.len(),
            acc == pull_sum(bodies@, i as int, lo as int, j as int),
        decreases hi - j,
    {
        acc = acc + grav(&bodies[i], &bodies[j]);
        j = j + 1;
    }
    acc
}

/// The number of bodies that have both a state and rates.
pub open spec fn paired(bodies: nat, rates: nat) -> nat {
    if bodies <= rates {
        bodies
    } else {
        rates
    }
}

/// Where each body stands after `dt` at its own rates.
pub open spec fn advanced<T: Ring + Module<T>>(
    init: Seq<Object<T>>,
    derivs: Seq<Deriv<T>>,
    dt: T,
) -> Seq<Object<T>> {
    Seq::new(paired(init.len(), derivs.len()), |i: int| partial_spec(init[i], derivs[i], dt))
}

/// The rates of every body at the state that `init` reaches after `dt` at
/// the rates `derivs`: its velocity there, and its acceleration under all
/// the other bodies there.
pub open spec fn diff_spec<T: Scalar>(
    init: Seq<Object<T>>,
    dt: T,
    derivs: Seq<Deriv<T>>,
) -> Seq<Deriv<T>> {
    let new = advanced(init, derivs, dt);
    Seq::new(new.len(), |i: int| Deriv { ds: new[i].v, dv: net_accel(new, i) })
}

/// Evaluates the derivative field. The bodies are worked on in parallel; for
/// each of them the pulls are added in the order of the indices, so the
/// result does not depend on how the work was scheduled. The time `t` is not
/// read: the force law does not depend on it. A body without rates, or rates
/// without a body, are left out.
#[allow(unused_variables)]
pub fn diff<T: Scalar>(init: &[Object<T>], t: T, dt: T, derivs: &[Deriv<T>]) -> (r: Vec<Deriv<T>>)
    ensures
        r@ == diff_spec(init@, dt, derivs@),
        r@.len() == paired(init@.len(), derivs@.len()),
        r@.len() == 1 && T::ZERO.plus(T::ZERO) == T::ZERO ==> r@[0].dv == vec2::<T>::zero(),
{
    let n: usize = if init.len() <= derivs.len() {
        init.len()
    } else {
        derivs.len()
    };
    let new = par_tabulate(n, |i: usize| -> (o: Object<T>)
        requires
            i < n,
        ensures
            o == partial_spec(init@[i as int], derivs@[i as int], dt),
        { partial(&init[i], &derivs[i], dt) }
    );
    assert(new@ =~= advanced(init@, derivs@, dt));
    let bodies = new.as_slice();
    let r = par_tabulate(n, |i: usize| -> (d: Deriv<T>)
        requires
            i < n,
        ensures
            d == (Deriv { ds: bodies@[i as int].v, dv: net_accel(bodies@, i as int) }),
        { Deriv { ds: bodies[i].v, dv: pull(bodies, i, 0, i) + pull(bodies, i, i + 1, n) } }
    );
    assert(r@ =~= diff_spec(init@, dt, derivs@));
    proof {
        if n == 1 && T::ZERO.plus(T::ZERO) == T::ZERO {
            lemma_lone_body_feels_no_force(init@, dt, derivs@);
        }
    }
    r
}

/// A body that is alone is under no force: where the system holds one body,
/// the derivative field gives it the acceleration zero, whatever the step
/// and the rates it was advanced by. All this asks of the scalar is that its
/// `ZERO` added to itself is `ZERO`.
pub proof fn lemma_lone_body_feels_no_force<T: Scalar>(
    init: Seq<Object<T>>,
    dt: T,
    derivs: Seq<Deriv<T>>,
)
    requires
        paired(init.len(), derivs.len()) == 1,
        T::ZERO.plus(T::ZERO) == T::ZERO,
    ensures
        diff_spec(init, dt, derivs).len() == 1,
        diff_spec(init, dt, derivs)[0].dv == vec2::<T>::zero(),
{
    let new = advanced(init, derivs, dt);
    assert(pull_sum(new, 0, 0, 0) == vec2::<T>::zero());
    assert(pull_sum(new, 0, 1, 1) == vec2::<T>::zero());
}

/// Twice `ONE`.
pub open spec fn two<T: Ring>() -> T {
    T::ONE.plus(T::ONE)
}

/// Six times `ONE`, as two and two and two.
pub open spec fn six<T: Ring>() -> T {
    two::<T>().plus(two::<T>()).plus(two::<T>())
}

/// The weighted mean of four slopes, the middle two counted twice:
/// `(a + (b + c) * 2 + d) * (1 / 6)`.
pub open spec fn weight_spec<T: Field + Module<T>>(
    a: vec2<T>,
    b: vec2<T>,
    c: vec2<T>,
    d: vec2<T>,
) -> vec2<T> {
    a.plus(b.plus(c).scaled(two::<T>())).plus(d).scaled(T::ONE.over(six::<T>()))
}

/// Weights the four slopes of a step into one.
pub fn weight<T: Field + Module<T> + Copy>(
    a: vec2<T>,
    b: vec2<T>,
    c: vec2<T>,
    d: vec2<T>,
) -> (r: vec2<T>)
    ensures
        r == weight_spec(a, b, c, d),
{
    let two = T::ONE.add(T::ONE);
    let six = two.add(two).add(two);
    (a + (b + c) * two + d) * T::ONE.div(six)
}

/// The four slopes of one body, weighted into one.
pub open spec fn mean<T: Field + Module<T>>(
    a: Deriv<T>,
    b: Deriv<T>,
    c: Deriv<T>,
    d: Deriv<T>,
) -> Deriv<T> {
    Deriv { ds: weight_spec(a.ds, b.ds, c.ds, d.ds), dv: weight_spec(a.dv, b.dv, c.dv, d.dv) }
}

/// One Runge-Kutta step of the fourth order: the slopes at the start, twice
/// at the midpoint and at the end of the step, each taken at the state that
/// the slope before it leads to, and every body advanced by `dt` at the
/// weighted mean of its four. The midpoint lies `(1 / 2) * dt` ahead.
pub open spec fn integrate_spec<T: Scalar>(state: Seq<Object<T>>, dt: T) -> Seq<Object<T>> {
    let mid = T::ONE.over(two::<T>()).times(dt);
    let a = diff_spec(state, T::ZERO, Seq::new(state.len(), |i: int| Deriv::<T>::rest()));
    let b = diff_spec(state, mid, a);
    let c = diff_spec(state, mid, b);
    let d = diff_spec(state, dt, c);
    Seq::new(state.len(), |i: int| partial_spec(state[i], mean(a[i], b[i], c[i], d[i]), dt))
}

/// Advances the whole system by one step of `dt`. The result is a fresh
/// sequence, index for index the bodies of `state`, each with the mass it
/// had. The time `t` is not read.
pub fn integrate<T: Scalar>(state: &[Object<T>], t: T, dt: T) -> (r: Vec<Object<T>>)
    ensures
        r@ == integrate_spec(state@, dt),
        r@.len() == state@.len(),
        forall|i: int| 0 <= i < state@.len() ==> r@[i].m == state@[i].m,
{
    let n: usize = state.len();
    let mut rest: Vec<Deriv<T>> = Vec::new();
    while rest.len() < n
        invariant
            rest@.len() <= n,
            forall|i: int| 0 <= i < rest@.len() ==> rest@[i] == Deriv::<T>::rest(),
        decreases n - rest@.len(),
    {
        rest.push(Deriv::default());
    }
    assert(rest@ =~= Seq::new(state@.len(), |i: int| Deriv::<T>::rest()));
    let mid = T::ONE.div(T::ONE.add(T::ONE)).mul(dt);
    let a = diff(state, t, T::ZERO, rest.as_slice());
    let b = diff(state, t, mid, a.as_slice());
    let c = diff(state, t, mid, b.as_slice());
    let d = diff(state, t, dt, c.as_slice());
    let (ka, kb, kc, kd) = (a.as_slice(), b.as_slice(), c.as_slice(), d.as_slice());
    let r = par_tabulate(n, |i: usize| -> (o: Object<T>)
        requires
            i < n,
        ensures
            o == partial_spec(
                state@[i as int],
                mean(ka@[i as int], kb@[i as int], kc@[i as int], kd@[i as int]),
                dt,
            ),
        {
            let slope = Deriv {
                ds: weight(ka[i].ds, kb[i].ds, kc[i].ds, kd[i].ds),
                dv: weight(ka[i].dv, kb[i].dv, kc[i].dv, kd[i].dv),
            };
            partial(&state[i], &slope, dt)
        }
    );
    assert(r@ =~= integrate_spec(state@, dt));
    r
}

} // verus!
