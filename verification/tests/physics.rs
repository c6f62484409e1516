//! The force law and the integrator over scalars that round: single and
//! double precision, each behind a type of this file that states its
//! operations for the library.
use nbody::math::{vec2, Additive, Algebraic, Field, Module, Ring};
use nbody::physics::{diff, grav, integrate, partial, weight, Deriv, Object, Scalar};

#[derive(Clone, Copy, Debug, PartialEq)]
struct Real(f32);

impl Additive for Real {
    const ZERO: Real = Real(0.0);

    fn plus(self, n: Real) -> Real {
        Real(self.0 + n.0)
    }

    fn negated(self) -> Real {
        Real(-self.0)
    }

    fn add(self, n: Real) -> Real {
        self.plus(n)
    }

    fn sub(self, n: Real) -> Real {
        Real(self.0 - n.0)
    }

    fn neg(self) -> Real {
        self.negated()
    }
}

impl Ring for Real {
    const ONE: Real = Real(1.0);

    fn times(self, n: Real) -> Real {
        Real(self.0 * n.0)
    }

    fn mul(self, n: Real) -> Real {
        self.times(n)
    }
}

impl Module<Real> for Real {
    fn scaled(self, n: Real) -> Real {
        Real(self.0 * n.0)
    }

    fn scale(self, n: Real) -> Real {
        self.scaled(n)
    }
}

impl Algebraic for Real {
    fn root(self) -> Real {
        Real(self.0.sqrt())
    }

    fn sqrt(self) -> Real {
        self.root()
    }
}

impl Field for Real {
    fn over(self, n: Real) -> Real {
        Real(self.0 / n.0)
    }

    fn div(self, n: Real) -> Real {
        self.over(n)
    }
}

impl Scalar for Real {
    const G: Real = Real(6.67408e-11);
}

#[derive(Clone, Copy, Debug, PartialEq)]
struct Wide(f64);

impl Additive for Wide {
    const ZERO: Wide = Wide(0.0);

    fn plus(self, n: Wide) -> Wide {
        Wide(self.0 + n.0)
    }

    fn negated(self) -> Wide {
        Wide(-self.0)
    }

    fn add(self, n: Wide) -> Wide {
        self.plus(n)
    }

    fn sub(self, n: Wide) -> Wide {
        Wide(self.0 - n.0)
    }

    fn neg(self) -> Wide {
        self.negated()
    }
}

impl Ring for Wide {
    const ONE: Wide = Wide(1.0);

    fn times(self, n: Wide) -> Wide {
        Wide(self.0 * n.0)
    }

    fn mul(self, n: Wide) -> Wide {
        self.times(n)
    }
}

impl Module<Wide> for Wide {
    fn scaled(self, n: Wide) -> Wide {
        Wide(self.0 * n.0)
    }

    fn scale(self, n: Wide) -> Wide {
        self.scaled(n)
    }
}

impl Algebraic for Wide {
    fn root(self) -> Wide {
        Wide(self.0.sqrt())
    }

    fn sqrt(self) -> Wide {
        self.root()
    }
}

impl Field for Wide {
    fn over(self, n: Wide) -> Wide {
        Wide(self.0 / n.0)
    }

    fn div(self, n: Wide) -> Wide {
        self.over(n)
    }
}

impl Scalar for Wide {
    const G: Wide = Wide(6.67408e-11);
}

impl From<Real> for Wide {
    fn from(x: Real) -> Wide {
        Wide(f64::from(x.0))
    }
}

fn v(x: f32, y: f32) -> vec2<Real> {
    vec2::new(Real(x), Real(y))
}

fn body(x: f32, y: f32, m: f32) -> Object<Real> {
    Object { s: v(x, y), v: v(0.0, 0.0), m: Real(m) }
}

fn close(a: f32, b: f32) -> bool {
    (a - b).abs() <= 1e-6 * a.abs().max(b.abs())
}

/// Bodies scattered over a square, none on top of another.
fn cloud(n: usize) -> Vec<Object<Real>> {
    let mut bodies = Vec::new();
    let mut seed: u32 = 12345;
    for i in 0..n {
        seed = seed.wrapping_mul(1664525).wrapping_add(1013904223);
        let x = (seed >> 8) as f32 / 65536.0 + i as f32 * 300.0;
        seed = seed.wrapping_mul(1664525).wrapping_add(1013904223);
        let y = (seed >> 8) as f32 / 65536.0;
        seed = seed.wrapping_mul(1664525).wrapping_add(1013904223);
        let m = 1.0e9 + (seed >> 8) as f32;
        bodies.push(Object { s: v(x, y), v: v(y * 1.0e-3, x * -1.0e-3), m: Real(m) });
    }
    bodies
}

/// The derivative field worked out one body after the other.
fn diff_in_turn(init: &[Object<Real>], dt: Real, derivs: &[Deriv<Real>]) -> Vec<Deriv<Real>> {
    let n = init.len().min(derivs.len());
    let mut new = Vec::new();
    for i in 0..n {
        new.push(partial(&init[i], &derivs[i], dt));
    }
    let mut out = Vec::new();
    for i in 0..n {
        let mut before = vec2::<Real>::zero();
        for j in 0..i {
            before = before + grav(&new[i], &new[j]);
        }
        let mut after = vec2::<Real>::zero();
        for j in i + 1..n {
            after = after + grav(&new[i], &new[j]);
        }
        out.push(Deriv { ds: new[i].v, dv: before + after });
    }
    out
}

#[test]
fn identity_laws_in_single_precision() {
    for x in [0.0f32, 1.0, -2.5, 1.0e-20, 3.0e20, 0.1] {
        let x = Real(x);
        assert_eq!(Real::ZERO.add(x), x);
        assert_eq!(x.add(Real::ZERO), x);
        assert_eq!(x.pow(0), Real::ONE);
        assert_eq!(x.pow(1), x);
        assert_eq!(x.pow(2), x.mul(x));
        assert_eq!(x.neg(), Real::ZERO.sub(x));
        assert_eq!(x.sub(Real(0.75)), x.add(Real(0.75).neg()));
    }
}

#[test]
fn power_multiplies_one_factor_at_a_time() {
    let x = Real(1.1);
    assert_eq!(x.pow(3), Real::ONE.mul(x).mul(x).mul(x));
    assert_eq!(x.pow(7), Real::ONE.mul(x).mul(x).mul(x).mul(x).mul(x).mul(x).mul(x));
    assert_eq!(Real(2.0).pow(10), Real(1024.0));
    assert_eq!(Wide(0.5).pow(3), Wide(0.125));
}

#[test]
fn adding_then_subtracting_is_close_to_the_vector() {
    let samples = [
        (v(1.0, 2.0), v(3.0, 4.0)),
        (v(0.1, -0.2), v(0.3, 0.7)),
        (v(1234.5, -0.001), v(-77.25, 12.0)),
        (v(1.0e10, 1.0e-10), v(3.0e9, 4.0e-11)),
    ];
    for (a, b) in samples {
        let back = a + b - b;
        let scale = a.x.0.abs().max(a.y.0.abs()).max(b.x.0.abs()).max(b.y.0.abs());
        assert!((back.x.0 - a.x.0).abs() <= 1.0e-6 * scale, "{:?} {:?}", back, a);
        assert!((back.y.0 - a.y.0).abs() <= 1.0e-6 * scale, "{:?} {:?}", back, a);
    }
    assert_eq!(v(1.0, 1.0e10) + v(1.0e10, 1.0) - v(1.0e10, 1.0), v(0.0, 1.0e10));
}

#[test]
fn norm_of_three_four_is_five() {
    let u = v(3.0, 4.0);
    assert_eq!(u.normsq(), Real(25.0));
    let n: Real = u.norm();
    assert_eq!(n, Real(5.0));
    let w: Wide = u.norm();
    assert_eq!(w, Wide(5.0));
}

#[test]
fn squared_norm_is_the_square_of_the_norm() {
    for (x, y) in [(3.0f32, 4.0f32), (1.0, 1.0), (0.1, -0.7), (-123.0, 0.004), (5.0e8, 2.0e9)] {
        let u = v(x, y);
        let n: Real = u.norm();
        assert!(close(u.normsq().0, n.pow(2).0), "{} {}", x, y);
    }
    assert_eq!(v(0.0, 0.0).norm::<Real>(), Real(0.0));
}

#[test]
fn a_body_moves_by_rate_times_step() {
    let o = Object { s: v(1.0, 2.0), v: v(-1.0, 0.5), m: Real(7.0) };
    let d = Deriv { ds: v(3.0, 4.0), dv: v(8.0, -2.0) };
    let r = partial(&o, &d, Real(0.5));
    assert_eq!(r.s, v(2.5, 4.0));
    assert_eq!(r.v, v(3.0, -0.5));
    assert_eq!(r.m, Real(7.0));
    assert_eq!(partial(&o, &d, Real(0.0)), o);
}

#[test]
fn unit_masses_one_apart_pull_with_g() {
    let a = body(0.0, 0.0, 1.0);
    let b = body(1.0, 0.0, 1.0);
    assert_eq!(grav(&a, &b), v(6.67408e-11, 0.0));
    assert_eq!(grav(&b, &a), v(-6.67408e-11, 0.0));
}

#[test]
fn the_pull_falls_with_the_square_of_the_distance() {
    let a = body(0.0, 0.0, 1.0);
    let b = body(2.0, 0.0, 8.0);
    assert_eq!(grav(&a, &b), v(6.67408e-11 * 8.0 / 4.0 * 2.0 * 0.5, 0.0));
    let c = body(3.0, 4.0, 2.0);
    let mag = 6.67408e-11f32 * 2.0 / 25.0;
    assert_eq!(grav(&a, &c), v(3.0 * mag * (1.0 / 5.0), 4.0 * mag * (1.0 / 5.0)));
    let back = 6.67408e-11f32 / 25.0;
    assert_eq!(grav(&c, &a), v(-3.0 * back * 0.2, -4.0 * back * 0.2));
}

#[test]
fn action_equals_reaction() {
    let pairs = [
        (body(0.0, 0.0, 3.0), body(3.0, 4.0, 5.0)),
        (body(-1.5, 2.0, 1.0e12), body(10.0, -7.0, 4.0e9)),
        (body(0.25, 0.5, 2.0), body(0.75, 0.125, 2.0)),
    ];
    for (a, b) in pairs {
        let on_a = grav(&a, &b) * a.m;
        let on_b = -(grav(&b, &a) * b.m);
        assert!(close(on_a.x.0, on_b.x.0), "{:?} {:?}", on_a, on_b);
        assert!(close(on_a.y.0, on_b.y.0), "{:?} {:?}", on_a, on_b);
        assert!(on_a.x.0 != 0.0 && on_a.y.0 != 0.0);
    }
}

#[test]
fn coincident_bodies_are_not_clamped() {
    let a = body(2.0, 3.0, 1.0);
    let pull = grav(&a, &a);
    assert!(pull.x.0.is_nan());
    assert!(pull.y.0.is_nan());
    let next = integrate(&[a, a], Real(0.0), Real(0.01));
    assert_eq!(next.len(), 2);
    assert!(next[0].s.x.0.is_nan());
    assert!(next[1].v.y.0.is_nan());
    assert_eq!(next[0].m, Real(1.0));
}

#[test]
fn a_lone_body_feels_no_force() {
    let mut o = body(5.0, -3.0, 2.0e30);
    o.v = v(1.5, 2.5);
    let push = Deriv { ds: v(1.0, 1.0), dv: v(4.0, -4.0) };
    for t in [0.0f32, 1.0, 1.0e6] {
        for dt in [0.0f32, 0.001, 1.0, -2.0, 1.0e9] {
            let d = diff(&[o], Real(t), Real(dt), &[push]);
            assert_eq!(d.len(), 1);
            assert_eq!(d[0].dv, vec2::<Real>::zero());
            assert_eq!(d[0].ds, v(1.5 + 4.0 * dt, 2.5 + -4.0 * dt));
        }
    }
    let next = integrate(&[o], Real(0.0), Real(2.0));
    assert_eq!(next, vec![Object { s: v(8.0, 2.0), v: v(1.5, 2.5), m: Real(2.0e30) }]);
}

#[test]
fn the_field_of_two_bodies() {
    let a = body(0.0, 0.0, 1.0);
    let mut b = body(1.0, 0.0, 1.0);
    b.v = v(0.0, 2.0);
    let d = diff(&[a, b], Real(0.0), Real(0.0), &[Deriv::default(), Deriv::default()]);
    assert_eq!(
        d,
        vec![
            Deriv { ds: v(0.0, 0.0), dv: v(6.67408e-11, 0.0) },
            Deriv { ds: v(0.0, 2.0), dv: v(-6.67408e-11, 0.0) },
        ]
    );
}

#[test]
fn the_field_is_taken_at_the_offset_state() {
    let a = body(0.0, 0.0, 1.0);
    let b = body(1.0, 0.0, 1.0);
    let rates = [
        Deriv { ds: v(0.0, 0.0), dv: v(0.0, 1.0) },
        Deriv { ds: v(2.0, 0.0), dv: v(0.0, 0.0) },
    ];
    let d = diff(&[a, b], Real(0.0), Real(0.5), &rates);
    let g = 6.67408e-11f32;
    assert_eq!(d[0].ds, v(0.0, 0.5));
    assert_eq!(d[1].ds, v(0.0, 0.0));
    assert_eq!(d[0].dv, v(2.0 * (g / 4.0) * 0.5, 0.0));
    assert_eq!(d[1].dv, v(-2.0 * (g / 4.0) * 0.5, 0.0));
}

#[test]
fn bodies_and_rates_are_paired_index_by_index() {
    let bodies = cloud(5);
    let rates = vec![Deriv::<Real>::default(); 3];
    let d = diff(&bodies, Real(0.0), Real(0.25), &rates);
    assert_eq!(d.len(), 3);
    assert_eq!(d, diff(&bodies[..3], Real(0.0), Real(0.25), &rates));
    let more = vec![Deriv::<Real>::default(); 9];
    assert_eq!(diff(&bodies, Real(0.0), Real(0.25), &more).len(), 5);
}

#[test]
fn an_empty_system_stays_empty() {
    let none: Vec<Object<Real>> = Vec::new();
    assert_eq!(diff(&none, Real(0.0), Real(1.0), &[]), vec![]);
    assert_eq!(diff(&none, Real(0.0), Real(1.0), &[Deriv::default()]), vec![]);
    assert_eq!(integrate(&none, Real(0.0), Real(1.0)), vec![]);
}

#[test]
fn parallel_and_sequential_fields_agree() {
    for n in [2usize, 3, 17, 64, 200] {
        let bodies = cloud(n);
        let mut rates = Vec::new();
        for (i, o) in bodies.iter().enumerate() {
            rates.push(Deriv { ds: o.v, dv: v(i as f32 * 1.0e-3, -1.0e-3) });
        }
        let par = diff(&bodies, Real(0.0), Real(0.125), &rates);
        let seq = diff_in_turn(&bodies, Real(0.125), &rates);
        assert_eq!(par.len(), n);
        for i in 0..n {
            assert!(close(par[i].ds.x.0, seq[i].ds.x.0));
            assert!(close(par[i].ds.y.0, seq[i].ds.y.0));
            assert!(close(par[i].dv.x.0, seq[i].dv.x.0));
            assert!(close(par[i].dv.y.0, seq[i].dv.y.0));
        }
        assert_eq!(par, seq);
        assert!(par.iter().all(|d| d.dv.x.0.is_finite() && d.dv.y.0.is_finite()));
        assert!(par.iter().any(|d| d.dv.x.0 != 0.0));
    }
}

#[test]
fn the_same_step_gives_the_same_state() {
    let bodies = cloud(48);
    let once = integrate(&bodies, Real(0.0), Real(0.5));
    let again = integrate(&bodies, Real(7.0), Real(0.5));
    assert_eq!(once, again);
    assert_ne!(once, bodies);
}

#[test]
fn the_four_slopes_are_weighted_one_two_two_one() {
    assert_eq!(weight(v(1.0, 1.0), v(2.0, 2.0), v(3.0, 3.0), v(1.0, 1.0)), v(2.0, 2.0));
    assert_eq!(weight(v(1.0, -1.0), v(2.0, -2.0), v(3.0, -3.0), v(4.0, -4.0)), v(2.5, -2.5));
    assert_eq!(weight(v(6.0, 0.0), v(0.0, 0.0), v(0.0, 0.0), v(0.0, 12.0)), v(1.0, 2.0));
    assert_eq!(weight(v(0.0, 0.0), v(3.0, 0.0), v(0.0, 3.0), v(0.0, 0.0)), v(1.0, 1.0));
    let third = weight(v(2.0, 0.0), v(0.0, 0.0), v(0.0, 0.0), v(0.0, 0.0));
    assert_eq!(third, v(2.0 * (1.0 / 6.0), 0.0));
}

#[test]
fn a_step_is_the_weighted_mean_of_four_fields() {
    let state = cloud(6);
    let (t, dt) = (Real(0.0), Real(0.75));
    let rest = vec![Deriv::<Real>::default(); state.len()];
    let k1 = diff(&state, t, Real(0.0), &rest);
    let k2 = diff(&state, t, Real(0.5 * 0.75), &k1);
    let k3 = diff(&state, t, Real(0.5 * 0.75), &k2);
    let k4 = diff(&state, t, dt, &k3);
    let next = integrate(&state, t, dt);
    assert_eq!(next.len(), 6);
    for i in 0..state.len() {
        let slope = Deriv {
            ds: weight(k1[i].ds, k2[i].ds, k3[i].ds, k4[i].ds),
            dv: weight(k1[i].dv, k2[i].dv, k3[i].dv, k4[i].dv),
        };
        assert_eq!(next[i], partial(&state[i], &slope, dt));
        let sixth = 1.0f32 / 6.0;
        let ds_x = (k1[i].ds.x.0 + (k2[i].ds.x.0 + k3[i].ds.x.0) * 2.0 + k4[i].ds.x.0) * sixth;
        assert_eq!(next[i].s.x.0, state[i].s.x.0 + ds_x * 0.75);
        assert_ne!(next[i].s, state[i].s);
    }
}

#[test]
fn a_step_keeps_count_order_and_mass() {
    let bodies = cloud(33);
    let next = integrate(&bodies, Real(0.0), Real(0.25));
    assert_eq!(next.len(), bodies.len());
    for i in 0..bodies.len() {
        assert_eq!(next[i].m, bodies[i].m);
        assert!((next[i].s.x.0 - bodies[i].s.x.0).abs() < 1.0);
    }
}

#[test]
fn a_step_of_no_length_changes_nothing() {
    let bodies = cloud(8);
    assert_eq!(integrate(&bodies, Real(0.0), Real(0.0)), bodies);
}

#[test]
fn free_fall_from_rest_over_one_step() {
    let a = Object {
        s: vec2::new(Wide(0.0), Wide(0.0)),
        v: vec2::new(Wide(0.0), Wide(0.0)),
        m: Wide(1.0),
    };
    let b = Object {
        s: vec2::new(Wide(1.0e9), Wide(0.0)),
        v: vec2::new(Wide(0.0), Wide(0.0)),
        m: Wide(1.0e18 / 6.67408e-11),
    };
    let next = integrate(&[a, b], Wide(0.0), Wide(1.0));
    let fallen = next[0].s.x.0;
    let speed = next[0].v.x.0;
    assert!((fallen - 0.5).abs() < 1.0e-8, "{}", fallen);
    assert!((speed - 1.0).abs() < 1.0e-8, "{}", speed);
    assert_eq!(next[0].s.y.0, 0.0);
    assert_eq!(next[1].m, b.m);
}

/// How far a body of a circular two-body orbit is from where it started,
/// after one period taken in `steps` steps.
fn miss_after_one_period(steps: u32) -> f64 {
    let m = Wide(4.0 / 6.67408e-11);
    let mut state = vec![
        Object { s: vec2::new(Wide(-1.0), Wide(0.0)), v: vec2::new(Wide(0.0), Wide(-1.0)), m },
        Object { s: vec2::new(Wide(1.0), Wide(0.0)), v: vec2::new(Wide(0.0), Wide(1.0)), m },
    ];
    let dt = 2.0 * std::f64::consts::PI / f64::from(steps);
    let mut t = 0.0;
    for _ in 0..steps {
        state = integrate(&state, Wide(t), Wide(dt));
        t += dt;
    }
    let dx = state[1].s.x.0 - 1.0;
    let dy = state[1].s.y.0;
    (dx * dx + dy * dy).sqrt()
}

#[test]
fn halving_the_step_cuts_the_error_sixteenfold() {
    let coarse = miss_after_one_period(128);
    let fine = miss_after_one_period(256);
    assert!(coarse < 1.0e-5, "{}", coarse);
    assert!(fine < coarse);
    let ratio = coarse / fine;
    assert!(ratio > 12.0 && ratio < 22.0, "{}", ratio);
}
