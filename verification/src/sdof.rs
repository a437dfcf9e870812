//! Exact step integration of a damped single-degree-of-freedom oscillator.
//!
//! The oscillator obeys `y'' + 2hw y' + w^2 y = -g(t)` with natural circular
//! frequency `w`, damping ratio `h`, and ground acceleration `g` interpolated
//! piecewise-linearly between samples spaced `dt` apart. Over one sample
//! interval the solution is exact and linear in the previous state and the
//! two bracketing ground samples; the eight scalars of that linear map are
//! the Nigam-Jennings transition coefficients. [`sdof_response`] advances the
//! recurrence one sample at a time, strictly in order, from rest initial
//! conditions.
//!
//! The module is generic in the sample type `T`. The recurrence is stated
//! over the specification-level meaning of `T`'s `+` and `*`
//! ([`vstd::std_specs::ops`]), so whenever those operators obey their
//! specifications the output is pinned exactly; the coefficients themselves
//! are derived by the caller, since their closed forms need transcendental
//! scalar functions that lie outside this crate.

use vstd::prelude::*;

verus! {

use vstd::std_specs::ops::AddSpec;
use vstd::std_specs::ops::MulSpec;
use crate::vector::Vector;

/// Failure of a response computation.
#[derive(Clone, Copy, Debug, PartialEq, Eq, Structural)]
pub enum SdofError {
    /// An oscillator parameter lies outside its admissible range.
    InvalidParameter,
    /// The ground-acceleration record holds no samples.
    EmptyInput,
    /// Coefficient derivation left the admissible numeric domain.
    DomainError,
}

/// The scalars of the exact one-interval transition map.
///
/// `a11, a12, a21, a22` form the state-transition matrix and
/// `b11, b12, b21, b22` the load-transition matrix: with previous state
/// `(y, y')` and bracketing ground samples `(g_prev, g_cur)`,
/// the next state is
/// `y_next  = a11 y + a12 y' + b11 g_prev + b12 g_cur` and
/// `y'_next = a21 y + a22 y' + b21 g_prev + b22 g_cur`.
/// `two_h_omega` and `omega_sq` are `2hw` and `w^2`, which turn a state into
/// the absolute acceleration `2hw y' + w^2 y`.
#[derive(Clone, Copy, Debug)]
pub struct TransitionCoefficients<T> {
    pub a11: T,
    pub a12: T,
    pub a21: T,
    pub a22: T,
    pub b11: T,
    pub b12: T,
    pub b21: T,
    pub b22: T,
    pub two_h_omega: T,
    pub omega_sq: T,
}

/// The response histories of one oscillator to one ground-acceleration
/// record: index-aligned with the input, sample `i` at time `i * dt`.
#[derive(Clone, Debug)]
pub struct SdofResponse<T> {
    /// Absolute acceleration `2hw y' + w^2 y` at each sample instant.
    pub absolute_acceleration: Vector<T>,
    /// Velocity `y'` relative to the ground at each sample instant.
    pub relative_velocity: Vector<T>,
    /// Displacement `y` relative to the ground at each sample instant.
    pub relative_displacement: Vector<T>,
}

/// `T`'s addition accepts every pair of operands.
pub open spec fn addition_total<T: core::ops::Add<Output = T>>() -> bool {
    forall|x: T, y: T| #[trigger] x.add_req(y)
}

/// `T`'s multiplication accepts every pair of operands.
pub open spec fn multiplication_total<T: core::ops::Mul<Output = T>>() -> bool {
    forall|x: T, y: T| #[trigger] x.mul_req(y)
}

/// `T`'s `+` and `*` return what their specifications say.
pub open spec fn obeys_arithmetic<T: core::ops::Add<Output = T> + core::ops::Mul<Output = T>>(
) -> bool {
    T::obeys_add_spec() && T::obeys_mul_spec()
}

/// The displacement row of the transition map, associated exactly as the
/// executable recurrence evaluates it.
pub open spec fn step_displacement<T: core::ops::Add<Output = T> + core::ops::Mul<Output = T>>(
    c: TransitionCoefficients<T>,
    y_prev: T,
    v_prev: T,
    g_prev: T,
    g_cur: T,
) -> T {
    c.a11.mul_spec(y_prev).add_spec(c.a12.mul_spec(v_prev)).add_spec(c.b11.mul_spec(g_prev))
        .add_spec(c.b12.mul_spec(g_cur))
}

/// The velocity row of the transition map, associated exactly as the
/// executable recurrence evaluates it.
pub open spec fn step_velocity<T: core::ops::Add<Output = T> + core::ops::Mul<Output = T>>(
    c: TransitionCoefficients<T>,
    y_prev: T,
    v_prev: T,
    g_prev: T,
    g_cur: T,
) -> T {
    c.a21.mul_spec(y_prev).add_spec(c.a22.mul_spec(v_prev)).add_spec(c.b21.mul_spec(g_prev))
        .add_spec(c.b22.mul_spec(g_cur))
}

/// The absolute acceleration `2hw y' + w^2 y` read off a state, associated
/// exactly as the executable recurrence evaluates it.
pub open spec fn step_acceleration<T: core::ops::Add<Output = T> + core::ops::Mul<Output = T>>(
    c: TransitionCoefficients<T>,
    disp: T,
    vel: T,
) -> T {
    c.two_h_omega.mul_spec(vel).add_spec(c.omega_sq.mul_spec(disp))
}

/// The three output histories are exactly the Nigam-Jennings recurrence over
/// `g` under coefficients `c` from rest initial conditions: all three are
/// index-aligned with `g`, sample 0 of each is `zero`, and every later
/// sample follows from its predecessor by the transition map.
pub open spec fn follows_recurrence<T: core::ops::Add<Output = T> + core::ops::Mul<Output = T>>(
    g: Seq<T>,
    c: TransitionCoefficients<T>,
    zero: T,
    disp: Seq<T>,
    vel: Seq<T>,
    acc: Seq<T>,
) -> bool {
    &&& disp.len() == g.len()
    &&& vel.len() == g.len()
    &&& acc.len() == g.len()
    &&& g.len() >= 1 ==> disp[0] == zero && vel[0] == zero && acc[0] == zero
    &&& forall|i: int| #![trigger disp[i]]
        1 <= i < g.len() ==> disp[i] == step_displacement(
            c,
            disp[i - 1],
            vel[i - 1],
            g[i - 1],
            g[i],
        )
    &&& forall|i: int| #![trigger vel[i]]
        1 <= i < g.len() ==> vel[i] == step_velocity(c, disp[i - 1], vel[i - 1], g[i - 1], g[i])
    &&& forall|i: int| #![trigger acc[i]]
        1 <= i < g.len() ==> acc[i] == step_acceleration(c, disp[i], vel[i])
}

/// The time-history response of the oscillator described by `coefficients`
/// to the record `ground_acceleration`, from rest initial conditions.
///
/// `zero` is the sample value standing for rest; it becomes sample 0 of all
/// three outputs. The record must hold at least one sample: an empty record
/// fails with `EmptyInput`, and nothing else fails. Each output history has
/// exactly the length of the input, and whenever `T`'s `+` and `*` obey
/// their specifications the outputs are pinned sample by sample by
/// [`follows_recurrence`].
pub fn sdof_response<T: core::ops::Add<Output = T> + core::ops::Mul<Output = T> + Copy>(
    ground_acceleration: &Vector<T>,
    coefficients: &TransitionCoefficients<T>,
    zero: T,
) -> (r: Result<SdofResponse<T>, SdofError>)
    requires
        addition_total::<T>(),
        multiplication_total::<T>(),
    ensures
        r is Err <==> ground_acceleration@.len() == 0,
        r is Err ==> r == Err::<SdofResponse<T>, SdofError>(SdofError::EmptyInput),
        r is Ok ==> {
            let resp = r->Ok_0;
            &&& resp.relative_displacement@.len() == ground_acceleration@.len()
            &&& resp.relative_velocity@.len() == ground_acceleration@.len()
            &&& resp.absolute_acceleration@.len() == ground_acceleration@.len()
            &&& resp.relative_displacement@[0] == zero
            &&& resp.relative_velocity@[0] == zero
            &&& resp.absolute_acceleration@[0] == zero
            &&& obeys_arithmetic::<T>() ==> follows_recurrence(
                ground_acceleration@,
                *coefficients,
                zero,
                resp.relative_displacement@,
                resp.relative_velocity@,
                resp.absolute_acceleration@,
            )
        },
{
    let n = ground_acceleration.len();
    if n == 0 {
        return Err(SdofError::EmptyInput);
    }
    let mut disp: Vec<T> = Vec::new();
    let mut vel: Vec<T> = Vec::new();
    let mut acc: Vec<T> = Vec::new();
    disp.push(zero);
    vel.push(zero);
    acc.push(zero);
    let mut y_prev = zero;
    let mut v_prev = zero;
    let mut g_prev = ground_acceleration.at(0);
    let mut i: usize = 1;
    while i < n
        invariant
            1 <= i <= n,
            n == ground_acceleration@.len(),
            addition_total::<T>(),
            multiplication_total::<T>(),
            disp@.len() == i,
            vel@.len() == i,
            acc@.len() == i,
            disp@[0] == zero,
            vel@[0] == zero,
            acc@[0] == zero,
            y_prev == disp@[i - 1],
            v_prev == vel@[i - 1],
            g_prev == ground_acceleration@[i - 1],
            obeys_arithmetic::<T>() ==> forall|j: int| #![trigger disp@[j]]
                1 <= j < i ==> disp@[j] == step_displacement(
                    *coefficients,
                    disp@[j - 1],
                    vel@[j - 1],
                    ground_acceleration@[j - 1],
                    ground_acceleration@[j],
                ),
            obeys_arithmetic::<T>() ==> forall|j: int| #![trigger vel@[j]]
                1 <= j < i ==> vel@[j] == step_velocity(
                    *coefficients,
                    disp@[j - 1],
                    vel@[j - 1],
                    ground_acceleration@[j - 1],
                    ground_acceleration@[j],
                ),
            obeys_arithmetic::<T>() ==> forall|j: int| #![trigger acc@[j]]
                1 <= j < i ==> acc@[j] == step_acceleration(*coefficients, disp@[j], vel@[j]),
        decreases n - i,
    {
        let g_cur = ground_acceleration.at(i);
        let y_cur = coefficients.a11 * y_prev + coefficients.a12 * v_prev + coefficients.b11
            * g_prev + coefficients.b12 * g_cur;
        let v_cur = coefficients.a21 * y_prev + coefficients.a22 * v_prev + coefficients.b21
            * g_prev + coefficients.b22 * g_cur;
        let a_cur = coefficients.two_h_omega * v_cur + coefficients.omega_sq * y_cur;
        disp.push(y_cur);
        vel.push(v_cur);
        acc.push(a_cur);
        y_prev = y_cur;
        v_prev = v_cur;
        g_prev = g_cur;
        i += 1;
    }
    Ok(SdofResponse {
        absolute_acceleration: Vector::from_vec(acc),
        relative_velocity: Vector::from_vec(vel),
        relative_displacement: Vector::from_vec(disp),
    })
}

proof fn lemma_recurrence_unique_at<T: core::ops::Add<Output = T> + core::ops::Mul<Output = T>>(
    g: Seq<T>,
    c: TransitionCoefficients<T>,
    zero: T,
    disp1: Seq<T>,
    vel1: Seq<T>,
    acc1: Seq<T>,
    disp2: Seq<T>,
    vel2: Seq<T>,
    acc2: Seq<T>,
    i: int,
)
    requires
        follows_recurrence(g, c, zero, disp1, vel1, acc1),
        follows_recurrence(g, c, zero, disp2, vel2, acc2),
        0 <= i < g.len(),
    ensures
        disp1[i] == disp2[i],
        vel1[i] == vel2[i],
        acc1[i] == acc2[i],
    decreases i,
{
    if i > 0 {
        lemma_recurrence_unique_at(g, c, zero, disp1, vel1, acc1, disp2, vel2, acc2, i - 1);
    }
}

/// The recurrence is deterministic: the record, the coefficients, and the
/// rest sample pin all three output histories uniquely. Any two response
/// bundles that follow the recurrence for the same inputs are equal, sample
/// for sample.
pub proof fn lemma_recurrence_deterministic<
    T: core::ops::Add<Output = T> + core::ops::Mul<Output = T>,
>(
    g: Seq<T>,
    c: TransitionCoefficients<T>,
    zero: T,
    disp1: Seq<T>,
    vel1: Seq<T>,
    acc1: Seq<T>,
    disp2: Seq<T>,
    vel2: Seq<T>,
    acc2: Seq<T>,
)
    requires
        follows_recurrence(g, c, zero, disp1, vel1, acc1),
        follows_recurrence(g, c, zero, disp2, vel2, acc2),
    ensures
        disp1 == disp2,
        vel1 == vel2,
        acc1 == acc2,
{
    assert forall|i: int| 0 <= i < g.len() implies disp1[i] == disp2[i] && vel1[i] == vel2[i]
        && acc1[i] == acc2[i] by {
        lemma_recurrence_unique_at(g, c, zero, disp1, vel1, acc1, disp2, vel2, acc2, i);
    }
    assert(disp1 =~= disp2);
    assert(vel1 =~= vel2);
    assert(acc1 =~= acc2);
}

proof fn lemma_rest_zero_at<T: core::ops::Add<Output = T> + core::ops::Mul<Output = T>>(
    g: Seq<T>,
    c: TransitionCoefficients<T>,
    zero: T,
    disp: Seq<T>,
    vel: Seq<T>,
    acc: Seq<T>,
    i: int,
)
    requires
        follows_recurrence(g, c, zero, disp, vel, acc),
        forall|j: int| #![trigger g[j]] 0 <= j < g.len() ==> g[j] == zero,
        forall|x: T| #[trigger] x.mul_spec(zero) == zero,
        zero.add_spec(zero) == zero,
        0 <= i < g.len(),
    ensures
        disp[i] == zero,
        vel[i] == zero,
        acc[i] == zero,
    decreases i,
{
    if i > 0 {
        lemma_rest_zero_at(g, c, zero, disp, vel, acc, i - 1);
    }
}

/// Rest is a fixed point: when every ground sample is the rest sample
/// `zero`, and `zero` annihilates under `*` and is neutral under `+` as it
/// is in exact arithmetic, all three output histories are `zero` at every
/// index.
pub proof fn lemma_rest_fixed_point<T: core::ops::Add<Output = T> + core::ops::Mul<Output = T>>(
    g: Seq<T>,
    c: TransitionCoefficients<T>,
    zero: T,
    disp: Seq<T>,
    vel: Seq<T>,
    acc: Seq<T>,
)
    requires
        follows_recurrence(g, c, zero, disp, vel, acc),
        forall|j: int| #![trigger g[j]] 0 <= j < g.len() ==> g[j] == zero,
        forall|x: T| #[trigger] x.mul_spec(zero) == zero,
        zero.add_spec(zero) == zero,
    ensures
        forall|i: int| #![trigger disp[i]] 0 <= i < g.len() ==> disp[i] == zero,
        forall|i: int| #![trigger vel[i]] 0 <= i < g.len() ==> vel[i] == zero,
        forall|i: int| #![trigger acc[i]] 0 <= i < g.len() ==> acc[i] == zero,
{
    assert forall|i: int| 0 <= i < g.len() implies disp[i] == zero && vel[i] == zero && acc[i]
        == zero by {
        lemma_rest_zero_at(g, c, zero, disp, vel, acc, i);
    }
}

} // verus!
