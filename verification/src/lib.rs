//! Decision core for the per-tick update of a simulated particle.
//!
//! Each tick a particle's depth is driven toward a floor of zero and its
//! planar position takes one bounded rotation step. The arithmetic itself
//! runs on floating-point coordinates outside this crate; everything the
//! tick *decides* is discrete and lives here, verified:
//!
//! * which depth action the tick takes — collapse while the depth is above
//!   zero, clamp to exactly zero otherwise;
//! * which rotation direction the particle's layer selects — adjacent
//!   layers counter-rotate, by the parity of the layer index;
//! * the named rate constants that scale the collapse.
//!
//! Beside the decisions, the depth formula and the velocity product are
//! stated here in the exact integer arithmetic of a model, with proved
//! laws: a zero time delta leaves a collapsing depth unchanged, a depth at
//! or below zero settles to exactly zero and stays there, a non-negative
//! time delta never raises a non-negative depth, and the velocity's sign
//! follows the layer's parity. Only the trigonometric displacement itself
//! has no statement here.

use vstd::prelude::*;

verus! {

/// Base rate, in depth units per unit of time, at which a particle's depth
/// is driven toward zero.
pub const COLLAPSE_RATE: u32 = 28;

/// Fixed multiplier applied to the collapse rate on every tick.
pub const ENTROPY_FACTOR: u32 = 2;

/// Sign selector for the planar rotation step.
#[derive(Clone, Copy, Debug, PartialEq, Eq, Structural)]
pub enum RotationDir {
    /// The `+1` direction, selected by even layers.
    Forward,
    /// The `-1` direction, selected by odd layers.
    Reverse,
}

impl RotationDir {
    /// The unit sign this direction stands for.
    pub open spec fn sign(self) -> int {
        match self {
            RotationDir::Forward => 1,
            RotationDir::Reverse => -1,
        }
    }

    /// The sign as a machine integer, for callers that scale a quantity by it.
    pub fn signum(&self) -> (s: i8)
        ensures
            s as int == self.sign(),
    {
        match self {
            RotationDir::Forward => 1,
            RotationDir::Reverse => -1,
        }
    }
}

/// The rotation direction a layer index selects: even layers rotate forward,
/// odd layers reverse.
pub open spec fn spec_rotation_dir(layer: u8) -> RotationDir {
    if layer % 2 == 0 {
        RotationDir::Forward
    } else {
        RotationDir::Reverse
    }
}

/// Select the rotation direction from the particle's layer index.
pub fn rotation_dir(layer: u8) -> (d: RotationDir)
    ensures
        d == spec_rotation_dir(layer),
{
    if layer % 2 == 0 {
        RotationDir::Forward
    } else {
        RotationDir::Reverse
    }
}

/// Every even layer resolves to the `+1` sign and every odd layer to the
/// `-1` sign.
pub proof fn lemma_rotation_sign_by_parity(layer: u8)
    ensures
        layer % 2 == 0 ==> spec_rotation_dir(layer).sign() == 1,
        layer % 2 != 0 ==> spec_rotation_dir(layer).sign() == -1,
{
}

/// Adjacent layers counter-rotate: a layer and its successor resolve to
/// opposite signs.
pub proof fn lemma_adjacent_layers_counter_rotate(layer: u8)
    requires
        layer < 255,
    ensures
        spec_rotation_dir((layer + 1) as u8).sign() == -spec_rotation_dir(layer).sign(),
{
}

/// The two phases of a particle's depth: still collapsing toward the floor,
/// or settled exactly on it.
#[derive(Clone, Copy, Debug, PartialEq, Eq, Structural)]
pub enum DepthPhase {
    /// The depth is above zero and shrinks each tick.
    Collapsing,
    /// The depth has reached the floor and is held at exactly zero.
    Settled,
}

/// The phase a depth value is in, given whether it is still above zero.
pub open spec fn spec_depth_phase(z_above_zero: bool) -> DepthPhase {
    if z_above_zero {
        DepthPhase::Collapsing
    } else {
        DepthPhase::Settled
    }
}

/// Classify the depth's phase from whether it is still above zero.
pub fn depth_phase(z_above_zero: bool) -> (p: DepthPhase)
    ensures
        p == spec_depth_phase(z_above_zero),
{
    if z_above_zero {
        DepthPhase::Collapsing
    } else {
        DepthPhase::Settled
    }
}

/// What the depth step of one tick does.
#[derive(Clone, Copy, Debug, PartialEq, Eq, Structural)]
pub enum DepthAction {
    /// Subtract `COLLAPSE_RATE * time_delta * ENTROPY_FACTOR` from the depth.
    Collapse,
    /// Set the depth to exactly zero.
    Clamp,
}

/// The action one tick takes on the depth: collapse while it is above zero,
/// clamp to the floor otherwise.
pub open spec fn spec_depth_action(z_above_zero: bool) -> DepthAction {
    if z_above_zero {
        DepthAction::Collapse
    } else {
        DepthAction::Clamp
    }
}

/// Decide the depth action from whether the depth is still above zero.
pub fn depth_action(z_above_zero: bool) -> (a: DepthAction)
    ensures
        a == spec_depth_action(z_above_zero),
{
    if z_above_zero {
        DepthAction::Collapse
    } else {
        DepthAction::Clamp
    }
}

/// A tick collapses the depth exactly in the collapsing phase and clamps it
/// exactly in the settled phase.
pub proof fn lemma_action_matches_phase(z_above_zero: bool)
    ensures
        spec_depth_action(z_above_zero) == DepthAction::Collapse <==> spec_depth_phase(
            z_above_zero,
        ) == DepthPhase::Collapsing,
        spec_depth_action(z_above_zero) == DepthAction::Clamp <==> spec_depth_phase(z_above_zero)
            == DepthPhase::Settled,
{
}

/// The depth after one tick, in the exact arithmetic of the model: while
/// the depth is above zero the tick subtracts the scaled collapse term,
/// otherwise it clamps the depth to exactly zero. A large time delta may
/// drive the result below zero unclamped — the clamp applies only on a
/// tick that already starts at or below zero.
pub open spec fn spec_depth_after(z: int, time_delta: int) -> int {
    if z > 0 {
        z - COLLAPSE_RATE as int * time_delta * ENTROPY_FACTOR as int
    } else {
        0
    }
}

/// The depth model follows the decided action: a collapse subtracts the
/// scaled term, a clamp yields exactly zero.
pub proof fn lemma_depth_after_follows_action(z: int, time_delta: int)
    ensures
        spec_depth_action(z > 0) == DepthAction::Collapse ==> spec_depth_after(z, time_delta)
            == z - COLLAPSE_RATE as int * time_delta * ENTROPY_FACTOR as int,
        spec_depth_action(z > 0) == DepthAction::Clamp ==> spec_depth_after(z, time_delta) == 0,
{
}

/// With a zero time delta a collapsing depth is unchanged: the collapse
/// term vanishes.
pub proof fn lemma_zero_time_keeps_depth(z: int)
    requires
        z > 0,
    ensures
        spec_depth_after(z, 0) == z,
{
}

/// The settled phase is absorbing: a depth at or below zero is clamped to
/// exactly zero, and every later tick clamps it again, whatever time delta
/// it carries.
pub proof fn lemma_settled_is_absorbing(z: int, time_delta: int, next_time_delta: int)
    requires
        z <= 0,
    ensures
        spec_depth_after(z, time_delta) == 0,
        spec_depth_after(spec_depth_after(z, time_delta), next_time_delta) == 0,
        spec_depth_phase(spec_depth_after(z, time_delta) > 0) == DepthPhase::Settled,
{
}

/// With a non-negative time delta a non-negative depth never increases.
pub proof fn lemma_depth_never_increases(z: int, time_delta: int)
    requires
        z >= 0,
        time_delta >= 0,
    ensures
        spec_depth_after(z, time_delta) <= z,
{
}

/// A tick that drives a positive depth to or below zero leaves it there
/// unclamped; the following tick then clamps it to exactly zero, whatever
/// time delta it carries.
pub proof fn lemma_overshoot_clamps_next_tick(z: int, time_delta: int, next_time_delta: int)
    requires
        z > 0,
        spec_depth_after(z, time_delta) <= 0,
    ensures
        spec_depth_after(spec_depth_after(z, time_delta), next_time_delta) == 0,
{
}

/// A negative time delta raises a depth that is still above zero: the
/// collapse term changes sign, and the subtraction adds to the depth.
pub proof fn lemma_negative_time_raises_depth(z: int, time_delta: int)
    requires
        z > 0,
        time_delta < 0,
    ensures
        spec_depth_after(z, time_delta) > z,
{
}

/// The velocity one tick feeds into the planar step, in the exact
/// arithmetic of the model: the rotational speed, signed by the rotation
/// direction and scaled by the entropy limit.
pub open spec fn spec_velocity(rpm: int, dir: RotationDir, entropy_limit: int) -> int {
    rpm * dir.sign() * entropy_limit
}

/// With a positive rotational speed and a positive entropy limit, the
/// velocity's sign follows the layer's parity: positive on even layers,
/// negative on odd ones.
pub proof fn lemma_velocity_sign_by_parity(rpm: int, layer: u8, entropy_limit: int)
    requires
        rpm > 0,
        entropy_limit > 0,
    ensures
        layer % 2 == 0 ==> spec_velocity(rpm, spec_rotation_dir(layer), entropy_limit) > 0,
        layer % 2 != 0 ==> spec_velocity(rpm, spec_rotation_dir(layer), entropy_limit) < 0,
{
    assert(rpm * entropy_limit > 0) by (nonlinear_arith)
        requires
            rpm > 0,
            entropy_limit > 0,
    ;
    assert(rpm * 1 * entropy_limit == rpm * entropy_limit) by (nonlinear_arith);
    assert(rpm * -1 * entropy_limit == -(rpm * entropy_limit)) by (nonlinear_arith);
}

/// Opposite rotation directions give exactly opposite velocities: the two
/// signs negate the same product.
pub proof fn lemma_opposite_directions_negate_velocity(rpm: int, entropy_limit: int)
    ensures
        spec_velocity(rpm, RotationDir::Forward, entropy_limit) == -spec_velocity(
            rpm,
            RotationDir::Reverse,
            entropy_limit,
        ),
{
    assert(rpm * 1 * entropy_limit == -(rpm * -1 * entropy_limit)) by (nonlinear_arith);
}

/// Everything one tick decides from the particle's discrete state: which
/// depth action to take and which way the planar step rotates. The caller
/// applies the plan to the particle's floating-point coordinates.
#[derive(Clone, Copy, Debug, PartialEq, Eq, Structural)]
pub struct TickPlan {
    /// The depth action for this tick.
    pub depth: DepthAction,
    /// The sign of the planar rotation step for this tick.
    pub dir: RotationDir,
}

/// The plan a tick follows, from the two discrete inputs it depends on.
pub open spec fn spec_plan_tick(z_above_zero: bool, layer: u8) -> TickPlan {
    TickPlan { depth: spec_depth_action(z_above_zero), dir: spec_rotation_dir(layer) }
}

/// Decide one tick's plan from the particle's discrete state.
pub fn plan_tick(z_above_zero: bool, layer: u8) -> (plan: TickPlan)
    ensures
        plan == spec_plan_tick(z_above_zero, layer),
{
    TickPlan { depth: depth_action(z_above_zero), dir: rotation_dir(layer) }
}

} // verus!
