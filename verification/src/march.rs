//! Control decisions of the sphere marcher and of the bounce loop.
//!
//! The marcher advances a point along a ray, stepping by the field value,
//! until it either comes near a surface, runs out of steps, or spends its
//! travel budget. The tracer then dispatches on what was struck, for at
//! most [`MAX_BOUNCES`] bounces. The numeric stepping itself is floating
//! point and lives with the caller; the decisions taken at each step are
//! exact and stand here.

use vstd::prelude::*;

use crate::surface::HitType;

verus! {

/// A march ends no later than this many field samples.
pub const MAX_MARCH_STEPS: u32 = 100;

/// A traced ray is followed through at most this many bounces.
pub const MAX_BOUNCES: u32 = 3;

/// What the marcher does after one field sample.
#[derive(Clone, Copy, Debug, PartialEq, Eq, Structural)]
pub enum MarchStep {
    /// Step forward by the sampled distance and sample again.
    Advance,
    /// Stop here and report the sampled surface as struck.
    Strike,
    /// Stop and report that the ray escaped the scene.
    Escape,
}

/// What the tracer does with a bounce, by the surface the march struck.
#[derive(Clone, Copy, Debug, PartialEq, Eq, Structural)]
pub enum BounceAction {
    /// The ray escaped into the unlit void: stop, add nothing.
    Halt,
    /// Mirror the direction about the surface normal and continue.
    Reflect,
    /// Sample a diffuse direction over the hemisphere and continue,
    /// with a direct shadow ray toward the light when it faces the light.
    Scatter,
    /// Add the sun's emission and stop.
    Emit,
}

/// The marcher's decision after a field sample.
///
/// `steps` counts the samples taken so far, this one included.
/// `budget_spent` says whether the ray's total travel had already reached
/// its distance budget before this sample; `near_surface` says whether the
/// sampled distance fell below the hit tolerance.
pub open spec fn spec_march_decision(steps: u32, budget_spent: bool, near_surface: bool) -> MarchStep {
    if budget_spent {
        MarchStep::Escape
    } else if near_surface || steps >= MAX_MARCH_STEPS {
        MarchStep::Strike
    } else {
        MarchStep::Advance
    }
}

/// Decide the marcher's next move after one field sample.
///
/// The ray escapes exactly when its travel budget is spent; otherwise it
/// strikes exactly when the field reports a near surface or the step cap
/// is reached, the current (possibly unconverged) position standing as the
/// hit in the capped case.
pub fn march_decision(steps: u32, budget_spent: bool, near_surface: bool) -> (d: MarchStep)
    ensures
        d == spec_march_decision(steps, budget_spent, near_surface),
        d is Escape <==> budget_spent,
        d is Advance ==> steps < MAX_MARCH_STEPS,
{
    if budget_spent {
        MarchStep::Escape
    } else if near_surface || steps >= MAX_MARCH_STEPS {
        MarchStep::Strike
    } else {
        MarchStep::Advance
    }
}

/// However the field behaves, a march ends within the step cap: once
/// [`MAX_MARCH_STEPS`] samples are taken the decision is never to advance,
/// and the march reports an escape exactly when the travel budget was
/// spent.
pub proof fn lemma_march_bounded(steps: u32, budget_spent: bool, near_surface: bool)
    ensures
        steps >= MAX_MARCH_STEPS ==> spec_march_decision(steps, budget_spent, near_surface) != MarchStep::Advance,
        spec_march_decision(steps, budget_spent, near_surface) is Escape <==> budget_spent,
{
}

/// Dispatch a bounce on the surface the march struck.
///
/// Escaped rays halt the loop, letters mirror, walls scatter diffusely,
/// and the sun emits and halts.
pub fn bounce_action(struck: HitType) -> (a: BounceAction)
    ensures
        a is Halt <==> struck is Escaped,
        a is Reflect <==> struck is Letter,
        a is Scatter <==> struck is Wall,
        a is Emit <==> struck is Sun,
{
    match struck {
        HitType::Escaped => BounceAction::Halt,
        HitType::Letter => BounceAction::Reflect,
        HitType::Wall => BounceAction::Scatter,
        HitType::Sun => BounceAction::Emit,
    }
}

/// How the bounce loop of one traced ray unfolded.
#[derive(Clone, Copy, Debug, PartialEq, Eq, Structural)]
pub struct TraceControl {
    /// How many marches the loop ran before it stopped.
    pub marches: u32,
    /// How many of them bounced on (letter or wall), each scaling the
    /// attenuation once.
    pub attenuation_steps: u32,
    /// Whether the loop ended on the sun and added its emission.
    pub emitted: bool,
}

/// How many marches a bounce loop with `budget` bounces left runs when
/// the successive marches strike `hits`: each march is counted, and the
/// loop stops at an escape, at the sun, or with the budget.
pub open spec fn spec_marches_run(hits: Seq<HitType>, budget: int) -> int
    decreases budget,
{
    if budget <= 0 || hits.len() == 0 {
        0
    } else if hits[0] is Escaped || hits[0] is Sun {
        1
    } else {
        1 + spec_marches_run(hits.drop_first(), budget - 1)
    }
}

/// How many of those marches bounce on, scaling the attenuation.
pub open spec fn spec_attenuation_steps(hits: Seq<HitType>, budget: int) -> int
    decreases budget,
{
    if budget <= 0 || hits.len() == 0 {
        0
    } else if hits[0] is Escaped || hits[0] is Sun {
        0
    } else {
        1 + spec_attenuation_steps(hits.drop_first(), budget - 1)
    }
}

/// Whether the loop ends on the sun and adds its emission.
pub open spec fn spec_emits(hits: Seq<HitType>, budget: int) -> bool
    decreases budget,
{
    if budget <= 0 || hits.len() == 0 {
        false
    } else if hits[0] is Sun {
        true
    } else if hits[0] is Escaped {
        false
    } else {
        spec_emits(hits.drop_first(), budget - 1)
    }
}

/// The bounce loop runs at most its budget of marches, and bounces on at
/// most as often as it marches.
pub proof fn lemma_trace_bounded(hits: Seq<HitType>, budget: int)
    requires
        0 <= budget,
    ensures
        0 <= spec_marches_run(hits, budget) <= budget,
        0 <= spec_attenuation_steps(hits, budget) <= spec_marches_run(hits, budget),
    decreases budget,
{
    if budget > 0 && hits.len() > 0 && !(hits[0] is Escaped || hits[0] is Sun) {
        lemma_trace_bounded(hits.drop_first(), budget - 1);
    }
}

/// A ray whose very first march reaches the sun emits at once, with
/// nothing yet attenuated: the sun color is added at full strength.
pub proof fn lemma_first_march_sun(hits: Seq<HitType>, budget: int)
    requires
        1 <= budget,
        1 <= hits.len(),
        hits[0] is Sun,
    ensures
        spec_emits(hits, budget),
        spec_attenuation_steps(hits, budget) == 0,
        spec_marches_run(hits, budget) == 1,
{
}

/// Walk the bounce loop's control decisions for the marches' outcomes
/// `hits`, one outcome per bounce the budget allows.
///
/// The summary is exact: the loop marches once per entry until one is an
/// escape (stop, no emission) or the sun (stop, emission) or the budget
/// of [`MAX_BOUNCES`] is spent; every letter or wall march scales the
/// attenuation once.
pub fn trace_control(hits: &Vec<HitType>) -> (control: TraceControl)
    requires
        MAX_BOUNCES <= hits@.len(),
    ensures
        control.marches == spec_marches_run(hits@, MAX_BOUNCES as int),
        control.attenuation_steps == spec_attenuation_steps(hits@, MAX_BOUNCES as int),
        control.emitted == spec_emits(hits@, MAX_BOUNCES as int),
        control.marches <= MAX_BOUNCES,
        control.attenuation_steps <= control.marches,
{
    proof {
        lemma_trace_bounded(hits@, MAX_BOUNCES as int);
        assert(hits@.skip(0) =~= hits@);
    }
    trace_control_from(hits, 0, MAX_BOUNCES)
}

/// The bounce loop's control from position `at` on, with `budget`
/// bounces left.
fn trace_control_from(hits: &Vec<HitType>, at: usize, budget: u32) -> (control: TraceControl)
    requires
        at + budget <= hits@.len(),
    ensures
        control.marches == spec_marches_run(hits@.skip(at as int), budget as int),
        control.attenuation_steps == spec_attenuation_steps(hits@.skip(at as int), budget as int),
        control.emitted == spec_emits(hits@.skip(at as int), budget as int),
        control.marches <= budget,
        control.attenuation_steps <= control.marches,
    decreases budget,
{
    let rest = Ghost(hits@.skip(at as int));
    if budget == 0 {
        return TraceControl { marches: 0, attenuation_steps: 0, emitted: false };
    }
    match hits[at] {
        HitType::Escaped => TraceControl { marches: 1, attenuation_steps: 0, emitted: false },
        HitType::Sun => TraceControl { marches: 1, attenuation_steps: 0, emitted: true },
        _ => {
            proof {
                assert(rest@.drop_first() =~= hits@.skip(at as int + 1));
            }
            let len = hits.len();
            assert(at < len);
            let onward = trace_control_from(hits, at + 1, budget - 1);
            TraceControl {
                marches: onward.marches + 1,
                attenuation_steps: onward.attenuation_steps + 1,
                emitted: onward.emitted,
            }
        },
    }
}

/// Whether a diffuse bounce adds direct sunlight.
///
/// The contribution is added exactly when the surface faces the light
/// (positive incidence) and the shadow ray marched toward the light
/// reached the sun unobstructed.
pub fn direct_light_added(incidence_positive: bool, shadow_hit: HitType) -> (add: bool)
    ensures
        add <==> (incidence_positive && shadow_hit is Sun),
{
    incidence_positive && matches!(shadow_hit, HitType::Sun)
}

} // verus!
