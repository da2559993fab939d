use vstd::prelude::*;

use crate::game::{
    fresh_playing, next_phase, out_of_band, physics_request_of, PhaseModel, TickInput,
    GET_READY_DURATION, TERRAIN_TILE_WIDTH,
};

verus! {

/// The phase reached from `m` after the ticks `inputs`, in order.
pub open spec fn run(m: PhaseModel, inputs: Seq<TickInput>) -> PhaseModel
    decreases inputs.len(),
{
    if inputs.len() == 0 {
        m
    } else {
        next_phase(run(m, inputs.drop_last()), inputs.last())
    }
}

/// Ticks of `step` time units that the countdown takes: 4 s / step, rounded up.
pub open spec fn countdown_ticks(step: int) -> int {
    (GET_READY_DURATION + step - 1) / step
}

proof fn lemma_run_take_step(m: PhaseModel, inputs: Seq<TickInput>, k: int)
    requires
        0 <= k < inputs.len(),
    ensures
        run(m, inputs.take(k + 1)) == next_phase(run(m, inputs.take(k)), inputs[k]),
{
    assert(inputs.take(k + 1).drop_last() =~= inputs.take(k));
}

/// Without a press the title screen stays, for any number of ticks.
pub proof fn lemma_waiting_without_press(inputs: Seq<TickInput>)
    requires
        forall|i: int| 0 <= i < inputs.len() ==> !(#[trigger] inputs[i]).pressed,
    ensures
        run(PhaseModel::Waiting, inputs) == PhaseModel::Waiting,
    decreases inputs.len(),
{
    if inputs.len() > 0 {
        lemma_waiting_without_press(inputs.drop_last());
    }
}

proof fn lemma_countdown_prefix(scroll_speed: u64, inputs: Seq<TickInput>, step: u64, k: int)
    requires
        0 <= k <= inputs.len(),
        k * step < GET_READY_DURATION,
        forall|i: int| 0 <= i < inputs.len() ==> (#[trigger] inputs[i]).delta == step,
    ensures
        run(PhaseModel::GetReady { scroll_speed, time_elapsed: 0 }, inputs.take(k))
            == (PhaseModel::GetReady { scroll_speed, time_elapsed: (k * step) as u64 }),
    decreases k,
{
    let m = PhaseModel::GetReady { scroll_speed, time_elapsed: 0 };
    if k == 0 {
        assert(inputs.take(0) =~= Seq::<TickInput>::empty());
        assert(k * step == 0) by (nonlinear_arith)
            requires k == 0;
    } else {
        assert((k - 1) * step < GET_READY_DURATION) by (nonlinear_arith)
            requires k * step < GET_READY_DURATION, k >= 1;
        lemma_countdown_prefix(scroll_speed, inputs, step, k - 1);
        lemma_run_take_step(m, inputs, k - 1);
        assert((k - 1) * step + step == k * step) by (nonlinear_arith);
        assert(inputs[k - 1].delta == step);
        assert(0 <= (k - 1) * step) by (nonlinear_arith)
            requires k >= 1;
    }
}

/// Whatever is pressed, a countdown that ticks by `step` lasts exactly
/// `countdown_ticks(step)` ticks: it is still counting before that many,
/// and play starts on that tick.
pub proof fn lemma_countdown_length(scroll_speed: u64, inputs: Seq<TickInput>, step: u64)
    requires
        step > 0,
        forall|i: int| 0 <= i < inputs.len() ==> (#[trigger] inputs[i]).delta == step,
    ensures
        forall|k: int|
            0 <= k < countdown_ticks(step as int) && k <= inputs.len() ==> (#[trigger] run(
                PhaseModel::GetReady { scroll_speed, time_elapsed: 0 },
                inputs.take(k),
            )) is GetReady,
        countdown_ticks(step as int) <= inputs.len() ==> run(
            PhaseModel::GetReady { scroll_speed, time_elapsed: 0 },
            inputs.take(countdown_ticks(step as int)),
        ) == fresh_playing(scroll_speed),
{
    let m = PhaseModel::GetReady { scroll_speed, time_elapsed: 0 };
    let s = step as int;
    let d = GET_READY_DURATION as int;
    let n = countdown_ticks(s);
    assert(n * s >= d && (n - 1) * s < d && n >= 1) by {
        vstd::arithmetic::div_mod::lemma_fundamental_div_mod(d + s - 1, s);
        let r = (d + s - 1) % s;
        assert(0 <= r < s);
        assert(d + s - 1 == s * n + r);
        assert(n * s == s * n) by (nonlinear_arith);
        assert((n - 1) * s == n * s - s) by (nonlinear_arith);
        assert(n >= 1) by (nonlinear_arith)
            requires n * s >= d, d > 0, s > 0;
    }
    assert forall|k: int| 0 <= k < n && k <= inputs.len() implies (#[trigger] run(m, inputs.take(k)))
        is GetReady by {
        assert(k * s <= (n - 1) * s) by (nonlinear_arith)
            requires k <= n - 1, s > 0;
        lemma_countdown_prefix(scroll_speed, inputs, step, k);
    }
    if n <= inputs.len() {
        lemma_countdown_prefix(scroll_speed, inputs, step, n - 1);
        lemma_run_take_step(m, inputs, n - 1);
        assert((n - 1) * s + s == n * s) by (nonlinear_arith);
    }
}

/// In play, the physics world pushes the player body exactly on the ticks
/// when the trigger is held, and the body exists by then: it is built
/// earlier on the same tick when there is none yet.
pub proof fn lemma_impulse_iff_pressed(m: PhaseModel, pressed: bool)
    ensures
        physics_request_of(m, pressed).apply_impulse <==> (m is Playing && pressed),
        physics_request_of(m, pressed).apply_impulse ==> (m->Playing_plane is Some
            || physics_request_of(m, pressed).create_bodies),
{
}

/// After any tick of play, whatever it scrolled, the terrain offset lies
/// within one tile.
pub proof fn lemma_terrain_offset_wraps(m: PhaseModel, t: TickInput)
    requires
        m is Playing,
        next_phase(m, t) is Playing,
    ensures
        0 <= next_phase(m, t)->Playing_terrain_offset < TERRAIN_TILE_WIDTH,
{
}

proof fn lemma_playing_in_band(m: PhaseModel, inputs: Seq<TickInput>, j: int)
    requires
        m matches PhaseModel::Playing { plane, .. } && plane is Some,
        0 <= j <= inputs.len(),
        forall|i: int|
            0 <= i < j ==> !((#[trigger] inputs[i]).body_y matches Some(y) && out_of_band(y as int)),
    ensures
        run(m, inputs.take(j)) matches PhaseModel::Playing { plane, .. } && plane is Some,
    decreases j,
{
    if j == 0 {
        assert(inputs.take(0) =~= Seq::<TickInput>::empty());
    } else {
        lemma_playing_in_band(m, inputs, j - 1);
        lemma_run_take_step(m, inputs, j - 1);
        assert(!(inputs[j - 1].body_y matches Some(y) && out_of_band(y as int)));
    }
}

/// Play ends on the first tick whose reported body height reaches a terrain
/// band: the session is still in play on every tick before it, and over on
/// that tick.
pub proof fn lemma_game_over_on_first_crossing(m: PhaseModel, inputs: Seq<TickInput>, k: int)
    requires
        m matches PhaseModel::Playing { plane, .. } && plane is Some,
        0 <= k < inputs.len(),
        forall|i: int|
            0 <= i < k ==> !((#[trigger] inputs[i]).body_y matches Some(y) && out_of_band(y as int)),
        inputs[k].body_y matches Some(y) && out_of_band(y as int),
    ensures
        forall|j: int| 0 <= j <= k ==> #[trigger] run(m, inputs.take(j)) is Playing,
        run(m, inputs.take(k + 1)) == (PhaseModel::GameOver { frames: 0 }),
{
    assert forall|j: int| 0 <= j <= k implies #[trigger] run(m, inputs.take(j)) is Playing by {
        lemma_playing_in_band(m, inputs, j);
    }
    lemma_playing_in_band(m, inputs, k);
    lemma_run_take_step(m, inputs, k);
}

} // verus!
