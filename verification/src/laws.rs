//! Laws of the state machine that relate several transitions: what holds of
//! every shuffle, of whole runs of clock advances, and of repeated keys.

use vstd::prelude::*;

use crate::machine::{
    App, State, KeyInput, ANSWER_COUNT, ANIMATION_DURATION_MS, ANIMATION_STEP_MS, ANSWER_FLASH_MS,
    MAX_INSTANT_MS, ask_transition, tick_transition, toggled, with_help, key_quits, key_transition,
    is_char_of,
};

verus! {

/// A shuffle step moves the light: taken strictly before the end deadline,
/// it keeps the machine animating toward the same answer, and the freshly
/// lit cell is on the face and differs from the cell lit before.
pub proof fn lemma_shuffle_moves(app: App, now: u64, r: usize)
    requires
        app.wf(),
        r < ANSWER_COUNT - 1,
        app.state matches State::Animating { end_at, next_switch, .. }
            && now < end_at && now >= next_switch,
    ensures
        tick_transition(app, now, r).state matches State::Animating {
            final_index,
            current_index,
            ..
        } && final_index == app.state->Animating_final_index
            && current_index != app.state->Animating_current_index
            && current_index < ANSWER_COUNT,
{
}

/// Right after an ask the two deadlines are ordered: the animation ends at
/// `now + ANIMATION_DURATION_MS`, the first shuffle is due at `now`, and so
/// the end never precedes the next switch nor the creation instant.
pub proof fn lemma_ask_deadlines(app: App, now: u64, final_index: usize, current_index: usize)
    requires
        now <= MAX_INSTANT_MS,
    ensures
        ask_transition(app, now, final_index, current_index).state matches State::Animating {
            end_at,
            next_switch,
            ..
        } && next_switch == now && end_at == now + ANIMATION_DURATION_MS
            && end_at >= next_switch >= now,
{
}

/// A shuffle step taken at least one step length before the end keeps the
/// end deadline of its ask and keeps the deadlines ordered: the end never
/// precedes the rescheduled switch, which never precedes the step instant.
pub proof fn lemma_step_deadlines(app: App, now: u64, r: usize)
    requires
        now <= MAX_INSTANT_MS,
        app.state matches State::Animating { end_at, next_switch, .. }
            && next_switch <= now && now + ANIMATION_STEP_MS <= end_at,
    ensures
        tick_transition(app, now, r).state matches State::Animating { end_at, next_switch, .. }
            && end_at == app.state->Animating_end_at
            && end_at >= next_switch >= now,
{
}

/// The record after a run of clock advances, each paired with the draw a
/// shuffle step at that advance would use.
pub open spec fn ticks_from(app: App, times: Seq<u64>, draws: Seq<usize>) -> App
    decreases times.len(),
{
    if times.len() == 0 {
        app
    } else {
        ticks_from(
            tick_transition(app, times.first(), draws.first()),
            times.drop_first(),
            draws.drop_first(),
        )
    }
}

/// While every advance stays short of the end deadline, clock advances keep
/// the machine animating toward the answer drawn at ask time, with the end
/// deadline, the help flag and the remembered answer untouched.
pub proof fn lemma_animation_persists(app: App, times: Seq<u64>, draws: Seq<usize>)
    requires
        app.state is Animating,
        times.len() == draws.len(),
        forall|i: int| 0 <= i < times.len() ==> times[i] < app.state->Animating_end_at,
    ensures
        ticks_from(app, times, draws).state matches State::Animating { final_index, end_at, .. }
            && final_index == app.state->Animating_final_index
            && end_at == app.state->Animating_end_at,
        ticks_from(app, times, draws).last_answer == app.last_answer,
        ticks_from(app, times, draws).help_visible == app.help_visible,
    decreases times.len(),
{
    if times.len() > 0 {
        let app1 = tick_transition(app, times.first(), draws.first());
        assert(times[0] < app.state->Animating_end_at);
        assert(forall|i: int|
            0 <= i < times.drop_first().len() ==> times.drop_first()[i] == times[i + 1]);
        lemma_animation_persists(app1, times.drop_first(), draws.drop_first());
    }
}

/// Answer visibility: if the only inputs after an ask are clock advances,
/// the animation settles exactly at the first advance that reaches the end
/// deadline. That advance yields `Showing` of the answer drawn at ask time,
/// remembers it, and schedules the flash to clear `ANSWER_FLASH_MS` later.
pub proof fn lemma_answer_visibility(app: App, times: Seq<u64>, draws: Seq<usize>, k: int)
    requires
        app.state is Animating,
        times.len() == draws.len(),
        0 <= k < times.len(),
        forall|i: int| 0 <= i < k ==> times[i] < app.state->Animating_end_at,
        times[k] >= app.state->Animating_end_at,
        times[k] <= MAX_INSTANT_MS,
    ensures
        ticks_from(app, times.take(k + 1), draws.take(k + 1)) == (App {
            state: State::Showing {
                index: app.state->Animating_final_index,
                until: (times[k] + ANSWER_FLASH_MS) as u64,
            },
            help_visible: app.help_visible,
            last_answer: Some(app.state->Animating_final_index),
        }),
    decreases k,
{
    if k == 0 {
        let app1 = tick_transition(app, times[0], draws[0]);
        let t1 = times.take(1);
        let d1 = draws.take(1);
        assert(t1.first() == times[0]);
        assert(d1.first() == draws[0]);
        assert(t1.drop_first() =~= Seq::<u64>::empty());
        assert(d1.drop_first() =~= Seq::<usize>::empty());
        assert(ticks_from(app1, t1.drop_first(), d1.drop_first()) == app1);
        assert(ticks_from(app, t1, d1) == app1);
    } else {
        let app1 = tick_transition(app, times.first(), draws.first());
        assert(times[0] < app.state->Animating_end_at);
        assert(app1.state is Animating
            && app1.state->Animating_final_index == app.state->Animating_final_index
            && app1.state->Animating_end_at == app.state->Animating_end_at
            && app1.help_visible == app.help_visible);
        let times1 = times.drop_first();
        let draws1 = draws.drop_first();
        assert(forall|i: int| 0 <= i < times1.len() ==> times1[i] == times[i + 1]);
        lemma_answer_visibility(app1, times1, draws1, k - 1);
        assert(times.take(k + 1).drop_first() =~= times1.take(k));
        assert(draws.take(k + 1).drop_first() =~= draws1.take(k));
        assert(times.take(k + 1).first() == times[0]);
        assert(draws.take(k + 1).first() == draws[0]);
    }
}

/// Once the machine is no longer animating, clock advances alone never
/// start another animation, never enter a new `Showing` phase, and keep the
/// remembered answer.
pub proof fn lemma_no_restart(app: App, times: Seq<u64>, draws: Seq<usize>)
    requires
        app.state !is Animating,
        times.len() == draws.len(),
    ensures
        ticks_from(app, times, draws).state !is Animating,
        ticks_from(app, times, draws).last_answer == app.last_answer,
        ticks_from(app, times, draws).state is Showing ==> ticks_from(app, times, draws).state
            == app.state,
    decreases times.len(),
{
    if times.len() > 0 {
        let app1 = tick_transition(app, times.first(), draws.first());
        lemma_no_restart(app1, times.drop_first(), draws.drop_first());
    }
}

/// The remembered answer changes under a clock advance only when that
/// advance settles an animation, and then it becomes the settled answer.
pub proof fn lemma_last_answer_tick(app: App, now: u64, r: usize)
    ensures
        tick_transition(app, now, r).last_answer != app.last_answer ==> app.state is Animating
            && now >= app.state->Animating_end_at
            && tick_transition(app, now, r).state is Showing
            && tick_transition(app, now, r).last_answer
                == Some(app.state->Animating_final_index),
{
}

/// No key that stops short of an ask touches the presentation mode or the
/// remembered answer: keys move only the help flag.
pub proof fn lemma_key_keeps_answer(app: App, key: KeyInput)
    ensures
        key_transition(app, key).last_answer == app.last_answer,
        key_transition(app, key).state == app.state,
{
}

/// Help independence: toggling the overlay leaves the presentation mode and
/// the remembered answer exactly as they were.
pub proof fn lemma_help_independence(app: App)
    ensures
        toggled(app).state == app.state,
        toggled(app).last_answer == app.last_answer,
{
}

/// Quit precedence: a pressed `Ctrl+C` quits in every state, overlay up or
/// not, and changes nothing on its way out.
pub proof fn lemma_quit_precedence(app: App, key: KeyInput)
    requires
        !key.release,
        key.ctrl,
        is_char_of(key.code, 'c', 'C'),
    ensures
        key_quits(app, key),
        key_transition(app, key) == app,
{
}

/// Two escapes from a state with the overlay up do what one escape from the
/// overlay-free state does: the first only clears the overlay and does not
/// quit; the second quits and leaves the record as that single escape would.
pub proof fn lemma_esc_twice(app: App, key: KeyInput)
    requires
        app.help_visible,
        !key.release,
        key.code is Esc,
    ensures
        !key_quits(app, key),
        key_transition(app, key) == with_help(app, false),
        key_quits(key_transition(app, key), key),
        key_quits(with_help(app, false), key),
        key_transition(key_transition(app, key), key) == key_transition(with_help(app, false), key),
        key_transition(with_help(app, false), key) == with_help(app, false),
{
}

/// Toggling help twice is the identity on the whole record.
pub proof fn lemma_toggle_involution(app: App)
    ensures
        toggled(toggled(app)) == app,
{
}

} // verus!
