//! Laws of the cycle, proved of the model that the scheduler's contracts
//! are written over.

use vstd::prelude::*;
use crate::error::SchedulerError;
use crate::model::{SchedulerView, TimerView};
use crate::panel::{PanelEvent, PanelView};
use crate::phase::{MistPhase, SolenoidCommand};

verus! {

/// The scheduler after `readings` have been ticked in, first to last.
pub open spec fn run(s: SchedulerView, readings: Seq<nat>) -> SchedulerView
    decreases readings.len(),
{
    if readings.len() == 0 {
        s
    } else {
        run(s, readings.drop_last()).tick(readings.last())
    }
}

/// The reading that came before `readings[i]`, where `from` came before the
/// first.
pub open spec fn reading_before(from: nat, readings: Seq<nat>, i: int) -> nat {
    if i == 0 {
        from
    } else {
        readings[i - 1]
    }
}

/// The clock behind `readings` never went backwards and was read at least
/// every `step` milliseconds, beginning at `from`.
pub open spec fn paced(from: nat, readings: Seq<nat>, step: nat) -> bool {
    forall|i: int|
        0 <= i < readings.len() ==> reading_before(from, readings, i) <= #[trigger] readings[i]
            <= reading_before(from, readings, i) + step
}

/// What one reading `now` does to a running cycle. Either the phase goes
/// on and nothing is issued, the phase not having lasted its configured
/// length at `now`. Or the opposite phase begins at `now` and its command is
/// issued, and the phase that ended has lasted at least its configured
/// length and less than that length and `step` together.
pub open spec fn keeps_or_turns(before: SchedulerView, now: nat, step: nat) -> bool {
    let after = before.tick(now);
    let issued = before.tick_result(now);
    &&& after.config == before.config
    &&& before.timer matches TimerView::Running { phase, since }
    &&& since <= now
    &&& {
        ||| {
            &&& after.timer == before.timer
            &&& issued == Ok::<_, SchedulerError>(None::<SolenoidCommand>)
            &&& now - since < before.config.duration_of(phase)
        }
        ||| {
            &&& after.timer == (TimerView::Running { phase: phase.spec_opposite(), since: now })
            &&& issued == Ok::<_, SchedulerError>(Some(phase.spec_opposite().spec_command()))
            &&& before.config.duration_of(phase) <= now - since
            &&& now - since < before.config.duration_of(phase) + step
        }
    }
}

/// Every operation keeps a well-formed scheduler well-formed.
pub proof fn law_operations_keep_wf(s: SchedulerView, now: nat, d: nat)
    requires
        s.wf(),
    ensures
        s.start(now).wf(),
        s.stop().wf(),
        s.tick(now).wf(),
        s.set_on(d).wf(),
        s.set_off(d).wf(),
{
}

/// Starting twice is starting once: the second call changes nothing and
/// issues nothing, whatever the clock reads by then.
pub proof fn law_start_idempotent(s: SchedulerView, first: nat, second: nat)
    ensures
        s.start(first).start(second) == s.start(first),
        s.start(first).start_command() is None,
        s.start(first).running(),
{
}

/// From any state, `stop` leaves the timer off with no time remaining, and
/// a second `stop` changes nothing more.
pub proof fn law_stop_disables(s: SchedulerView, now: nat)
    ensures
        s.stop().timer is Disabled,
        s.stop().remaining(now) is None,
        s.stop().stop() == s.stop(),
        s.stop().config == s.config,
{
}

/// The time remaining is a natural number, so never below zero, and never
/// more than the configured length of the phase that is running, at any
/// reading of the clock. There is a time remaining exactly while the timer
/// runs.
pub proof fn law_remaining_bounded(s: SchedulerView, now: nat)
    ensures
        s.remaining(now) is Some <==> s.running(),
        s.timer matches TimerView::Running { phase, .. } ==> s.remaining(now).unwrap()
            <= s.config.duration_of(phase),
{
}

/// A reading that lies before the latest one is refused and changes nothing.
pub proof fn law_tick_refuses_regression(s: SchedulerView, now: nat)
    requires
        now < s.latest,
    ensures
        s.tick_result(now) == Err::<Option<SolenoidCommand>, _>(
            SchedulerError::NonMonotonicTime,
        ),
        s.tick(now) == s,
{
}

/// While the timer runs, a change of either duration to a positive value is
/// refused with `ConfigLocked` and changes nothing.
pub proof fn law_config_locked_while_running(s: SchedulerView, d: nat)
    requires
        s.running(),
        d > 0,
    ensures
        s.set_result(d) == Err::<(), _>(SchedulerError::ConfigLocked),
        s.set_on(d) == s,
        s.set_off(d) == s,
{
}

/// One reading of a running cycle, taken no more than `step` after the
/// latest, keeps the phase or turns it as `keeps_or_turns` says.
pub proof fn law_tick_keeps_or_turns(s: SchedulerView, now: nat, step: nat)
    requires
        s.wf(),
        s.running(),
        s.latest <= now <= s.latest + step,
    ensures
        keeps_or_turns(s, now, step),
        s.tick(now).wf(),
        s.tick(now).latest == now,
{
}

/// Ticking in a paced sequence of readings leaves a started cycle running,
/// well-formed, with its durations untouched and the last reading as its
/// latest.
proof fn lemma_run_state(s: SchedulerView, from: nat, readings: Seq<nat>, step: nat, n: int)
    requires
        s.wf(),
        s.running(),
        s.latest == from,
        paced(from, readings, step),
        0 <= n <= readings.len(),
    ensures
        run(s, readings.take(n)).wf(),
        run(s, readings.take(n)).running(),
        run(s, readings.take(n)).config == s.config,
        run(s, readings.take(n)).latest == reading_before(from, readings, n),
        n < readings.len() ==> run(s, readings.take(n + 1)) == run(s, readings.take(n)).tick(
            readings[n],
        ),
    decreases n,
{
    if n > 0 {
        lemma_run_state(s, from, readings, step, n - 1);
        assert(readings.take(n).drop_last() =~= readings.take(n - 1));
        law_tick_keeps_or_turns(run(s, readings.take(n - 1)), readings[n - 1], step);
    }
    if n < readings.len() {
        assert(readings.take(n + 1).drop_last() =~= readings.take(n));
    }
}

/// The cycle alternates. After `start` at `from`, with the clock then read
/// at least every `step` milliseconds and never going backwards, each
/// reading either keeps the phase or turns it into the opposite one, and
/// every phase that ends has lasted at least its configured length and less
/// than that length and one `step` together. Where the timer was off
/// before, the cycle begins idle at `from`.
pub proof fn law_cycle_alternates(s: SchedulerView, from: nat, readings: Seq<nat>, step: nat)
    requires
        s.wf(),
        paced(s.start(from).latest, readings, step),
    ensures
        !s.running() ==> run(s.start(from), readings.take(0)).timer == (TimerView::Running {
            phase: MistPhase::Idle,
            since: from,
        }),
        forall|i: int|
            0 <= i < readings.len() ==> {
                let before = #[trigger] run(s.start(from), readings.take(i));
                &&& run(s.start(from), readings.take(i + 1)) == before.tick(readings[i])
                &&& keeps_or_turns(before, readings[i], step)
            },
{
    let started = s.start(from);
    assert(readings.take(0) =~= Seq::<nat>::empty());
    assert forall|i: int| 0 <= i < readings.len() implies {
        let before = #[trigger] run(started, readings.take(i));
        &&& run(started, readings.take(i + 1)) == before.tick(readings[i])
        &&& keeps_or_turns(before, readings[i], step)
    } by {
        lemma_run_state(started, started.latest, readings, step, i);
        law_tick_keeps_or_turns(run(started, readings.take(i)), readings[i], step);
    }
}

/// An on-duration set while the timer is off is accepted and governs the
/// next cycle. After it is set to `d` and the timer started at `from`, each
/// idle phase ends at the first reading that finds the old off-duration
/// elapsed, and each misting phase at the first reading that finds `d`
/// elapsed.
pub proof fn law_on_duration_governs_next_cycle(
    s: SchedulerView,
    d: nat,
    from: nat,
    readings: Seq<nat>,
    step: nat,
)
    requires
        s.wf(),
        !s.running(),
        d > 0,
        paced(from, readings, step),
    ensures
        s.set_result(d) is Ok,
        s.set_on(d).config.on == d,
        s.set_on(d).config.off == s.config.off,
        s.set_on(d).timer == s.timer,
        forall|i: int|
            0 <= i < readings.len() ==> {
                let before = #[trigger] run(s.set_on(d).start(from), readings.take(i));
                let after = run(s.set_on(d).start(from), readings.take(i + 1));
                &&& before.timer matches TimerView::Running { phase, since }
                &&& since <= readings[i]
                &&& phase == MistPhase::Idle ==> (after.timer != before.timer <==> readings[i]
                    - since >= s.config.off)
                &&& phase == MistPhase::Misting ==> (after.timer != before.timer <==> readings[i]
                    - since >= d)
            },
{
    let started = s.set_on(d).start(from);
    assert forall|i: int| 0 <= i < readings.len() implies {
        let before = #[trigger] run(started, readings.take(i));
        let after = run(started, readings.take(i + 1));
        &&& before.timer matches TimerView::Running { phase, since }
        &&& since <= readings[i]
        &&& phase == MistPhase::Idle ==> (after.timer != before.timer <==> readings[i] - since
            >= s.config.off)
        &&& phase == MistPhase::Misting ==> (after.timer != before.timer <==> readings[i] - since
            >= d)
    } by {
        lemma_run_state(started, from, readings, step, i);
        law_tick_keeps_or_turns(run(started, readings.take(i)), readings[i], step);
    }
}

/// An off-duration set while the timer is off is accepted and governs the
/// next cycle in the same way: each idle phase ends at the first reading
/// that finds `d` elapsed, and each misting phase at the first reading that
/// finds the old on-duration elapsed.
pub proof fn law_off_duration_governs_next_cycle(
    s: SchedulerView,
    d: nat,
    from: nat,
    readings: Seq<nat>,
    step: nat,
)
    requires
        s.wf(),
        !s.running(),
        d > 0,
        paced(from, readings, step),
    ensures
        s.set_result(d) is Ok,
        s.set_off(d).config.off == d,
        s.set_off(d).config.on == s.config.on,
        s.set_off(d).timer == s.timer,
        forall|i: int|
            0 <= i < readings.len() ==> {
                let before = #[trigger] run(s.set_off(d).start(from), readings.take(i));
                let after = run(s.set_off(d).start(from), readings.take(i + 1));
                &&& before.timer matches TimerView::Running { phase, since }
                &&& since <= readings[i]
                &&& phase == MistPhase::Idle ==> (after.timer != before.timer <==> readings[i]
                    - since >= d)
                &&& phase == MistPhase::Misting ==> (after.timer != before.timer <==> readings[i]
                    - since >= s.config.on)
            },
{
    let started = s.set_off(d).start(from);
    assert forall|i: int| 0 <= i < readings.len() implies {
        let before = #[trigger] run(started, readings.take(i));
        let after = run(started, readings.take(i + 1));
        &&& before.timer matches TimerView::Running { phase, since }
        &&& since <= readings[i]
        &&& phase == MistPhase::Idle ==> (after.timer != before.timer <==> readings[i] - since
            >= d)
        &&& phase == MistPhase::Misting ==> (after.timer != before.timer <==> readings[i] - since
            >= s.config.on)
    } by {
        lemma_run_state(started, from, readings, step, i);
        law_tick_keeps_or_turns(run(started, readings.take(i)), readings[i], step);
    }
}

/// Every event keeps a well-formed panel well-formed: its durations never
/// leave the policy limits.
pub proof fn law_panel_keeps_policy(p: PanelView, event: PanelEvent, now: nat)
    requires
        p.wf(),
    ensures
        p.handle(event, now).wf(),
{
}

/// Only a confirmation turns a running timer off, and only one that
/// answers a press on "turn off". The command that goes out with it closes
/// the valve.
pub proof fn law_only_confirmation_stops(p: PanelView, event: PanelEvent, now: nat)
    requires
        p.scheduler.running(),
        !p.handle(event, now).scheduler.running(),
    ensures
        event == PanelEvent::TurnOffConfirmed,
        p.confirming,
        !p.handle(event, now).confirming,
        p.outcome(event, now) == Ok::<_, SchedulerError>(Some(SolenoidCommand::Deenergize)),
{
}

/// While the timer runs, no event changes the durations.
pub proof fn law_panel_locks_durations(p: PanelView, event: PanelEvent, now: nat)
    requires
        p.scheduler.running(),
    ensures
        p.handle(event, now).scheduler.config == p.scheduler.config,
{
}

} // verus!
