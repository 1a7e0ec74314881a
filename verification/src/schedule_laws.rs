//! What holds of every training run, proved over the schedule's view.

use crate::schedule::{Event, Phase, ScheduleView, Step};
use vstd::prelude::*;

verus! {

/// The state of a run that was built for `limit` epochs and not yet started.
pub open spec fn idle(limit: nat) -> ScheduleView {
    ScheduleView { phase: Phase::Idle, epoch: 0, limit, in_flight: false }
}

/// `n` times: the worker asks, runs an epoch and reports it.
pub open spec fn rounds(n: nat) -> Seq<Event>
    decreases n,
{
    if n == 0 {
        Seq::empty()
    } else {
        rounds((n - 1) as nat).push(Event::Poll).push(Event::EpochDone)
    }
}

/// Running a sequence that ends in `event` is running the sequence before it
/// and then applying `event`.
pub proof fn lemma_run_push(s: ScheduleView, events: Seq<Event>, event: Event)
    ensures
        s.run(events.push(event)) == s.run(events).apply(event),
{
    assert(events.push(event).drop_last() =~= events);
}

/// No event leads out of the states that a run can reach.
pub proof fn lemma_apply_wf(s: ScheduleView, event: Event)
    requires
        s.wf(),
    ensures
        s.apply(event).wf(),
{
}

/// No sequence of events leads out of the states that a run can reach.
pub proof fn lemma_run_wf(s: ScheduleView, events: Seq<Event>)
    requires
        s.wf(),
    ensures
        s.run(events).wf(),
    decreases events.len(),
{
    if events.len() > 0 {
        lemma_run_wf(s, events.drop_last());
        lemma_apply_wf(s.run(events.drop_last()), events.last());
    }
}

/// The epoch counter never goes down, whatever happens: no pause, resume,
/// stop or report resets it. The limit of a run never changes.
pub proof fn lemma_epoch_never_decreases(s: ScheduleView, events: Seq<Event>)
    ensures
        s.run(events).epoch >= s.epoch,
        s.run(events).limit == s.limit,
    decreases events.len(),
{
    if events.len() > 0 {
        lemma_epoch_never_decreases(s, events.drop_last());
    }
}

/// Once a run is over and the worker is outside every epoch, nothing changes
/// any more: not the epoch counter, not the phase.
pub proof fn lemma_halted_is_final(s: ScheduleView, events: Seq<Event>)
    requires
        s.halted(),
    ensures
        s.run(events) == s,
    decreases events.len(),
{
    if events.len() > 0 {
        lemma_halted_is_final(s, events.drop_last());
    }
}

/// A run that is completed or stopped stays so: no command starts it again.
pub proof fn lemma_final_phase_stays(s: ScheduleView, events: Seq<Event>)
    requires
        s.wf(),
        s.phase == Phase::Completed || s.phase == Phase::Stopped,
    ensures
        s.run(events).phase == s.phase,
        s.run(events).answer() == Step::Exit,
    decreases events.len(),
{
    if events.len() > 0 {
        lemma_final_phase_stays(s, events.drop_last());
        lemma_run_wf(s, events.drop_last());
    }
}

/// A stop ends every run: the phase is final at once, and the run is halted
/// as soon as the epoch in flight, if there is one, has been reported. A
/// second stop changes nothing.
pub proof fn lemma_stop_ends_run(s: ScheduleView)
    requires
        s.wf(),
    ensures
        s.apply(Event::Stop).answer() == Step::Exit,
        !s.in_flight ==> s.apply(Event::Stop).halted(),
        s.apply(Event::Stop).apply(Event::EpochDone).halted(),
        s.apply(Event::Stop).apply(Event::EpochFailed).halted(),
        s.apply(Event::Stop).apply(Event::Stop) == s.apply(Event::Stop),
{
}

/// While a run is paused and no epoch is in flight, the epoch counter stays
/// as it is until the run is resumed: the worker is told to wait, and the
/// only way on without a resume is a stop.
pub proof fn lemma_paused_holds_epoch(s: ScheduleView, events: Seq<Event>)
    requires
        s.phase == Phase::Paused,
        !s.in_flight,
        forall|i: int| 0 <= i < events.len() ==> events[i] != Event::Resume,
    ensures
        s.run(events).epoch == s.epoch,
        !s.run(events).in_flight,
        s.run(events).phase == Phase::Paused || s.run(events).phase == Phase::Stopped,
        s.run(events).answer() != Step::RunEpoch,
    decreases events.len(),
{
    if events.len() > 0 {
        lemma_paused_holds_epoch(s, events.drop_last());
    }
}

/// An epoch that has been started and is not given up by the worker is
/// always counted, exactly once, whatever commands arrive while it runs.
pub proof fn lemma_started_epoch_is_counted(s: ScheduleView, commands: Seq<Event>)
    requires
        s.in_flight,
        forall|i: int|
            0 <= i < commands.len() ==> commands[i] != Event::EpochDone && commands[i]
                != Event::EpochFailed,
    ensures
        s.run(commands).in_flight,
        s.run(commands).epoch == s.epoch,
        s.run(commands).apply(Event::EpochDone).epoch == s.epoch + 1,
        !s.run(commands).apply(Event::EpochDone).in_flight,
    decreases commands.len(),
{
    if commands.len() > 0 {
        lemma_started_epoch_is_counted(s, commands.drop_last());
    }
}

/// While a run is running, the worker is told to run an epoch, and with its
/// report the epoch counter is one higher than before.
pub proof fn lemma_running_advances(s: ScheduleView)
    requires
        s.wf(),
        s.phase == Phase::Running,
    ensures
        s.answer() == Step::RunEpoch,
        s.apply(Event::Poll).in_flight,
        s.apply(Event::Poll).apply(Event::EpochDone).epoch == s.epoch + 1,
        s.apply(Event::Poll).apply(Event::EpochDone).epoch <= s.limit,
{
}

/// A paused run that is resumed goes on from the epoch at which it stood.
pub proof fn lemma_resume_continues(s: ScheduleView)
    requires
        s.wf(),
        s.phase == Phase::Paused,
    ensures
        s.apply(Event::Resume).phase == Phase::Running,
        s.apply(Event::Resume).epoch == s.epoch,
        s.apply(Event::Resume).answer() == Step::RunEpoch,
{
}

/// After `n` undisturbed rounds a started run of more than `n` epochs is
/// still running, with `n` epochs counted.
pub proof fn lemma_rounds_count(limit: nat, n: nat)
    requires
        n < limit <= u32::MAX,
    ensures
        idle(limit).apply(Event::Start).run(rounds(n)) == (ScheduleView {
            phase: Phase::Running,
            epoch: n,
            limit,
            in_flight: false,
        }),
    decreases n,
{
    let started = idle(limit).apply(Event::Start);
    if n > 0 {
        let before = rounds((n - 1) as nat);
        lemma_rounds_count(limit, (n - 1) as nat);
        lemma_run_push(started, before, Event::Poll);
        lemma_run_push(started, before.push(Event::Poll), Event::EpochDone);
    }
}

/// A run that nobody pauses or stops completes by itself: after as many
/// rounds as its limit says it is completed and halted, with exactly that
/// many epochs counted.
pub proof fn lemma_undisturbed_run_completes(limit: nat)
    requires
        limit <= u32::MAX,
    ensures
        idle(limit).apply(Event::Start).run(rounds(limit)) == (ScheduleView {
            phase: Phase::Completed,
            epoch: limit,
            limit,
            in_flight: false,
        }),
        idle(limit).apply(Event::Start).run(rounds(limit)).halted(),
{
    let started = idle(limit).apply(Event::Start);
    if limit > 0 {
        let before = rounds((limit - 1) as nat);
        lemma_rounds_count(limit, (limit - 1) as nat);
        lemma_run_push(started, before, Event::Poll);
        lemma_run_push(started, before.push(Event::Poll), Event::EpochDone);
    }
}

} // verus!
