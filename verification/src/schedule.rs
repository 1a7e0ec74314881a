//! The training schedule: what a background worker that trains epoch by epoch
//! may do next, and how the commands of a consumer (pause, resume, stop)
//! change that.
//!
//! The schedule holds no model and runs no thread. Whoever owns it keeps it
//! behind one lock, hands every command and every report of the worker to it,
//! and does what it answers. What is promised of a training run is stated
//! over the schedule's view, and proved of every sequence of events in
//! `schedule_laws`.

use vstd::prelude::*;

verus! {

/// Number of epochs after which a run completes by itself.
pub const EPOCH_LIMIT: u32 = 100;

/// Where a training run stands.
#[derive(Clone, Copy, Debug, PartialEq, Eq, Structural)]
pub enum Phase {
    /// Built, and the worker not yet released.
    Idle,
    /// The worker starts a new epoch whenever it asks.
    Running,
    /// The worker starts no new epoch until the run is resumed or stopped.
    Paused,
    /// The epoch limit was reached.
    Completed,
    /// The consumer ended the run.
    Stopped,
}

/// What happens to a schedule: the commands of its owner or consumer, and
/// the question and the reports of the worker.
#[derive(Clone, Copy, Debug, PartialEq, Eq, Structural)]
pub enum Event {
    Start,
    Pause,
    Resume,
    Stop,
    /// The worker asks, at the top of its loop, what to do next.
    Poll,
    /// The worker has finished the epoch that it was told to run.
    EpochDone,
    /// The worker had to give up the epoch that it was told to run.
    EpochFailed,
}

/// What the worker is told when it asks.
#[derive(Clone, Copy, Debug, PartialEq, Eq, Structural)]
pub enum Step {
    /// Take the model's lock, train one epoch, release it, report back.
    RunEpoch,
    /// Block until a command arrives, then ask again.
    Wait,
    /// Leave the loop.
    Exit,
}

/// The mathematical content of a schedule.
pub struct ScheduleView {
    pub phase: Phase,
    /// Epochs finished so far.
    pub epoch: nat,
    pub limit: nat,
    /// The worker is inside an epoch.
    pub in_flight: bool,
}

impl ScheduleView {
    /// The states that a run can reach.
    pub open spec fn wf(self) -> bool {
        &&& self.epoch <= self.limit
        &&& self.limit <= u32::MAX
        &&& self.in_flight ==> self.epoch < self.limit
        &&& match self.phase {
            Phase::Idle => self.epoch == 0 && !self.in_flight,
            Phase::Running | Phase::Paused => self.epoch < self.limit,
            Phase::Completed => self.epoch == self.limit && !self.in_flight,
            Phase::Stopped => true,
        }
    }

    /// The run is over and the worker is outside every epoch: what a caller
    /// of `stop` has once the worker has been joined.
    pub open spec fn halted(self) -> bool {
        (self.phase == Phase::Completed || self.phase == Phase::Stopped) && !self.in_flight
    }

    /// The state after one event.
    pub open spec fn apply(self, event: Event) -> ScheduleView {
        match event {
            Event::Start => if self.phase == Phase::Idle {
                ScheduleView {
                    phase: if self.limit == 0 {
                        Phase::Completed
                    } else {
                        Phase::Running
                    },
                    ..self
                }
            } else {
                self
            },
            Event::Pause => if self.phase == Phase::Running {
                ScheduleView { phase: Phase::Paused, ..self }
            } else {
                self
            },
            Event::Resume => if self.phase == Phase::Paused {
                ScheduleView { phase: Phase::Running, ..self }
            } else {
                self
            },
            Event::Stop => match self.phase {
                Phase::Idle | Phase::Running | Phase::Paused => ScheduleView {
                    phase: Phase::Stopped,
                    ..self
                },
                Phase::Completed | Phase::Stopped => self,
            },
            Event::Poll => if self.phase == Phase::Running {
                ScheduleView { in_flight: true, ..self }
            } else {
                self
            },
            Event::EpochDone => if self.in_flight {
                ScheduleView {
                    phase: if self.epoch + 1 == self.limit && (self.phase == Phase::Running
                        || self.phase == Phase::Paused) {
                        Phase::Completed
                    } else {
                        self.phase
                    },
                    epoch: self.epoch + 1,
                    limit: self.limit,
                    in_flight: false,
                }
            } else {
                self
            },
            Event::EpochFailed => if self.in_flight {
                ScheduleView { phase: Phase::Stopped, in_flight: false, ..self }
            } else {
                self
            },
        }
    }

    /// What the worker is told when it asks in this state.
    pub open spec fn answer(self) -> Step {
        match self.phase {
            Phase::Running => Step::RunEpoch,
            Phase::Idle | Phase::Paused => Step::Wait,
            Phase::Completed | Phase::Stopped => Step::Exit,
        }
    }

    /// The state after a sequence of events, first to last.
    pub open spec fn run(self, events: Seq<Event>) -> ScheduleView
        decreases events.len(),
    {
        if events.len() == 0 {
            self
        } else {
            self.run(events.drop_last()).apply(events.last())
        }
    }
}

/// The schedule of one training run.
#[derive(Clone, Copy, Debug)]
pub struct TrainingSchedule {
    phase: Phase,
    epoch: u32,
    limit: u32,
    in_flight: bool,
}

impl View for TrainingSchedule {
    type V = ScheduleView;

    closed spec fn view(&self) -> ScheduleView {
        ScheduleView {
            phase: self.phase,
            epoch: self.epoch as nat,
            limit: self.limit as nat,
            in_flight: self.in_flight,
        }
    }
}

impl TrainingSchedule {
    #[verifier::type_invariant]
    closed spec fn inv(self) -> bool {
        self@.wf()
    }

    /// An idle schedule for a run of at most `limit` epochs.
    pub fn new(limit: u32) -> (schedule: Self)
        ensures
            schedule@ == (ScheduleView {
                phase: Phase::Idle,
                epoch: 0,
                limit: limit as nat,
                in_flight: false,
            }),
            schedule@.wf(),
    {
        TrainingSchedule { phase: Phase::Idle, epoch: 0, limit, in_flight: false }
    }

    /// Releases the worker: an idle run becomes a running one (a completed
    /// one where the limit is zero). Any other run is left as it is.
    pub fn start(&mut self)
        ensures
            final(self)@ == old(self)@.apply(Event::Start),
            final(self)@.wf(),
    {
        proof {
            use_type_invariant(&*self);
        }
        if self.phase == Phase::Idle {
            let phase = if self.limit == 0 {
                Phase::Completed
            } else {
                Phase::Running
            };
            *self = TrainingSchedule { phase, ..*self };
        }
    }

    /// A running run becomes paused; the epoch in flight, if any, still
    /// finishes and is counted. Any other run is left as it is.
    pub fn pause(&mut self)
        ensures
            final(self)@ == old(self)@.apply(Event::Pause),
            final(self)@.epoch == old(self)@.epoch,
            final(self)@.wf(),
    {
        proof {
            use_type_invariant(&*self);
        }
        if self.phase == Phase::Running {
            *self = TrainingSchedule { phase: Phase::Paused, ..*self };
        }
    }

    /// A paused run becomes running again, with the epochs counted so far.
    /// Any other run is left as it is.
    pub fn resume(&mut self)
        ensures
            final(self)@ == old(self)@.apply(Event::Resume),
            final(self)@.epoch == old(self)@.epoch,
            final(self)@.wf(),
    {
        proof {
            use_type_invariant(&*self);
        }
        if self.phase == Phase::Paused {
            *self = TrainingSchedule { phase: Phase::Running, ..*self };
        }
    }

    /// Pauses a running run and resumes a paused one. Returns whether the
    /// run is running afterwards.
    pub fn toggle_pause(&mut self) -> (running: bool)
        ensures
            final(self)@ == old(self)@.apply(
                if old(self)@.phase == Phase::Paused {
                    Event::Resume
                } else {
                    Event::Pause
                },
            ),
            running == (final(self)@.phase == Phase::Running),
            final(self)@.wf(),
    {
        if self.phase == Phase::Paused {
            self.resume();
        } else {
            self.pause();
        }
        self.phase == Phase::Running
    }

    /// Ends a run that is idle, running or paused; the epoch in flight, if
    /// any, still finishes and is counted. A completed or stopped run is left
    /// as it is.
    pub fn stop(&mut self)
        ensures
            final(self)@ == old(self)@.apply(Event::Stop),
            final(self)@.epoch == old(self)@.epoch,
            final(self)@.phase == Phase::Completed || final(self)@.phase == Phase::Stopped,
            final(self)@.wf(),
    {
        proof {
            use_type_invariant(&*self);
        }
        match self.phase {
            Phase::Idle | Phase::Running | Phase::Paused => {
                *self = TrainingSchedule { phase: Phase::Stopped, ..*self };
            },
            Phase::Completed | Phase::Stopped => {},
        }
    }

    /// The worker asks what to do next. Told to run an epoch, it is inside
    /// that epoch from now on, until it reports the end of it.
    pub fn next_step(&mut self) -> (step: Step)
        ensures
            final(self)@ == old(self)@.apply(Event::Poll),
            step == old(self)@.answer(),
            final(self)@.wf(),
    {
        proof {
            use_type_invariant(&*self);
        }
        match self.phase {
            Phase::Running => {
                *self = TrainingSchedule { in_flight: true, ..*self };
                Step::RunEpoch
            },
            Phase::Idle | Phase::Paused => Step::Wait,
            Phase::Completed | Phase::Stopped => Step::Exit,
        }
    }

    /// The worker reports the end of the epoch that it was told to run: the
    /// epoch is counted, and a run that has reached its limit without being
    /// stopped is completed. Outside an epoch nothing changes. Returns the
    /// number of epochs finished so far.
    pub fn epoch_finished(&mut self) -> (epoch: u32)
        ensures
            final(self)@ == old(self)@.apply(Event::EpochDone),
            epoch == final(self)@.epoch,
            final(self)@.wf(),
    {
        proof {
            use_type_invariant(&*self);
        }
        if self.in_flight {
            let epoch: u32 = self.epoch + 1;
            let phase = if epoch == self.limit && (self.phase == Phase::Running || self.phase
                == Phase::Paused) {
                Phase::Completed
            } else {
                self.phase
            };
            *self = TrainingSchedule { phase, epoch, limit: self.limit, in_flight: false };
        }
        self.epoch
    }

    /// The worker reports that it had to give up the epoch that it was told
    /// to run: the epoch is not counted and the run is stopped. Outside an
    /// epoch nothing changes.
    pub fn epoch_failed(&mut self)
        ensures
            final(self)@ == old(self)@.apply(Event::EpochFailed),
            final(self)@.epoch == old(self)@.epoch,
            final(self)@.wf(),
    {
        proof {
            use_type_invariant(&*self);
        }
        if self.in_flight {
            *self = TrainingSchedule { phase: Phase::Stopped, in_flight: false, ..*self };
        }
    }

    /// Epochs finished so far.
    pub fn epoch(&self) -> (epoch: u32)
        ensures
            epoch == self@.epoch,
    {
        self.epoch
    }

    /// The number of epochs at which the run completes.
    pub fn epoch_limit(&self) -> (limit: u32)
        ensures
            limit == self@.limit,
    {
        self.limit
    }

    pub fn phase(&self) -> (phase: Phase)
        ensures
            phase == self@.phase,
    {
        self.phase
    }

    /// Whether the worker starts a new epoch when it next asks.
    pub fn is_running(&self) -> (running: bool)
        ensures
            running == (self@.phase == Phase::Running),
    {
        self.phase == Phase::Running
    }

    /// Whether the run is over and the worker outside every epoch.
    pub fn is_halted(&self) -> (halted: bool)
        ensures
            halted == self@.halted(),
    {
        (self.phase == Phase::Completed || self.phase == Phase::Stopped) && !self.in_flight
    }
}

/// Number of epochs between two snapshots that a consumer takes of the model.
pub const UPDATE_INTERVAL: u32 = 10;

/// When a consumer that polls the epoch counter takes a fresh snapshot of the
/// model: whenever the counter has moved on by the interval since the last
/// snapshot.
#[derive(Clone, Copy, Debug, PartialEq, Eq, Structural)]
pub struct SnapshotCadence {
    /// The epoch counter as it stood at the last snapshot.
    pub last_update_epoch: u32,
    pub update_interval: u32,
}

impl SnapshotCadence {
    pub fn new(update_interval: u32) -> (cadence: Self)
        ensures
            cadence == (SnapshotCadence { last_update_epoch: 0, update_interval }),
    {
        SnapshotCadence { last_update_epoch: 0, update_interval }
    }

    /// A snapshot is due at the given epoch counter.
    pub open spec fn due(self, current_epoch: u32) -> bool {
        current_epoch >= self.last_update_epoch + self.update_interval
    }

    /// Takes note of the epoch counter. Returns whether a snapshot is due,
    /// and if so counts the next interval from this epoch on.
    pub fn observe(&mut self, current_epoch: u32) -> (refresh: bool)
        ensures
            refresh == old(self).due(current_epoch),
            final(self).update_interval == old(self).update_interval,
            final(self).last_update_epoch == if refresh {
                current_epoch
            } else {
                old(self).last_update_epoch
            },
    {
        let threshold: u64 = self.last_update_epoch as u64 + self.update_interval as u64;
        if current_epoch as u64 >= threshold {
            self.last_update_epoch = current_epoch;
            true
        } else {
            false
        }
    }
}

} // verus!
