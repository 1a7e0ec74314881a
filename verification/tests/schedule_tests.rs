use nn_trainer::schedule::{
    Phase, SnapshotCadence, Step, TrainingSchedule, EPOCH_LIMIT, UPDATE_INTERVAL,
};

fn started(limit: u32) -> TrainingSchedule {
    let mut schedule = TrainingSchedule::new(limit);
    schedule.start();
    schedule
}

fn run_epochs(schedule: &mut TrainingSchedule, n: u32) {
    for _ in 0..n {
        assert_eq!(schedule.next_step(), Step::RunEpoch);
        schedule.epoch_finished();
    }
}

#[test]
fn new_schedule_is_idle() {
    let mut schedule = TrainingSchedule::new(EPOCH_LIMIT);
    assert_eq!(schedule.phase(), Phase::Idle);
    assert_eq!(schedule.epoch(), 0);
    assert_eq!(schedule.epoch_limit(), 100);
    assert!(!schedule.is_running());
    assert!(!schedule.is_halted());
    assert_eq!(schedule.next_step(), Step::Wait);
    assert_eq!(schedule.epoch_finished(), 0);
    assert_eq!(schedule.phase(), Phase::Idle);
}

#[test]
fn start_makes_it_running() {
    let schedule = started(EPOCH_LIMIT);
    assert_eq!(schedule.phase(), Phase::Running);
    assert!(schedule.is_running());
    assert_eq!(schedule.epoch(), 0);
}

#[test]
fn start_with_no_epochs_completes_at_once() {
    let mut schedule = started(0);
    assert_eq!(schedule.phase(), Phase::Completed);
    assert!(schedule.is_halted());
    assert_eq!(schedule.next_step(), Step::Exit);
    assert_eq!(schedule.epoch(), 0);
}

#[test]
fn start_twice_changes_nothing() {
    let mut schedule = started(3);
    run_epochs(&mut schedule, 1);
    schedule.pause();
    schedule.start();
    assert_eq!(schedule.phase(), Phase::Paused);
    assert_eq!(schedule.epoch(), 1);
}

#[test]
fn run_to_completion_counts_one_hundred_epochs() {
    let mut schedule = started(EPOCH_LIMIT);
    let mut epochs_run = 0;
    loop {
        match schedule.next_step() {
            Step::RunEpoch => {
                epochs_run += 1;
                assert_eq!(schedule.epoch_finished(), epochs_run);
            }
            Step::Wait => panic!("nobody paused the run"),
            Step::Exit => break,
        }
    }
    assert_eq!(epochs_run, 100);
    assert_eq!(schedule.epoch(), 100);
    assert_eq!(schedule.phase(), Phase::Completed);
    assert!(!schedule.is_running());
    assert!(schedule.is_halted());
}

#[test]
fn epoch_counter_rises_by_one_while_running() {
    let mut schedule = started(EPOCH_LIMIT);
    for expected in 1..=20u32 {
        let before = schedule.epoch();
        assert_eq!(schedule.next_step(), Step::RunEpoch);
        assert_eq!(schedule.epoch(), before);
        assert_eq!(schedule.epoch_finished(), expected);
        assert_eq!(schedule.epoch(), before + 1);
        assert_eq!(schedule.phase(), Phase::Running);
    }
}

#[test]
fn paused_run_starts_no_epoch() {
    let mut schedule = started(EPOCH_LIMIT);
    run_epochs(&mut schedule, 7);
    schedule.pause();
    assert_eq!(schedule.phase(), Phase::Paused);
    for _ in 0..50 {
        assert_eq!(schedule.next_step(), Step::Wait);
        assert_eq!(schedule.epoch_finished(), 7);
        schedule.pause();
        assert_eq!(schedule.epoch(), 7);
        assert_eq!(schedule.phase(), Phase::Paused);
    }
}

#[test]
fn resume_continues_from_the_epoch_at_pause() {
    let mut schedule = started(EPOCH_LIMIT);
    run_epochs(&mut schedule, 7);
    schedule.pause();
    let at_pause = schedule.epoch();
    assert_eq!(schedule.next_step(), Step::Wait);
    schedule.resume();
    assert_eq!(schedule.phase(), Phase::Running);
    assert_eq!(schedule.epoch(), at_pause);
    run_epochs(&mut schedule, 1);
    assert!(schedule.epoch() > at_pause);
    assert_eq!(schedule.epoch(), 8);
}

#[test]
fn pause_during_an_epoch_lets_it_finish() {
    let mut schedule = started(EPOCH_LIMIT);
    run_epochs(&mut schedule, 2);
    assert_eq!(schedule.next_step(), Step::RunEpoch);
    schedule.pause();
    assert_eq!(schedule.epoch(), 2);
    assert_eq!(schedule.epoch_finished(), 3);
    assert_eq!(schedule.phase(), Phase::Paused);
    assert_eq!(schedule.next_step(), Step::Wait);
    assert_eq!(schedule.epoch(), 3);
}

#[test]
fn resume_of_a_running_run_changes_nothing() {
    let mut schedule = started(EPOCH_LIMIT);
    run_epochs(&mut schedule, 2);
    schedule.resume();
    assert_eq!(schedule.phase(), Phase::Running);
    assert_eq!(schedule.epoch(), 2);
}

#[test]
fn toggle_pauses_and_resumes() {
    let mut schedule = started(EPOCH_LIMIT);
    assert!(!schedule.toggle_pause());
    assert_eq!(schedule.phase(), Phase::Paused);
    assert!(schedule.toggle_pause());
    assert_eq!(schedule.phase(), Phase::Running);
    schedule.stop();
    assert!(!schedule.toggle_pause());
    assert_eq!(schedule.phase(), Phase::Stopped);
}

#[test]
fn nothing_moves_after_stop() {
    let mut schedule = started(EPOCH_LIMIT);
    run_epochs(&mut schedule, 12);
    schedule.stop();
    assert_eq!(schedule.phase(), Phase::Stopped);
    assert!(schedule.is_halted());
    for _ in 0..50 {
        assert_eq!(schedule.next_step(), Step::Exit);
        schedule.epoch_finished();
        schedule.resume();
        schedule.pause();
        schedule.start();
        schedule.stop();
        assert_eq!(schedule.epoch(), 12);
        assert_eq!(schedule.phase(), Phase::Stopped);
        assert!(schedule.is_halted());
    }
}

#[test]
fn stop_during_an_epoch_halts_when_it_is_reported() {
    let mut schedule = started(EPOCH_LIMIT);
    run_epochs(&mut schedule, 4);
    assert_eq!(schedule.next_step(), Step::RunEpoch);
    schedule.stop();
    assert_eq!(schedule.phase(), Phase::Stopped);
    assert!(!schedule.is_halted());
    assert_eq!(schedule.epoch_finished(), 5);
    assert!(schedule.is_halted());
    assert_eq!(schedule.next_step(), Step::Exit);
    assert_eq!(schedule.epoch_finished(), 5);
}

#[test]
fn stop_during_the_last_epoch_stays_stopped() {
    let mut schedule = started(2);
    run_epochs(&mut schedule, 1);
    assert_eq!(schedule.next_step(), Step::RunEpoch);
    schedule.stop();
    assert_eq!(schedule.epoch_finished(), 2);
    assert_eq!(schedule.phase(), Phase::Stopped);
}

#[test]
fn pause_during_the_last_epoch_completes() {
    let mut schedule = started(2);
    run_epochs(&mut schedule, 1);
    assert_eq!(schedule.next_step(), Step::RunEpoch);
    schedule.pause();
    assert_eq!(schedule.epoch_finished(), 2);
    assert_eq!(schedule.phase(), Phase::Completed);
    assert_eq!(schedule.next_step(), Step::Exit);
}

#[test]
fn stop_is_idempotent() {
    let mut once = started(EPOCH_LIMIT);
    run_epochs(&mut once, 3);
    let mut twice = once;
    once.stop();
    twice.stop();
    twice.stop();
    assert_eq!(once.phase(), twice.phase());
    assert_eq!(once.epoch(), twice.epoch());
    assert_eq!(once.is_halted(), twice.is_halted());
}

#[test]
fn stop_of_an_idle_or_paused_run() {
    let mut idle = TrainingSchedule::new(5);
    idle.stop();
    assert_eq!(idle.phase(), Phase::Stopped);
    idle.start();
    assert_eq!(idle.phase(), Phase::Stopped);
    let mut paused = started(5);
    paused.pause();
    paused.stop();
    assert_eq!(paused.phase(), Phase::Stopped);
    paused.resume();
    assert_eq!(paused.phase(), Phase::Stopped);
}

#[test]
fn stop_after_completion_keeps_it_completed() {
    let mut schedule = started(3);
    run_epochs(&mut schedule, 3);
    assert_eq!(schedule.phase(), Phase::Completed);
    schedule.stop();
    assert_eq!(schedule.phase(), Phase::Completed);
    assert_eq!(schedule.epoch(), 3);
}

#[test]
fn snapshot_is_due_every_interval() {
    let mut cadence = SnapshotCadence::new(UPDATE_INTERVAL);
    assert_eq!(cadence.update_interval, 10);
    assert_eq!(cadence.last_update_epoch, 0);
    assert!(!cadence.observe(0));
    assert!(!cadence.observe(9));
    assert_eq!(cadence.last_update_epoch, 0);
    assert!(cadence.observe(10));
    assert_eq!(cadence.last_update_epoch, 10);
    assert!(!cadence.observe(19));
    assert!(cadence.observe(23));
    assert_eq!(cadence.last_update_epoch, 23);
    assert!(!cadence.observe(32));
    assert!(cadence.observe(33));
}

#[test]
fn snapshot_threshold_beyond_the_counter_range_is_never_due() {
    let mut cadence = SnapshotCadence { last_update_epoch: u32::MAX - 3, update_interval: 10 };
    assert!(!cadence.observe(u32::MAX));
    assert!(!cadence.observe(5));
    assert_eq!(cadence.last_update_epoch, u32::MAX - 3);
}

#[test]
fn zero_interval_is_always_due() {
    let mut cadence = SnapshotCadence::new(0);
    assert!(cadence.observe(0));
    assert!(cadence.observe(1));
    assert!(cadence.observe(1));
}

#[test]
fn failed_epoch_is_not_counted_and_stops_the_run() {
    let mut schedule = started(EPOCH_LIMIT);
    run_epochs(&mut schedule, 3);
    assert_eq!(schedule.next_step(), Step::RunEpoch);
    schedule.epoch_failed();
    assert_eq!(schedule.epoch(), 3);
    assert_eq!(schedule.phase(), Phase::Stopped);
    assert!(schedule.is_halted());
    assert_eq!(schedule.next_step(), Step::Exit);
    assert_eq!(schedule.epoch_finished(), 3);
}

#[test]
fn failure_report_outside_an_epoch_changes_nothing() {
    let mut schedule = started(EPOCH_LIMIT);
    run_epochs(&mut schedule, 3);
    schedule.epoch_failed();
    assert_eq!(schedule.phase(), Phase::Running);
    assert_eq!(schedule.epoch(), 3);
    schedule.pause();
    schedule.epoch_failed();
    assert_eq!(schedule.phase(), Phase::Paused);
}

#[test]
fn report_outside_an_epoch_is_not_counted() {
    let mut schedule = started(EPOCH_LIMIT);
    assert_eq!(schedule.epoch_finished(), 0);
    run_epochs(&mut schedule, 1);
    assert_eq!(schedule.epoch_finished(), 1);
    assert_eq!(schedule.epoch_finished(), 1);
    assert_eq!(schedule.epoch(), 1);
}

#[test]
fn asking_twice_starts_one_epoch() {
    let mut schedule = started(EPOCH_LIMIT);
    assert_eq!(schedule.next_step(), Step::RunEpoch);
    assert_eq!(schedule.next_step(), Step::RunEpoch);
    assert_eq!(schedule.epoch_finished(), 1);
    assert_eq!(schedule.epoch_finished(), 1);
}

#[test]
fn epoch_counter_never_goes_down() {
    let mut schedule = started(6);
    let mut last = schedule.epoch();
    for round in 0..40u32 {
        match round % 6 {
            0 | 3 => {
                schedule.next_step();
            }
            1 => schedule.pause(),
            2 | 5 => {
                schedule.epoch_finished();
            }
            _ => schedule.resume(),
        }
        assert!(schedule.epoch() >= last);
        assert!(schedule.epoch() <= schedule.epoch_limit());
        last = schedule.epoch();
    }
    assert_eq!(schedule.epoch(), 6);
    assert_eq!(schedule.phase(), Phase::Completed);
}
