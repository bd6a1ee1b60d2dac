use scout::debounce::DebounceCounter;
use scout::port::{PortAction, PortState, Selector};
use scout::sampler::{
    sample_instant, BemfSample, EventSampler, PollSampler, SampleMailbox, SamplingWindow,
    ZeroCrossingSampler,
};
use scout::sequencer::{Config, ConfigError, Event, MotorState, Sequencer, Wait};
use scout::table::{
    check_table, CommutationStep, CommutationTable, Edge, Level, Phase, StepEntry, TableError,
};

const STEPS: [CommutationStep; 6] = [
    CommutationStep::Step1,
    CommutationStep::Step2,
    CommutationStep::Step3,
    CommutationStep::Step4,
    CommutationStep::Step5,
    CommutationStep::Step6,
];

const PHASES: [Phase; 3] = [Phase::A, Phase::B, Phase::C];

fn entry(high: Phase, low: Phase, floating: Phase, expected_edge: Edge) -> StepEntry {
    StepEntry { high, low, floating, expected_edge }
}

fn window() -> SamplingWindow {
    SamplingWindow::around_mid_duty(100, 10).unwrap()
}

fn started() -> (Sequencer, Vec<PortAction>) {
    Sequencer::start(CommutationTable::standard(), Config::tuned(), window()).unwrap()
}

fn running() -> Sequencer {
    let (mut sequencer, _) = started();
    for _ in 0..6 {
        sequencer.on_timer();
    }
    sequencer
}

fn reading(phase: Phase, counter: u16, level: Level) -> BemfSample {
    BemfSample { level, phase, counter }
}

#[test]
fn standard_table_rows() {
    let table = CommutationTable::standard();
    let rows = table.entries();
    assert_eq!(rows[0], entry(Phase::A, Phase::C, Phase::B, Edge::Falling));
    assert_eq!(rows[1], entry(Phase::A, Phase::B, Phase::C, Edge::Rising));
    assert_eq!(rows[2], entry(Phase::C, Phase::B, Phase::A, Edge::Falling));
    assert_eq!(rows[3], entry(Phase::C, Phase::A, Phase::B, Edge::Rising));
    assert_eq!(rows[4], entry(Phase::B, Phase::A, Phase::C, Edge::Falling));
    assert_eq!(rows[5], entry(Phase::B, Phase::C, Phase::A, Edge::Rising));
    for (i, step) in STEPS.iter().enumerate() {
        assert_eq!(table.entry(*step), rows[i]);
        assert_eq!(step.position(), i);
    }
}

#[test]
fn standard_table_meets_the_rotation_invariant() {
    let rows = CommutationTable::standard().entries();
    assert_eq!(check_table(&rows), Ok(()));
    for row in rows.iter() {
        assert_ne!(row.high, row.low);
        assert_ne!(row.low, row.floating);
        assert_ne!(row.high, row.floating);
        assert!(row.is_distinct());
    }
    for phase in PHASES.iter() {
        assert_eq!(rows.iter().filter(|r| r.high == *phase).count(), 2);
        assert_eq!(rows.iter().filter(|r| r.low == *phase).count(), 2);
        assert_eq!(rows.iter().filter(|r| r.floating == *phase).count(), 2);
    }
    for i in 0..6 {
        assert_eq!(rows[(i + 1) % 6].floating, rows[i].floating.next());
    }
}

#[test]
fn table_with_a_phase_in_two_roles_is_rejected() {
    let mut rows = CommutationTable::standard().entries();
    rows[2] = entry(Phase::C, Phase::C, Phase::A, Edge::Falling);
    assert_eq!(check_table(&rows), Err(TableError::PhaseConflict));
    assert_eq!(CommutationTable::new(rows).err(), Some(TableError::PhaseConflict));
}

#[test]
fn table_with_unbalanced_roles_is_rejected() {
    let mut rows = CommutationTable::standard().entries();
    // Step 2 drives A high and grounds B; swapping the two leaves every row
    // with three different roles but gives B three turns as high.
    rows[1] = entry(Phase::B, Phase::A, Phase::C, Edge::Rising);
    assert_eq!(check_table(&rows), Err(TableError::UnbalancedRoles));
    assert_eq!(CommutationTable::new(rows).err(), Some(TableError::UnbalancedRoles));
}

#[test]
fn table_with_broken_rotation_is_rejected() {
    let rows = CommutationTable::standard().entries();
    // The same rows in reverse order: balanced, but the floating phase goes
    // round the other way.
    let reversed = [rows[5], rows[4], rows[3], rows[2], rows[1], rows[0]];
    assert_eq!(check_table(&reversed), Err(TableError::BrokenRotation));
    assert_eq!(CommutationTable::new(reversed).err(), Some(TableError::BrokenRotation));
}

#[test]
fn valid_table_is_accepted_as_given() {
    let rows = CommutationTable::standard().entries();
    // The cycle may start at any step.
    let shifted = [rows[2], rows[3], rows[4], rows[5], rows[0], rows[1]];
    let table = CommutationTable::new(shifted).unwrap();
    assert_eq!(table.entries(), shifted);
    assert_eq!(table.entry(CommutationStep::Step1), rows[2]);
}

#[test]
fn steps_follow_each_other_and_wrap() {
    assert_eq!(CommutationStep::Step1.next(), CommutationStep::Step2);
    assert_eq!(CommutationStep::Step2.next(), CommutationStep::Step3);
    assert_eq!(CommutationStep::Step3.next(), CommutationStep::Step4);
    assert_eq!(CommutationStep::Step4.next(), CommutationStep::Step5);
    assert_eq!(CommutationStep::Step5.next(), CommutationStep::Step6);
    assert_eq!(CommutationStep::Step6.next(), CommutationStep::Step1);
    assert_eq!(Phase::A.next(), Phase::B);
    assert_eq!(Phase::B.next(), Phase::C);
    assert_eq!(Phase::C.next(), Phase::A);
}

#[test]
fn edges_match_their_levels() {
    assert!(Edge::Rising.matches(Level::High));
    assert!(!Edge::Rising.matches(Level::Low));
    assert!(Edge::Falling.matches(Level::Low));
    assert!(!Edge::Falling.matches(Level::High));
}

#[test]
fn energise_commands() {
    let (sequencer, actions) = started();
    assert_eq!(
        actions,
        vec![
            PortAction::MaskSampleInterrupt,
            PortAction::EnableHighSide(Phase::A),
            PortAction::SetLowSideHigh(Phase::C),
            PortAction::SelectComparator(Phase::B),
            PortAction::ClearMailbox,
            PortAction::UnmaskSampleInterrupt,
        ]
    );
    let mut port = PortState::new();
    port.apply_all(&actions);
    assert_eq!(port, sequencer.port());
    assert!(port.is_driving(&sequencer.entry()));
    assert_eq!(sequencer.step(), CommutationStep::Step1);
    assert_eq!(sequencer.state(), MotorState::Starting);
    assert_eq!(sequencer.next_wait(), Wait::Delay(2000));
}

#[test]
fn advance_commands_touch_only_the_side_that_changes_hands() {
    let (mut sequencer, _) = started();
    assert_eq!(
        sequencer.advance(),
        vec![
            PortAction::MaskSampleInterrupt,
            PortAction::SetLowSideLow(Phase::C),
            PortAction::SetLowSideHigh(Phase::B),
            PortAction::SelectComparator(Phase::C),
            PortAction::ClearMailbox,
            PortAction::UnmaskSampleInterrupt,
        ]
    );
    assert_eq!(
        sequencer.advance(),
        vec![
            PortAction::MaskSampleInterrupt,
            PortAction::DisableHighSide(Phase::A),
            PortAction::EnableHighSide(Phase::C),
            PortAction::SelectComparator(Phase::A),
            PortAction::ClearMailbox,
            PortAction::UnmaskSampleInterrupt,
        ]
    );
}

#[test]
fn no_double_drive_over_a_full_cycle() {
    let (mut sequencer, actions) = started();
    let mut port = PortState::new();
    for action in actions.iter() {
        port.apply(*action);
        assert!(port.is_safe());
        assert!(port.high.count_on() <= 1);
    }
    for _ in 0..12 {
        let actions = sequencer.advance();
        let disable = actions.iter().position(|a| matches!(a, PortAction::DisableHighSide(_)));
        let enable = actions.iter().position(|a| matches!(a, PortAction::EnableHighSide(_)));
        if let (Some(d), Some(e)) = (disable, enable) {
            assert!(d < e);
        }
        for action in actions.iter() {
            port.apply(*action);
            assert!(port.is_safe());
            assert!(port.high.count_on() <= 1);
            assert!(port.low.count_on() <= 1);
        }
        assert_eq!(port, sequencer.port());
        assert!(port.is_driving(&sequencer.entry()));
        assert_eq!(port.high.count_on(), 1);
        assert_eq!(port.low.count_on(), 1);
        assert_eq!(port.selector, Selector::Watching(sequencer.entry().floating));
    }
}

#[test]
fn switch_over_between_steps_that_change_both_sides() {
    let table = CommutationTable::standard();
    let from = table.entry(CommutationStep::Step1);
    let to = table.entry(CommutationStep::Step4);
    let mut port = PortState::new();
    port.energise(&from);
    let actions = port.switch_over(&from, &to);
    assert_eq!(
        actions,
        vec![
            PortAction::MaskSampleInterrupt,
            PortAction::DisableHighSide(Phase::A),
            PortAction::SetLowSideLow(Phase::C),
            PortAction::EnableHighSide(Phase::C),
            PortAction::SetLowSideHigh(Phase::A),
            PortAction::SelectComparator(Phase::B),
            PortAction::ClearMailbox,
            PortAction::UnmaskSampleInterrupt,
        ]
    );
    assert!(port.is_driving(&to));
}

#[test]
fn choosing_the_comparator_while_unmasked_is_unsafe() {
    let mut port = PortState::new();
    port.apply(PortAction::UnmaskSampleInterrupt);
    assert!(port.is_safe());
    port.apply(PortAction::SelectComparator(Phase::A));
    assert!(!port.is_safe());
}

#[test]
fn two_high_sides_are_unsafe() {
    let mut port = PortState::new();
    port.apply(PortAction::EnableHighSide(Phase::A));
    assert!(port.is_safe());
    port.apply(PortAction::EnableHighSide(Phase::B));
    assert!(!port.is_safe());
    assert_eq!(port.high.count_on(), 2);
    port.apply(PortAction::DisableHighSide(Phase::A));
    assert!(port.is_safe());
    port.apply(PortAction::SetLowSideHigh(Phase::B));
    assert!(!port.is_safe());
}

#[test]
fn debounce_rejection() {
    let mut detector = DebounceCounter::new(3).unwrap();
    let edge = Edge::Rising;
    assert!(!detector.observe(Level::High, edge));
    assert!(!detector.observe(Level::High, edge));
    assert_eq!(detector.count(), 2);
    assert!(!detector.observe(Level::Low, edge));
    assert_eq!(detector.count(), 0);
    assert!(!detector.observe(Level::High, edge));
    assert!(!detector.observe(Level::High, edge));
    assert!(detector.observe(Level::High, edge));
    assert_eq!(detector.count(), 3);
}

#[test]
fn debounce_commit() {
    let mut detector = DebounceCounter::new(3).unwrap();
    assert_eq!(detector.threshold(), 3);
    assert!(!detector.observe(Level::Low, Edge::Falling));
    assert_eq!(detector.count(), 1);
    assert!(!detector.observe(Level::Low, Edge::Falling));
    assert_eq!(detector.count(), 2);
    assert!(detector.observe(Level::Low, Edge::Falling));
}

#[test]
fn debounce_reset_and_saturation() {
    let mut detector = DebounceCounter::new(2).unwrap();
    assert!(!detector.observe(Level::High, Edge::Rising));
    detector.reset();
    assert_eq!(detector.count(), 0);
    assert!(!detector.observe(Level::High, Edge::Rising));
    assert!(detector.observe(Level::High, Edge::Rising));
    assert!(detector.observe(Level::High, Edge::Rising));
    assert_eq!(detector.count(), 2);
}

#[test]
fn debounce_threshold_of_one_and_zero() {
    assert!(DebounceCounter::new(0).is_none());
    let mut detector = DebounceCounter::new(1).unwrap();
    assert!(!detector.observe(Level::Low, Edge::Rising));
    assert!(detector.observe(Level::High, Edge::Rising));
}

#[test]
fn window_around_mid_duty() {
    let w = SamplingWindow::around_mid_duty(100, 10).unwrap();
    assert_eq!((w.min(), w.max()), (40, 60));
    let w = SamplingWindow::around_mid_duty(101, 0).unwrap();
    assert_eq!((w.min(), w.max()), (50, 50));
    let w = SamplingWindow::around_mid_duty(10, 100).unwrap();
    assert_eq!((w.min(), w.max()), (0, 9));
    let w = SamplingWindow::around_mid_duty(1, 5).unwrap();
    assert_eq!((w.min(), w.max()), (0, 0));
    let w = SamplingWindow::around_mid_duty(u16::MAX, u16::MAX).unwrap();
    assert_eq!((w.min(), w.max()), (0, u16::MAX - 1));
    assert!(SamplingWindow::around_mid_duty(0, 10).is_none());
    assert_eq!(sample_instant(100), 50);
    assert_eq!(sample_instant(7), 3);
    assert_eq!(sample_instant(0), 0);
}

#[test]
fn window_bounds() {
    assert!(SamplingWindow::new(5, 4).is_none());
    let w = SamplingWindow::new(4, 6).unwrap();
    assert!(!w.contains(3));
    assert!(w.contains(4));
    assert!(w.contains(5));
    assert!(w.contains(6));
    assert!(!w.contains(7));
}

#[test]
fn sampling_window_gating() {
    let event = EventSampler::for_duty(100, 10).unwrap();
    let poll = PollSampler::new(window());
    assert_eq!(event.compare_value(), 50);
    for counter in [0u16, 39, 61, 99, 100, u16::MAX] {
        assert_eq!(event.sample(Phase::B, counter, Level::Low), None);
        assert_eq!(poll.sample(Phase::B, counter, Level::Low), None);
        assert!(poll.must_spin(counter));
    }
    for counter in [40u16, 50, 60] {
        let expected = Some(reading(Phase::B, counter, Level::Low));
        assert_eq!(event.sample(Phase::B, counter, Level::Low), expected);
        assert_eq!(poll.sample(Phase::B, counter, Level::Low), expected);
        assert!(!poll.must_spin(counter));
    }
    assert!(EventSampler::new(window(), 39).is_none());
    assert!(EventSampler::for_duty(0, 3).is_none());
    assert_eq!(EventSampler::new(window(), 41).unwrap().compare_value(), 41);
}

#[test]
fn sample_outside_the_window_never_reaches_the_detector() {
    let mut sequencer = running();
    assert_eq!(sequencer.entry().floating, Phase::B);
    for _ in 0..10 {
        assert!(sequencer.on_sample(reading(Phase::B, 39, Level::Low)).is_empty());
        assert!(sequencer.on_sample(reading(Phase::B, 61, Level::Low)).is_empty());
    }
    assert_eq!(sequencer.debounce_count(), 0);
    assert_eq!(sequencer.step(), CommutationStep::Step1);
    assert!(sequencer.on_sample(reading(Phase::B, 40, Level::Low)).is_empty());
    assert_eq!(sequencer.debounce_count(), 1);
}

#[test]
fn sample_of_another_phase_never_reaches_the_detector() {
    let mut sequencer = running();
    for _ in 0..5 {
        assert!(sequencer.on_sample(reading(Phase::A, 50, Level::Low)).is_empty());
        assert!(sequencer.on_sample(reading(Phase::C, 50, Level::Low)).is_empty());
    }
    assert_eq!(sequencer.debounce_count(), 0);
    assert_eq!(sequencer.step(), CommutationStep::Step1);
}

#[test]
fn mailbox_holds_one_reading() {
    let mut mailbox = SampleMailbox::new();
    assert!(!mailbox.is_pending());
    assert_eq!(mailbox.take(), None);
    mailbox.signal(reading(Phase::A, 50, Level::Low));
    mailbox.signal(reading(Phase::A, 51, Level::High));
    assert!(mailbox.is_pending());
    assert_eq!(mailbox.take(), Some(reading(Phase::A, 51, Level::High)));
    assert_eq!(mailbox.take(), None);
    mailbox.signal(reading(Phase::B, 50, Level::Low));
    mailbox.reset();
    assert!(!mailbox.is_pending());
    assert_eq!(mailbox.take(), None);
}

#[test]
fn startup_to_running_transition() {
    let (mut sequencer, _) = started();
    let expected = [
        CommutationStep::Step2,
        CommutationStep::Step3,
        CommutationStep::Step4,
        CommutationStep::Step5,
        CommutationStep::Step6,
        CommutationStep::Step1,
    ];
    for (i, step) in expected.iter().enumerate() {
        assert_eq!(sequencer.state(), MotorState::Starting);
        assert_eq!(sequencer.next_wait(), Wait::Delay(2000));
        let actions = sequencer.on_timer();
        assert!(!actions.is_empty());
        assert_eq!(sequencer.step(), *step);
        if i < 5 {
            assert_eq!(sequencer.state(), MotorState::Starting);
        }
    }
    assert_eq!(sequencer.state(), MotorState::Running);
    assert_eq!(sequencer.next_wait(), Wait::Sample);
    for _ in 0..100 {
        assert!(sequencer.on_timer().is_empty());
        assert_eq!(sequencer.state(), MotorState::Running);
        assert_eq!(sequencer.step(), CommutationStep::Step1);
    }
    for _ in 0..20 {
        sequencer.advance();
        assert_eq!(sequencer.state(), MotorState::Running);
    }
}

#[test]
fn readings_are_ignored_during_the_ramp() {
    let (mut sequencer, _) = started();
    for _ in 0..5 {
        assert!(sequencer.on_sample(reading(Phase::B, 50, Level::Low)).is_empty());
    }
    assert_eq!(sequencer.debounce_count(), 0);
    assert_eq!(sequencer.step(), CommutationStep::Step1);
    assert_eq!(sequencer.state(), MotorState::Starting);
}

#[test]
fn end_to_end_scenario() {
    let mut sequencer = running();
    let table = CommutationTable::standard();
    assert_eq!(sequencer.step(), CommutationStep::Step1);
    assert_eq!(sequencer.entry(), table.entry(CommutationStep::Step1));
    let floating = sequencer.entry().floating;
    let mut port = sequencer.port();
    assert!(sequencer.on_sample(reading(floating, 50, Level::Low)).is_empty());
    assert!(sequencer.on_sample(reading(floating, 50, Level::Low)).is_empty());
    assert_eq!(sequencer.debounce_count(), 2);
    assert_eq!(sequencer.step(), CommutationStep::Step1);
    let actions = sequencer.on_sample(reading(floating, 50, Level::Low));
    assert!(!actions.is_empty());
    assert_eq!(sequencer.step(), CommutationStep::Step2);
    let step2 = sequencer.entry();
    assert_eq!((step2.high, step2.low, step2.floating), (Phase::A, Phase::B, Phase::C));
    assert_eq!(step2, table.entry(CommutationStep::Step2));
    assert_eq!(sequencer.debounce_count(), 0);
    port.apply_all(&actions);
    assert!(port.is_driving(&step2));
    assert_eq!(port, sequencer.port());
}

#[test]
fn mismatch_resets_progress_in_the_sequencer() {
    let mut sequencer = running();
    let low = reading(Phase::B, 50, Level::Low);
    let high = reading(Phase::B, 50, Level::High);
    assert!(sequencer.on_sample(low).is_empty());
    assert!(sequencer.on_sample(low).is_empty());
    assert!(sequencer.on_sample(high).is_empty());
    assert_eq!(sequencer.debounce_count(), 0);
    assert!(sequencer.on_sample(low).is_empty());
    assert!(sequencer.on_sample(low).is_empty());
    assert_eq!(sequencer.step(), CommutationStep::Step1);
    assert!(!sequencer.on_sample(low).is_empty());
    assert_eq!(sequencer.step(), CommutationStep::Step2);
    // Step 2 waits for a rising edge on phase C.
    let rising = reading(Phase::C, 50, Level::High);
    assert!(sequencer.on_sample(low).is_empty());
    assert!(sequencer.on_sample(rising).is_empty());
    assert!(sequencer.on_sample(rising).is_empty());
    assert!(!sequencer.on_sample(rising).is_empty());
    assert_eq!(sequencer.step(), CommutationStep::Step3);
}

#[test]
fn replay_of_a_whole_run() {
    let (mut sequencer, _) = started();
    let (mut stepwise, _) = started();
    let low = Event::Sample(reading(Phase::B, 50, Level::Low));
    let mut events = vec![Event::StepTimerElapsed; 6];
    events.push(Event::StepTimerElapsed);
    events.extend([low, low, low]);
    let actions = sequencer.replay(&events);
    let mut expected = Vec::new();
    for event in events.iter() {
        expected.extend(stepwise.handle(*event));
    }
    assert_eq!(actions, expected);
    assert_eq!(actions.len(), 7 * 6);
    assert_eq!(sequencer.step(), CommutationStep::Step2);
    assert_eq!(sequencer.state(), MotorState::Running);
    assert_eq!(sequencer.port(), stepwise.port());
}

#[test]
fn configuration() {
    let tuned = Config::tuned();
    assert_eq!(tuned.debounce_threshold, 3);
    assert_eq!(tuned.startup_step_micros, 2000);
    let zero = Config { debounce_threshold: 0, startup_step_micros: 2000 };
    let refused = Sequencer::start(CommutationTable::standard(), zero, window());
    assert_eq!(refused.err(), Some(ConfigError::ZeroThreshold));
    let slow = Config { debounce_threshold: 1, startup_step_micros: 5000 };
    let (mut sequencer, _) = Sequencer::start(CommutationTable::standard(), slow, window()).unwrap();
    assert_eq!(sequencer.next_wait(), Wait::Delay(5000));
    for _ in 0..6 {
        sequencer.handle(Event::StepTimerElapsed);
    }
    assert!(!sequencer.handle(Event::Sample(reading(Phase::B, 50, Level::Low))).is_empty());
    assert_eq!(sequencer.step(), CommutationStep::Step2);
}
