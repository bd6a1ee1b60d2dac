//! The commutation sequencer: the six-step state machine with its forced
//! start-up ramp and its hand-over to crossings detected on the floating
//! phase.

use vstd::prelude::*;
use crate::debounce::{commits, next_count, DebounceCounter, DEFAULT_THRESHOLD};
use crate::port::{energise_actions, switch_actions, switch_keeps_safe, PortAction, PortState};
use crate::sampler::{BemfSample, SamplingWindow, WindowBounds};
use crate::table::{
    table_invariant_holds,
    table_valid,
    CommutationStep,
    CommutationTable,
    StepEntry,
};

verus! {

/// How long each forced step of the start-up ramp was held when the drive was
/// tuned, in microseconds.
pub const DEFAULT_STARTUP_STEP_MICROS: u64 = 2000;

/// The number of forced steps that make up the start-up ramp: one turn of the
/// six-step cycle.
pub const STARTUP_STEPS: u8 = 6;

/// Whether the motor is still being spun up blindly or runs on detected
/// crossings.
#[derive(Clone, Copy, Debug, PartialEq, Eq, Structural)]
pub enum MotorState {
    Starting,
    Running,
}

/// What is tuned to the motor and the board.
#[derive(Clone, Copy, Debug, PartialEq, Eq, Structural)]
pub struct Config {
    /// The matching readings in a row that qualify a crossing.
    pub debounce_threshold: u32,
    /// How long each forced step is held, in microseconds.
    pub startup_step_micros: u64,
}

/// Why a configuration was turned down.
#[derive(Clone, Copy, Debug, PartialEq, Eq, Structural)]
pub enum ConfigError {
    /// A debounce threshold of zero would commit on no evidence.
    ZeroThreshold,
}

/// What the control loop is to suspend on before it comes back.
#[derive(Clone, Copy, Debug, PartialEq, Eq, Structural)]
pub enum Wait {
    /// Wait this many microseconds, then report that the step timer elapsed.
    Delay(u64),
    /// Wait for the next reading from the sampler, then report it.
    Sample,
}

/// What can happen while the control loop is suspended.
#[derive(Clone, Copy, Debug, PartialEq, Eq, Structural)]
pub enum Event {
    /// The hold time of a forced step is over.
    StepTimerElapsed,
    /// The sampler took a reading.
    Sample(BemfSample),
}

/// The six-step sequencer. It owns the current step, the motor state, the
/// debounce counter and the model of the phase output port.
#[derive(Clone, Copy, Debug)]
pub struct Sequencer {
    table: CommutationTable,
    step: CommutationStep,
    state: MotorState,
    forced: u8,
    detector: DebounceCounter,
    window: SamplingWindow,
    startup_step_micros: u64,
    port: PortState,
}

/// What a sequencer holds.
pub struct EngineView {
    /// The commutation table.
    pub table: Seq<StepEntry>,
    /// The step that is energised.
    pub step: CommutationStep,
    /// Whether the start-up ramp is over.
    pub state: MotorState,
    /// The forced advances made so far, up to the length of the ramp.
    pub forced: nat,
    /// The matching readings in a row since the step began.
    pub matches: nat,
    /// The matching readings in a row that qualify a crossing.
    pub threshold: nat,
    /// The counter values at which a reading is valid.
    pub window: WindowBounds,
    /// The hold time of a forced step, in microseconds.
    pub startup_step_micros: nat,
    /// The phase output port.
    pub port: PortState,
}

impl EngineView {
    /// What the table does in the energised step.
    pub open spec fn entry(self) -> StepEntry {
        self.table[self.step.index()]
    }

    /// What the table does in the step after the energised one.
    pub open spec fn next_entry(self) -> StepEntry {
        self.table[self.step.succ().index()]
    }

    /// The table is valid, the motor is starting exactly as long as the ramp
    /// is not over, the debounce count is below a threshold of at least one
    /// and is zero during the ramp, and the port energises the current step.
    pub open spec fn wf(self) -> bool {
        &&& table_valid(self.table)
        &&& self.forced <= STARTUP_STEPS
        &&& (self.state == MotorState::Starting <==> self.forced < STARTUP_STEPS)
        &&& 1 <= self.threshold <= u32::MAX
        &&& self.matches < self.threshold
        &&& (self.state == MotorState::Starting ==> self.matches == 0)
        &&& 0 <= self.window.min <= self.window.max <= u16::MAX
        &&& self.startup_step_micros <= u64::MAX
        &&& self.port.drives(self.entry())
    }

    /// The commands that an advance gives to the port.
    pub open spec fn advance_actions(self) -> Seq<PortAction> {
        switch_actions(self.entry(), self.next_entry())
    }

    /// The sequencer after an advance: the next step is energised, the
    /// debounce count is zero, and a forced advance is counted while the motor
    /// is starting, the sixth of which ends the ramp.
    pub open spec fn advanced(self) -> EngineView {
        EngineView {
            step: self.step.succ(),
            state: if self.state == MotorState::Starting && self.forced + 1 < STARTUP_STEPS {
                MotorState::Starting
            } else {
                MotorState::Running
            },
            forced: if self.state == MotorState::Starting {
                self.forced + 1
            } else {
                self.forced
            },
            matches: 0,
            port: self.port.after_all(self.advance_actions()),
            ..self
        }
    }

    /// Whether a reading reaches the detector: only while the motor runs, only
    /// if it was taken inside the sampling window, and only if it was taken
    /// from the phase that floats in the current step.
    pub open spec fn accepts(self, sample: BemfSample) -> bool {
        &&& self.state == MotorState::Running
        &&& self.window.contains(sample.counter as int)
        &&& sample.phase == self.entry().floating
    }

    /// Whether a reading that reaches the detector agrees with the edge that
    /// the current step waits for.
    pub open spec fn matched(self, sample: BemfSample) -> bool {
        sample.level == self.entry().expected_edge.level()
    }

    /// Whether an event makes the sequencer advance: the step timer during
    /// the ramp, and afterwards an accepted reading that completes a qualified
    /// crossing.
    pub open spec fn advances_on(self, event: Event) -> bool {
        match event {
            Event::StepTimerElapsed => self.state == MotorState::Starting,
            Event::Sample(sample) => self.accepts(sample) && commits(
                self.matches,
                self.threshold,
                self.matched(sample),
            ),
        }
    }

    /// The sequencer after an event.
    pub open spec fn on_event(self, event: Event) -> EngineView {
        if self.advances_on(event) {
            self.advanced()
        } else {
            match event {
                Event::StepTimerElapsed => self,
                Event::Sample(sample) => if self.accepts(sample) {
                    EngineView {
                        matches: next_count(self.matches, self.threshold, self.matched(sample)),
                        ..self
                    }
                } else {
                    self
                },
            }
        }
    }

    /// The commands that an event gives to the port: those of an advance if it
    /// causes one, and none otherwise.
    pub open spec fn actions_on(self, event: Event) -> Seq<PortAction> {
        if self.advances_on(event) {
            self.advance_actions()
        } else {
            Seq::<PortAction>::empty()
        }
    }

    /// The sequencer after a run of events, first event first.
    pub open spec fn after_events(self, events: Seq<Event>) -> EngineView
        decreases events.len(),
    {
        if events.len() == 0 {
            self
        } else {
            self.after_events(events.drop_last()).on_event(events.last())
        }
    }

    /// The commands that a run of events gives to the port, in order.
    pub open spec fn actions_over(self, events: Seq<Event>) -> Seq<PortAction>
        decreases events.len(),
    {
        if events.len() == 0 {
            Seq::<PortAction>::empty()
        } else {
            self.actions_over(events.drop_last()) + self.after_events(
                events.drop_last(),
            ).actions_on(events.last())
        }
    }

    /// What the control loop is to suspend on: the hold time of a forced step
    /// during the ramp, the next reading afterwards.
    pub open spec fn wait(self) -> Wait {
        if self.state == MotorState::Starting {
            Wait::Delay(self.startup_step_micros as u64)
        } else {
            Wait::Sample
        }
    }
}

impl Config {
    /// The configuration that the drive was tuned with.
    pub open spec fn standard() -> Config {
        Config {
            debounce_threshold: DEFAULT_THRESHOLD,
            startup_step_micros: DEFAULT_STARTUP_STEP_MICROS,
        }
    }

    /// The configuration that the drive was tuned with: three matching
    /// readings qualify a crossing, and a forced step lasts 2000 microseconds.
    pub fn tuned() -> (r: Config)
        ensures
            r == Config::standard(),
            r.debounce_threshold == 3,
            r.startup_step_micros == 2000,
    {
        Config {
            debounce_threshold: DEFAULT_THRESHOLD,
            startup_step_micros: DEFAULT_STARTUP_STEP_MICROS,
        }
    }
}

/// The sequencer right after start-up: the first step energised from rest, no
/// forced advance made yet.
pub open spec fn initial_view(table: Seq<StepEntry>, config: Config, window: WindowBounds) -> EngineView {
    EngineView {
        table,
        step: CommutationStep::Step1,
        state: MotorState::Starting,
        forced: 0,
        matches: 0,
        threshold: config.debounce_threshold as nat,
        window,
        startup_step_micros: config.startup_step_micros as nat,
        port: PortState::idle().after_all(energise_actions(table[0])),
    }
}

impl View for Sequencer {
    type V = EngineView;

    closed spec fn view(&self) -> EngineView {
        EngineView {
            table: self.table@,
            step: self.step,
            state: self.state,
            forced: self.forced as nat,
            matches: self.detector@.count,
            threshold: self.detector@.threshold,
            window: self.window@,
            startup_step_micros: self.startup_step_micros as nat,
            port: self.port,
        }
    }
}

impl Sequencer {
    /// The sequencer is in a state that its operations keep it in.
    pub open spec fn wf(&self) -> bool {
        self@.wf()
    }

    /// Starts a motor at rest: energises the first step of the table and
    /// begins the start-up ramp. The commands that come with the sequencer
    /// are to be carried out on the hardware before anything else. A
    /// configuration with a debounce threshold of zero is turned down.
    pub fn start(table: CommutationTable, config: Config, window: SamplingWindow) -> (r: Result<
        (Sequencer, Vec<PortAction>),
        ConfigError,
    >)
        requires
            table.wf(),
            window.wf(),
        ensures
            r is Ok <==> config.debounce_threshold >= 1,
            r matches Ok((sequencer, actions)) ==> {
                &&& sequencer.wf()
                &&& sequencer@ == initial_view(table@, config, window@)
                &&& actions@ == energise_actions(table@[0])
                &&& PortState::idle().stays_safe(actions@)
            },
            r matches Err(e) ==> e == ConfigError::ZeroThreshold,
    {
        match DebounceCounter::new(config.debounce_threshold) {
            None => Err(ConfigError::ZeroThreshold),
            Some(detector) => {
                let first = table.entry(CommutationStep::Step1);
                let mut port = PortState::new();
                let actions = port.energise(&first);
                let sequencer = Sequencer {
                    table,
                    step: CommutationStep::Step1,
                    state: MotorState::Starting,
                    forced: 0,
                    detector,
                    window,
                    startup_step_micros: config.startup_step_micros,
                    port,
                };
                Ok((sequencer, actions))
            },
        }
    }

    /// Moves to the next step of the cycle, wrapping after the sixth, and
    /// hands out the commands that re-energise the motor for it. The debounce
    /// counter starts the new step at zero. During the ramp the advance is
    /// counted, and the sixth ends the ramp for good.
    pub fn advance(&mut self) -> (actions: Vec<PortAction>)
        requires
            old(self).wf(),
        ensures
            final(self).wf(),
            final(self)@ == old(self)@.advanced(),
            actions@ == old(self)@.advance_actions(),
            old(self)@.port.stays_safe(actions@),
    {
        let next_step = self.step.next();
        let prev = self.table.entry(self.step);
        let next = self.table.entry(next_step);
        proof {
            table_invariant_holds(self.table@, self.step);
            table_invariant_holds(self.table@, next_step);
        }
        let actions = self.port.switch_over(&prev, &next);
        self.step = next_step;
        self.detector.reset();
        if self.state == MotorState::Starting {
            self.forced = self.forced + 1;
            if self.forced >= STARTUP_STEPS {
                self.state = MotorState::Running;
            }
        }
        actions
    }

    /// Takes an event from the control loop and hands out the commands that
    /// it calls for, which are none unless it makes the sequencer advance.
    ///
    /// During the ramp the step timer forces an advance and readings are
    /// ignored. Afterwards the step timer is ignored, and a reading reaches
    /// the detector only if it was taken inside the sampling window from the
    /// phase that floats in the current step; the sequencer advances when the
    /// detector commits.
    pub fn handle(&mut self, event: Event) -> (actions: Vec<PortAction>)
        requires
            old(self).wf(),
        ensures
            final(self).wf(),
            final(self)@ == old(self)@.on_event(event),
            actions@ == old(self)@.actions_on(event),
            old(self)@.port.stays_safe(actions@),
            final(self)@.port == old(self)@.port.after_all(actions@),
    {
        match event {
            Event::StepTimerElapsed => self.on_timer(),
            Event::Sample(sample) => self.on_sample(sample),
        }
    }

    /// Reports that the hold time of a forced step is over. During the ramp
    /// this advances the sequencer; afterwards it changes nothing.
    pub fn on_timer(&mut self) -> (actions: Vec<PortAction>)
        requires
            old(self).wf(),
        ensures
            final(self).wf(),
            final(self)@ == old(self)@.on_event(Event::StepTimerElapsed),
            actions@ == old(self)@.actions_on(Event::StepTimerElapsed),
            old(self)@.port.stays_safe(actions@),
            final(self)@.port == old(self)@.port.after_all(actions@),
    {
        if self.state == MotorState::Starting {
            self.advance()
        } else {
            proof {
                crate::port::stays_safe_empty(self.port);
            }
            Vec::new()
        }
    }

    /// Reports a reading. It reaches the detector only while the motor runs,
    /// and only if it was taken inside the sampling window from the phase that
    /// floats in the current step. The sequencer advances when the detector
    /// commits.
    pub fn on_sample(&mut self, sample: BemfSample) -> (actions: Vec<PortAction>)
        requires
            old(self).wf(),
        ensures
            final(self).wf(),
            final(self)@ == old(self)@.on_event(Event::Sample(sample)),
            actions@ == old(self)@.actions_on(Event::Sample(sample)),
            old(self)@.port.stays_safe(actions@),
            final(self)@.port == old(self)@.port.after_all(actions@),
    {
        let entry = self.table.entry(self.step);
        let accepted = self.state == MotorState::Running && self.window.contains(sample.counter)
            && sample.phase == entry.floating;
        if accepted {
            let ghost before = self@;
            let commit = self.detector.observe(sample.level, entry.expected_edge);
            if commit {
                self.detector.reset();
                let ghost cleared = self@;
                let actions = self.advance();
                assert(cleared.advanced() == before.advanced());
                return actions;
            }
        }
        proof {
            crate::port::stays_safe_empty(self.port);
        }
        Vec::new()
    }

    /// Takes a run of events, first event first, and hands out all the
    /// commands that they call for, in order.
    pub fn replay(&mut self, events: &Vec<Event>) -> (actions: Vec<PortAction>)
        requires
            old(self).wf(),
        ensures
            final(self).wf(),
            final(self)@ == old(self)@.after_events(events@),
            actions@ == old(self)@.actions_over(events@),
    {
        let mut actions: Vec<PortAction> = Vec::new();
        let mut i: usize = 0;
        assert(events@.take(0) =~= Seq::<Event>::empty());
        while i < events.len()
            invariant
                i <= events.len(),
                self.wf(),
                self@ == old(self)@.after_events(events@.take(i as int)),
                actions@ == old(self)@.actions_over(events@.take(i as int)),
            decreases events.len() - i,
        {
            proof {
                let longer = events@.take(i + 1);
                assert(longer.drop_last() =~= events@.take(i as int));
                assert(longer.last() == events@[i as int]);
            }
            let mut more = self.handle(events[i]);
            actions.append(&mut more);
            i = i + 1;
        }
        assert(events@.take(i as int) =~= events@);
        actions
    }

    /// What the control loop is to suspend on before it reports the next
    /// event.
    pub fn next_wait(&self) -> (r: Wait)
        ensures
            r == self@.wait(),
    {
        if self.state == MotorState::Starting {
            Wait::Delay(self.startup_step_micros)
        } else {
            Wait::Sample
        }
    }

    /// The step that is energised.
    pub fn step(&self) -> (r: CommutationStep)
        ensures
            r == self@.step,
    {
        self.step
    }

    /// What the table does in the energised step.
    pub fn entry(&self) -> (r: StepEntry)
        ensures
            r == self@.entry(),
    {
        self.table.entry(self.step)
    }

    /// Whether the start-up ramp is over.
    pub fn state(&self) -> (r: MotorState)
        ensures
            r == self@.state,
    {
        self.state
    }

    /// The matching readings in a row since the step began.
    pub fn debounce_count(&self) -> (r: u32)
        ensures
            r == self@.matches,
    {
        self.detector.count()
    }

    /// The port as the commands given so far have left it.
    pub fn port(&self) -> (r: PortState)
        ensures
            r == self@.port,
    {
        self.port
    }
}

/// An advance keeps the sequencer in order and the port safe after every
/// command, whatever step it starts from.
pub proof fn advance_is_safe(v: EngineView)
    requires
        v.wf(),
    ensures
        v.advanced().wf(),
        v.port.stays_safe(v.advance_actions()),
        forall|k: int|
            0 <= k <= v.advance_actions().len() ==> (#[trigger] v.port.after_all(
                v.advance_actions().take(k),
            )).high.count() <= 1,
        v.advanced().port.drives(v.next_entry()),
{
    table_invariant_holds(v.table, v.step);
    table_invariant_holds(v.table, v.step.succ());
    switch_keeps_safe(v.port, v.entry(), v.next_entry());
}

/// Every event keeps the sequencer in order.
pub proof fn event_keeps_wf(v: EngineView, event: Event)
    requires
        v.wf(),
    ensures
        v.on_event(event).wf(),
{
    advance_is_safe(v);
}

/// Every run of events keeps the sequencer in order.
pub proof fn events_keep_wf(v: EngineView, events: Seq<Event>)
    requires
        v.wf(),
    ensures
        v.after_events(events).wf(),
    decreases events.len(),
{
    if events.len() > 0 {
        events_keep_wf(v, events.drop_last());
        event_keeps_wf(v.after_events(events.drop_last()), events.last());
    }
}

/// The sequencer after a number of advances in a row.
pub open spec fn after_advances(v: EngineView, n: nat) -> EngineView
    decreases n,
{
    if n == 0 {
        v
    } else {
        after_advances(v, (n - 1) as nat).advanced()
    }
}

/// A run of step-timer events of a given length.
pub open spec fn timer_events(n: nat) -> Seq<Event> {
    Seq::new(n, |i: int| Event::StepTimerElapsed)
}

proof fn ramp_counts_advances(v: EngineView, n: nat)
    requires
        v.wf(),
        v.state == MotorState::Starting,
        v.forced == 0,
    ensures
        after_advances(v, n).wf(),
        after_advances(v, n).forced == if n < STARTUP_STEPS {
            n
        } else {
            STARTUP_STEPS as nat
        },
    decreases n,
{
    if n > 0 {
        ramp_counts_advances(v, (n - 1) as nat);
        advance_is_safe(after_advances(v, (n - 1) as nat));
    }
}

/// The start-up ramp is exactly six advances long: a sequencer that has just
/// been started is still starting after fewer than six advances, and running
/// after six or more.
pub proof fn ramp_ends_after_six_advances(v: EngineView, n: nat)
    requires
        v.wf(),
        v.state == MotorState::Starting,
        v.forced == 0,
    ensures
        n < 6 ==> after_advances(v, n).state == MotorState::Starting,
        n >= 6 ==> after_advances(v, n).state == MotorState::Running,
{
    ramp_counts_advances(v, n);
}

/// During the ramp the step timer alone drives the sequencer: after `n`
/// step-timer events, with no reading at all, a sequencer that has just been
/// started has made `n` advances if `n` is at most six, and six otherwise.
pub proof fn timers_drive_the_ramp(v: EngineView, n: nat)
    requires
        v.wf(),
        v.state == MotorState::Starting,
        v.forced == 0,
    ensures
        v.after_events(timer_events(n)) == after_advances(
            v,
            if n < 6 {
                n
            } else {
                6
            },
        ),
        n >= 6 ==> v.after_events(timer_events(n)).state == MotorState::Running,
        n < 6 ==> v.after_events(timer_events(n)).state == MotorState::Starting,
    decreases n,
{
    if n > 0 {
        let m = (n - 1) as nat;
        timers_drive_the_ramp(v, m);
        assert(timer_events(n).drop_last() =~= timer_events(m));
        assert(timer_events(n).last() == Event::StepTimerElapsed);
        ramp_counts_advances(v, m);
        if m >= 6 {
            ramp_counts_advances(v, 6);
        }
    }
    ramp_counts_advances(
        v,
        if n < 6 {
            n
        } else {
            6
        },
    );
}

/// Once the motor runs it keeps running, whatever events follow.
pub proof fn running_is_final(v: EngineView, events: Seq<Event>)
    requires
        v.wf(),
        v.state == MotorState::Running,
    ensures
        v.after_events(events).state == MotorState::Running,
    decreases events.len(),
{
    if events.len() > 0 {
        running_is_final(v, events.drop_last());
    }
}

/// Once the motor runs, time passing changes nothing: only readings move
/// the sequencer on.
pub proof fn timer_is_ignored_when_running(v: EngineView, n: nat)
    requires
        v.state == MotorState::Running,
    ensures
        v.after_events(timer_events(n)) == v,
        v.actions_over(timer_events(n)) == Seq::<PortAction>::empty(),
    decreases n,
{
    if n > 0 {
        let m = (n - 1) as nat;
        timer_is_ignored_when_running(v, m);
        assert(timer_events(n).drop_last() =~= timer_events(m));
        assert(timer_events(n).last() == Event::StepTimerElapsed);
    }
    assert(v.actions_over(timer_events(n)) =~= Seq::<PortAction>::empty());
}

/// A reading taken outside the sampling window never reaches the detector:
/// it leaves the sequencer as it was and gives the port no command. The same
/// holds of a reading taken from a phase that does not float in the current
/// step, and of any reading during the ramp.
pub proof fn invalid_sample_is_dropped(v: EngineView, sample: BemfSample)
    requires
        !v.window.contains(sample.counter as int) || sample.phase != v.entry().floating || v.state
            == MotorState::Starting,
    ensures
        v.on_event(Event::Sample(sample)) == v,
        v.actions_on(Event::Sample(sample)) == Seq::<PortAction>::empty(),
{
}

/// A run of readings as events.
pub open spec fn sample_events(samples: Seq<BemfSample>) -> Seq<Event> {
    Seq::new(samples.len(), |i: int| Event::Sample(samples[i]))
}

proof fn matches_accumulate(v: EngineView, samples: Seq<BemfSample>)
    requires
        v.wf(),
        v.state == MotorState::Running,
        v.matches == 0,
        samples.len() < v.threshold,
        forall|i: int| 0 <= i < samples.len() ==> v.accepts(samples[i]) && v.matched(samples[i]),
    ensures
        v.after_events(sample_events(samples)) == (EngineView {
            matches: samples.len(),
            ..v
        }),
        v.actions_over(sample_events(samples)) == Seq::<PortAction>::empty(),
    decreases samples.len(),
{
    if samples.len() > 0 {
        let head = samples.drop_last();
        matches_accumulate(v, head);
        assert(sample_events(samples).drop_last() =~= sample_events(head));
        assert(sample_events(samples).last() == Event::Sample(samples.last()));
        let mid = EngineView { matches: head.len(), ..v };
        assert(mid.accepts(samples.last()));
        assert(mid.matched(samples.last()));
    }
    assert(v.actions_over(sample_events(samples)) =~= Seq::<PortAction>::empty());
}

/// A qualified crossing advances the sequencer: when a running sequencer at
/// the start of a step gets as many valid, matching readings in a row as the
/// threshold asks for, it is then in the state that one advance leads to,
/// with the next step energised and the debounce count at zero, and the
/// commands given to the port are those of that one advance.
pub proof fn qualified_crossing_advances(v: EngineView, samples: Seq<BemfSample>)
    requires
        v.wf(),
        v.state == MotorState::Running,
        v.matches == 0,
        samples.len() == v.threshold,
        forall|i: int| 0 <= i < samples.len() ==> v.accepts(samples[i]) && v.matched(samples[i]),
    ensures
        v.after_events(sample_events(samples)) == v.advanced(),
        v.after_events(sample_events(samples)).step == v.step.succ(),
        v.after_events(sample_events(samples)).matches == 0,
        v.after_events(sample_events(samples)).port.drives(v.next_entry()),
        v.actions_over(sample_events(samples)) == v.advance_actions(),
{
    let head = samples.drop_last();
    matches_accumulate(v, head);
    assert(sample_events(samples).drop_last() =~= sample_events(head));
    assert(sample_events(samples).last() == Event::Sample(samples.last()));
    let mid = EngineView { matches: head.len(), ..v };
    assert(mid.accepts(samples.last()));
    assert(mid.matched(samples.last()));
    assert(mid.advanced() == v.advanced());
    assert(mid.advance_actions() == v.advance_actions());
    advance_is_safe(v);
    assert(v.actions_over(sample_events(samples)) =~= v.advance_actions());
}

} // verus!
