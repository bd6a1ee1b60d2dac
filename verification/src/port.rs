//! The phase output port as the sequencer sees it: the commands it can be
//! given, and a model of the state those commands leave it in.

use vstd::prelude::*;
use crate::table::{Phase, StepEntry};

verus! {

/// One command to the phase output port or to the sampling interrupt.
#[derive(Clone, Copy, Debug, PartialEq, Eq, Structural)]
pub enum PortAction {
    /// Stop the sampling interrupt from firing.
    MaskSampleInterrupt,
    /// Stop driving a phase's high side.
    DisableHighSide(Phase),
    /// Release a phase's low side.
    SetLowSideLow(Phase),
    /// Start driving a phase's high side.
    EnableHighSide(Phase),
    /// Ground a phase through its low side.
    SetLowSideHigh(Phase),
    /// Make a phase's comparator the one that the sampling interrupt reads.
    SelectComparator(Phase),
    /// Drop a sample that is still waiting to be consumed.
    ClearMailbox,
    /// Let the sampling interrupt fire again.
    UnmaskSampleInterrupt,
}

/// Which of three per-phase switches are on.
#[derive(Clone, Copy, Debug, PartialEq, Eq, Structural)]
pub struct Switches {
    pub a: bool,
    pub b: bool,
    pub c: bool,
}

/// The comparator that the sampling interrupt reads, if one was chosen.
#[derive(Clone, Copy, Debug, PartialEq, Eq, Structural)]
pub enum Selector {
    Unset,
    Watching(Phase),
}

/// What the port holds after the commands given so far.
#[derive(Clone, Copy, Debug, PartialEq, Eq, Structural)]
pub struct PortState {
    /// The high sides that are driven.
    pub high: Switches,
    /// The low sides that are grounded.
    pub low: Switches,
    /// Whether the sampling interrupt is masked.
    pub masked: bool,
    /// The comparator that the sampling interrupt reads.
    pub selector: Selector,
    /// Whether the comparator was ever chosen while the interrupt could fire.
    pub raced: bool,
}

/// No switch is on.
pub open spec fn all_off() -> Switches {
    Switches { a: false, b: false, c: false }
}

impl Switches {
    /// Whether the switch of a phase is on.
    pub open spec fn on(self, p: Phase) -> bool {
        match p {
            Phase::A => self.a,
            Phase::B => self.b,
            Phase::C => self.c,
        }
    }

    /// The switches with the one of a phase set as given.
    pub open spec fn with(self, p: Phase, v: bool) -> Switches {
        match p {
            Phase::A => Switches { a: v, b: self.b, c: self.c },
            Phase::B => Switches { a: self.a, b: v, c: self.c },
            Phase::C => Switches { a: self.a, b: self.b, c: v },
        }
    }

    /// How many switches are on.
    pub open spec fn count(self) -> int {
        (if self.a {
            1int
        } else {
            0int
        }) + (if self.b {
            1int
        } else {
            0int
        }) + (if self.c {
            1int
        } else {
            0int
        })
    }

    /// The switch of one phase is on and no other.
    pub open spec fn only(self, p: Phase) -> bool {
        self == all_off().with(p, true)
    }

    /// Whether the switch of a phase is on.
    pub fn is_on(&self, p: Phase) -> (r: bool)
        ensures
            r == self.on(p),
    {
        match p {
            Phase::A => self.a,
            Phase::B => self.b,
            Phase::C => self.c,
        }
    }

    /// Sets the switch of a phase.
    pub fn set(&mut self, p: Phase, v: bool)
        ensures
            *final(self) == old(self).with(p, v),
    {
        match p {
            Phase::A => {
                self.a = v;
            },
            Phase::B => {
                self.b = v;
            },
            Phase::C => {
                self.c = v;
            },
        }
    }

    /// How many switches are on.
    pub fn count_on(&self) -> (n: u8)
        ensures
            n == self.count(),
    {
        let na: u8 = if self.a {
            1
        } else {
            0
        };
        let nb: u8 = if self.b {
            1
        } else {
            0
        };
        let nc: u8 = if self.c {
            1
        } else {
            0
        };
        na + nb + nc
    }
}

impl PortState {
    /// The port before any command: nothing driven, the interrupt masked, no
    /// comparator chosen.
    pub open spec fn idle() -> PortState {
        PortState {
            high: all_off(),
            low: all_off(),
            masked: true,
            selector: Selector::Unset,
            raced: false,
        }
    }

    /// The port after one more command.
    pub open spec fn after(self, action: PortAction) -> PortState {
        match action {
            PortAction::MaskSampleInterrupt => PortState { masked: true, ..self },
            PortAction::UnmaskSampleInterrupt => PortState { masked: false, ..self },
            PortAction::DisableHighSide(p) => PortState { high: self.high.with(p, false), ..self },
            PortAction::EnableHighSide(p) => PortState { high: self.high.with(p, true), ..self },
            PortAction::SetLowSideLow(p) => PortState { low: self.low.with(p, false), ..self },
            PortAction::SetLowSideHigh(p) => PortState { low: self.low.with(p, true), ..self },
            PortAction::SelectComparator(p) => PortState {
                selector: Selector::Watching(p),
                raced: self.raced || !self.masked,
                ..self
            },
            PortAction::ClearMailbox => self,
        }
    }

    /// The port after a run of commands, first command first.
    pub open spec fn after_all(self, actions: Seq<PortAction>) -> PortState
        decreases actions.len(),
    {
        if actions.len() == 0 {
            self
        } else {
            self.after_all(actions.drop_last()).after(actions.last())
        }
    }

    /// At most one high side is driven, at most one low side is grounded, no
    /// phase is both driven high and grounded, and the comparator was never
    /// chosen while the sampling interrupt could fire.
    pub open spec fn safe(self) -> bool {
        &&& self.high.count() <= 1
        &&& self.low.count() <= 1
        &&& !(self.high.a && self.low.a)
        &&& !(self.high.b && self.low.b)
        &&& !(self.high.c && self.low.c)
        &&& !self.raced
    }

    /// The port is safe before a run of commands and after each of them.
    #[verifier::opaque]
    pub open spec fn stays_safe(self, actions: Seq<PortAction>) -> bool {
        forall|k: int| 0 <= k <= actions.len() ==> #[trigger] self.after_all(actions.take(k)).safe()
    }

    /// The port energises the motor as a step asks: that step's high side alone
    /// is driven, its low side alone is grounded, and the sampling interrupt
    /// is live and reads the comparator of its floating phase.
    pub open spec fn drives(self, entry: StepEntry) -> bool {
        &&& self.high.only(entry.high)
        &&& self.low.only(entry.low)
        &&& !self.masked
        &&& self.selector == Selector::Watching(entry.floating)
        &&& !self.raced
    }

    /// The port before any command.
    pub fn new() -> (r: PortState)
        ensures
            r == PortState::idle(),
            r.safe(),
    {
        PortState {
            high: Switches { a: false, b: false, c: false },
            low: Switches { a: false, b: false, c: false },
            masked: true,
            selector: Selector::Unset,
            raced: false,
        }
    }

    /// Carries out one command on the model.
    pub fn apply(&mut self, action: PortAction)
        ensures
            *final(self) == old(self).after(action),
    {
        match action {
            PortAction::MaskSampleInterrupt => {
                self.masked = true;
            },
            PortAction::UnmaskSampleInterrupt => {
                self.masked = false;
            },
            PortAction::DisableHighSide(p) => {
                self.high.set(p, false);
            },
            PortAction::EnableHighSide(p) => {
                self.high.set(p, true);
            },
            PortAction::SetLowSideLow(p) => {
                self.low.set(p, false);
            },
            PortAction::SetLowSideHigh(p) => {
                self.low.set(p, true);
            },
            PortAction::SelectComparator(p) => {
                self.raced = self.raced || !self.masked;
                self.selector = Selector::Watching(p);
            },
            PortAction::ClearMailbox => {},
        }
    }

    /// Whether the port is in a safe state.
    pub fn is_safe(&self) -> (r: bool)
        ensures
            r == self.safe(),
    {
        self.high.count_on() <= 1 && self.low.count_on() <= 1 && !(self.high.a && self.low.a) && !(
        self.high.b && self.low.b) && !(self.high.c && self.low.c) && !self.raced
    }

    /// Whether the port energises the motor as a step asks.
    pub fn is_driving(&self, entry: &StepEntry) -> (r: bool)
        ensures
            r == self.drives(*entry),
    {
        let high_ok = self.high.is_on(entry.high) && self.high.count_on() == 1;
        let low_ok = self.low.is_on(entry.low) && self.low.count_on() == 1;
        let watching = match self.selector {
            Selector::Watching(p) => p == entry.floating,
            Selector::Unset => false,
        };
        high_ok && low_ok && !self.masked && watching && !self.raced
    }
}

/// Adding a command that leaves the port safe to a run that kept it safe
/// gives a run that keeps it safe.
pub proof fn stays_safe_push(port: PortState, actions: Seq<PortAction>, action: PortAction)
    requires
        port.stays_safe(actions),
        port.after_all(actions).after(action).safe(),
    ensures
        port.stays_safe(actions.push(action)),
        port.after_all(actions.push(action)) == port.after_all(actions).after(action),
{
    reveal(PortState::stays_safe);
    let longer = actions.push(action);
    assert(longer.drop_last() =~= actions);
    assert(longer.last() == action);
    assert forall|k: int| 0 <= k <= longer.len() implies #[trigger] port.after_all(
        longer.take(k),
    ).safe() by {
        if k == longer.len() {
            assert(longer.take(k) =~= longer);
        } else {
            assert(longer.take(k) =~= actions.take(k));
        }
    }
}

/// A port that is safe stays safe over no commands.
pub proof fn stays_safe_empty(port: PortState)
    requires
        port.safe(),
    ensures
        port.stays_safe(Seq::<PortAction>::empty()),
        port.after_all(Seq::<PortAction>::empty()) == port,
{
    reveal(PortState::stays_safe);
    let none = Seq::<PortAction>::empty();
    assert forall|k: int| 0 <= k <= none.len() implies #[trigger] port.after_all(
        none.take(k),
    ).safe() by {
        assert(none.take(k) =~= none);
    }
}

/// The commands that first energise a motor at rest for a step: with the
/// sampling interrupt masked, drive the step's high side, ground its low
/// side, choose its comparator, drop any waiting sample, and unmask.
pub open spec fn energise_actions(first: StepEntry) -> Seq<PortAction> {
    seq![
        PortAction::MaskSampleInterrupt,
        PortAction::EnableHighSide(first.high),
        PortAction::SetLowSideHigh(first.low),
        PortAction::SelectComparator(first.floating),
        PortAction::ClearMailbox,
        PortAction::UnmaskSampleInterrupt,
    ]
}

/// The switch-offs that lead from one step to the next: each side that
/// changes hands is switched off at the phase that had it.
pub open spec fn release_actions(prev: StepEntry, next: StepEntry) -> Seq<PortAction> {
    (if prev.high != next.high {
        seq![PortAction::DisableHighSide(prev.high)]
    } else {
        Seq::<PortAction>::empty()
    }) + (if prev.low != next.low {
        seq![PortAction::SetLowSideLow(prev.low)]
    } else {
        Seq::<PortAction>::empty()
    })
}

/// The switch-ons that lead from one step to the next: each side that changes
/// hands is switched on at the phase that gets it.
pub open spec fn engage_actions(prev: StepEntry, next: StepEntry) -> Seq<PortAction> {
    (if prev.high != next.high {
        seq![PortAction::EnableHighSide(next.high)]
    } else {
        Seq::<PortAction>::empty()
    }) + (if prev.low != next.low {
        seq![PortAction::SetLowSideHigh(next.low)]
    } else {
        Seq::<PortAction>::empty()
    })
}

/// The commands that lead from one step to the next: mask the sampling
/// interrupt, switch off what changes hands, switch on what takes over,
/// choose the new floating phase's comparator, drop any waiting sample, and
/// unmask. A side that stays with its phase is not touched.
pub open spec fn switch_actions(prev: StepEntry, next: StepEntry) -> Seq<PortAction> {
    seq![PortAction::MaskSampleInterrupt] + release_actions(prev, next) + engage_actions(
        prev,
        next,
    ) + seq![
        PortAction::SelectComparator(next.floating),
        PortAction::ClearMailbox,
        PortAction::UnmaskSampleInterrupt,
    ]
}

proof fn release_keeps_safe(start: PortState, done: Seq<PortAction>, prev: StepEntry, next: StepEntry)
    requires
        start.stays_safe(done),
        start.after_all(done).high.only(prev.high),
        start.after_all(done).low.only(prev.low),
        !start.after_all(done).raced,
        prev.distinct(),
    ensures
        start.stays_safe(done + release_actions(prev, next)),
        start.after_all(done + release_actions(prev, next)) == (PortState {
            high: if prev.high != next.high {
                all_off()
            } else {
                start.after_all(done).high
            },
            low: if prev.low != next.low {
                all_off()
            } else {
                start.after_all(done).low
            },
            ..start.after_all(done)
        }),
{
    let mut run = done;
    if prev.high != next.high {
        stays_safe_push(start, run, PortAction::DisableHighSide(prev.high));
        run = run.push(PortAction::DisableHighSide(prev.high));
    }
    if prev.low != next.low {
        stays_safe_push(start, run, PortAction::SetLowSideLow(prev.low));
        run = run.push(PortAction::SetLowSideLow(prev.low));
    }
    assert(run =~= done + release_actions(prev, next));
}

proof fn engage_keeps_safe(start: PortState, done: Seq<PortAction>, prev: StepEntry, next: StepEntry)
    requires
        start.stays_safe(done),
        start.after_all(done).high == if prev.high != next.high {
            all_off()
        } else {
            all_off().with(next.high, true)
        },
        start.after_all(done).low == if prev.low != next.low {
            all_off()
        } else {
            all_off().with(next.low, true)
        },
        !start.after_all(done).raced,
        next.distinct(),
    ensures
        start.stays_safe(done + engage_actions(prev, next)),
        start.after_all(done + engage_actions(prev, next)) == (PortState {
            high: all_off().with(next.high, true),
            low: all_off().with(next.low, true),
            ..start.after_all(done)
        }),
{
    let mut run = done;
    if prev.high != next.high {
        stays_safe_push(start, run, PortAction::EnableHighSide(next.high));
        run = run.push(PortAction::EnableHighSide(next.high));
    }
    if prev.low != next.low {
        stays_safe_push(start, run, PortAction::SetLowSideHigh(next.low));
        run = run.push(PortAction::SetLowSideHigh(next.low));
    }
    assert(run =~= done + engage_actions(prev, next));
}

/// Going from one step to the next never drives two high sides at once.
///
/// Whatever the two steps are, as long as each gives the three phases three
/// different roles and the port energises the first: after every command of
/// the switch-over at most one high side is driven, at most one low side is
/// grounded, no phase is both driven and grounded, and the comparator is only
/// chosen while the sampling interrupt is masked. At the end the port
/// energises the second step.
pub proof fn switch_keeps_safe(port: PortState, prev: StepEntry, next: StepEntry)
    requires
        port.drives(prev),
        prev.distinct(),
        next.distinct(),
    ensures
        port.stays_safe(switch_actions(prev, next)),
        forall|k: int|
            0 <= k <= switch_actions(prev, next).len() ==> (#[trigger] port.after_all(
                switch_actions(prev, next).take(k),
            )).high.count() <= 1,
        port.after_all(switch_actions(prev, next)).drives(next),
        port.after_all(switch_actions(prev, next)) == (PortState {
            high: all_off().with(next.high, true),
            low: all_off().with(next.low, true),
            masked: false,
            selector: Selector::Watching(next.floating),
            raced: false,
        }),
{
    let none = Seq::<PortAction>::empty();
    stays_safe_empty(port);
    stays_safe_push(port, none, PortAction::MaskSampleInterrupt);
    let masked = seq![PortAction::MaskSampleInterrupt];
    assert(none.push(PortAction::MaskSampleInterrupt) =~= masked);
    release_keeps_safe(port, masked, prev, next);
    let released = masked + release_actions(prev, next);
    engage_keeps_safe(port, released, prev, next);
    let engaged = released + engage_actions(prev, next);
    stays_safe_push(port, engaged, PortAction::SelectComparator(next.floating));
    let selected = engaged.push(PortAction::SelectComparator(next.floating));
    stays_safe_push(port, selected, PortAction::ClearMailbox);
    let cleared = selected.push(PortAction::ClearMailbox);
    stays_safe_push(port, cleared, PortAction::UnmaskSampleInterrupt);
    let whole = cleared.push(PortAction::UnmaskSampleInterrupt);
    assert(whole =~= switch_actions(prev, next));
    assert forall|k: int| 0 <= k <= whole.len() implies (#[trigger] port.after_all(
        whole.take(k),
    )).high.count() <= 1 by {
        reveal(PortState::stays_safe);
        assert(port.after_all(whole.take(k)).safe());
    }
}

/// Energising a motor at rest keeps the port safe after every command, and
/// ends with the port energising the first step.
pub proof fn energise_keeps_safe(first: StepEntry)
    requires
        first.distinct(),
    ensures
        PortState::idle().stays_safe(energise_actions(first)),
        PortState::idle().after_all(energise_actions(first)).drives(first),
        PortState::idle().after_all(energise_actions(first)) == (PortState {
            high: all_off().with(first.high, true),
            low: all_off().with(first.low, true),
            masked: false,
            selector: Selector::Watching(first.floating),
            raced: false,
        }),
{
    let port = PortState::idle();
    let s0 = Seq::<PortAction>::empty();
    stays_safe_empty(port);
    stays_safe_push(port, s0, PortAction::MaskSampleInterrupt);
    let s1 = s0.push(PortAction::MaskSampleInterrupt);
    stays_safe_push(port, s1, PortAction::EnableHighSide(first.high));
    let s2 = s1.push(PortAction::EnableHighSide(first.high));
    stays_safe_push(port, s2, PortAction::SetLowSideHigh(first.low));
    let s3 = s2.push(PortAction::SetLowSideHigh(first.low));
    stays_safe_push(port, s3, PortAction::SelectComparator(first.floating));
    let s4 = s3.push(PortAction::SelectComparator(first.floating));
    stays_safe_push(port, s4, PortAction::ClearMailbox);
    let s5 = s4.push(PortAction::ClearMailbox);
    stays_safe_push(port, s5, PortAction::UnmaskSampleInterrupt);
    let s6 = s5.push(PortAction::UnmaskSampleInterrupt);
    assert(s6 =~= energise_actions(first));
}

impl PortState {
    /// Carries out a run of commands on the model, first command first.
    pub fn apply_all(&mut self, actions: &Vec<PortAction>)
        ensures
            *final(self) == old(self).after_all(actions@),
    {
        let mut i: usize = 0;
        assert(actions@.take(0) =~= Seq::<PortAction>::empty());
        while i < actions.len()
            invariant
                i <= actions.len(),
                *self == old(self).after_all(actions@.take(i as int)),
            decreases actions.len() - i,
        {
            proof {
                let longer = actions@.take(i + 1);
                assert(longer.drop_last() =~= actions@.take(i as int));
                assert(longer.last() == actions@[i as int]);
            }
            self.apply(actions[i]);
            i = i + 1;
        }
        assert(actions@.take(i as int) =~= actions@);
    }

    /// Energises a motor at rest for its first step, and hands out the commands
    /// that do so on the hardware. The port is safe after each of them.
    pub fn energise(&mut self, first: &StepEntry) -> (actions: Vec<PortAction>)
        requires
            *old(self) == PortState::idle(),
            first.distinct(),
        ensures
            actions@ == energise_actions(*first),
            old(self).stays_safe(actions@),
            *final(self) == old(self).after_all(actions@),
            final(self).drives(*first),
    {
        let mut actions: Vec<PortAction> = Vec::new();
        actions.push(PortAction::MaskSampleInterrupt);
        actions.push(PortAction::EnableHighSide(first.high));
        actions.push(PortAction::SetLowSideHigh(first.low));
        actions.push(PortAction::SelectComparator(first.floating));
        actions.push(PortAction::ClearMailbox);
        actions.push(PortAction::UnmaskSampleInterrupt);
        proof {
            assert(actions@ =~= energise_actions(*first));
            energise_keeps_safe(*first);
        }
        self.apply_all(&actions);
        actions
    }

    /// Leads the port from one step to the next, and hands out the commands
    /// that do so on the hardware. The port is safe after each of them: what
    /// changes hands is switched off before anything is switched on.
    pub fn switch_over(&mut self, prev: &StepEntry, next: &StepEntry) -> (actions: Vec<PortAction>)
        requires
            old(self).drives(*prev),
            prev.distinct(),
            next.distinct(),
        ensures
            actions@ == switch_actions(*prev, *next),
            old(self).stays_safe(actions@),
            *final(self) == old(self).after_all(actions@),
            final(self).drives(*next),
    {
        let high_moves = prev.high != next.high;
        let low_moves = prev.low != next.low;
        let mut actions: Vec<PortAction> = Vec::new();
        actions.push(PortAction::MaskSampleInterrupt);
        if high_moves {
            actions.push(PortAction::DisableHighSide(prev.high));
        }
        if low_moves {
            actions.push(PortAction::SetLowSideLow(prev.low));
        }
        assert(actions@ =~= seq![PortAction::MaskSampleInterrupt] + release_actions(*prev, *next));
        let ghost released = actions@;
        if high_moves {
            actions.push(PortAction::EnableHighSide(next.high));
        }
        if low_moves {
            actions.push(PortAction::SetLowSideHigh(next.low));
        }
        assert(actions@ =~= released + engage_actions(*prev, *next));
        let ghost engaged = actions@;
        actions.push(PortAction::SelectComparator(next.floating));
        actions.push(PortAction::ClearMailbox);
        actions.push(PortAction::UnmaskSampleInterrupt);
        proof {
            assert(actions@ =~= engaged + seq![
                PortAction::SelectComparator(next.floating),
                PortAction::ClearMailbox,
                PortAction::UnmaskSampleInterrupt,
            ]);
            switch_keeps_safe(*self, *prev, *next);
        }
        self.apply_all(&actions);
        actions
    }
}

} // verus!
