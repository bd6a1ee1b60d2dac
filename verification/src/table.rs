//! The commutation table: which phase is driven high, which is grounded and
//! which floats in each of the six steps of an electrical revolution.

use vstd::prelude::*;

verus! {

/// One of the three motor terminals.
#[derive(Clone, Copy, Debug, PartialEq, Eq, Structural)]
pub enum Phase {
    A,
    B,
    C,
}

/// The direction in which the floating phase's voltage crosses the midpoint.
#[derive(Clone, Copy, Debug, PartialEq, Eq, Structural)]
pub enum Edge {
    Rising,
    Falling,
}

/// A comparator reading.
#[derive(Clone, Copy, Debug, PartialEq, Eq, Structural)]
pub enum Level {
    Low,
    High,
}

/// A position in the six-step cycle.
#[derive(Clone, Copy, Debug, PartialEq, Eq, Structural)]
pub enum CommutationStep {
    Step1,
    Step2,
    Step3,
    Step4,
    Step5,
    Step6,
}

/// What one step does with the three phases, and the crossing it waits for.
#[derive(Clone, Copy, Debug, PartialEq, Eq, Structural)]
pub struct StepEntry {
    pub high: Phase,
    pub low: Phase,
    pub floating: Phase,
    pub expected_edge: Edge,
}

/// Why a candidate table was turned down.
#[derive(Clone, Copy, Debug, PartialEq, Eq, Structural)]
pub enum TableError {
    /// Some step names one phase in two roles.
    PhaseConflict,
    /// Some phase does not get exactly two turns in some role.
    UnbalancedRoles,
    /// The floating phase does not move on in the order A, B, C from step to step.
    BrokenRotation,
}

impl Phase {
    /// The phase that floats after this one.
    pub open spec fn succ(self) -> Phase {
        match self {
            Phase::A => Phase::B,
            Phase::B => Phase::C,
            Phase::C => Phase::A,
        }
    }

    /// The phase that floats after this one.
    pub fn next(self) -> (r: Phase)
        ensures
            r == self.succ(),
    {
        match self {
            Phase::A => Phase::B,
            Phase::B => Phase::C,
            Phase::C => Phase::A,
        }
    }
}

impl Edge {
    /// The comparator level that shows this crossing has happened.
    pub open spec fn level(self) -> Level {
        match self {
            Edge::Rising => Level::High,
            Edge::Falling => Level::Low,
        }
    }

    /// Whether a reading is the one this crossing ends in.
    pub fn matches(self, sample: Level) -> (r: bool)
        ensures
            r == (sample == self.level()),
    {
        match self {
            Edge::Rising => sample == Level::High,
            Edge::Falling => sample == Level::Low,
        }
    }
}

impl CommutationStep {
    /// The step's place in the cycle, counted from zero.
    pub open spec fn index(self) -> int {
        match self {
            CommutationStep::Step1 => 0,
            CommutationStep::Step2 => 1,
            CommutationStep::Step3 => 2,
            CommutationStep::Step4 => 3,
            CommutationStep::Step5 => 4,
            CommutationStep::Step6 => 5,
        }
    }

    /// The step at a place in the cycle; places wrap around after six.
    pub open spec fn at(i: int) -> CommutationStep {
        let k = i % 6;
        if k == 0 {
            CommutationStep::Step1
        } else if k == 1 {
            CommutationStep::Step2
        } else if k == 2 {
            CommutationStep::Step3
        } else if k == 3 {
            CommutationStep::Step4
        } else if k == 4 {
            CommutationStep::Step5
        } else {
            CommutationStep::Step6
        }
    }

    /// The step that follows, wrapping from the sixth to the first.
    pub open spec fn succ(self) -> CommutationStep {
        Self::at(self.index() + 1)
    }

    /// The step's place in the cycle, counted from zero.
    pub fn position(self) -> (r: usize)
        ensures
            r == self.index(),
            r < 6,
    {
        match self {
            CommutationStep::Step1 => 0,
            CommutationStep::Step2 => 1,
            CommutationStep::Step3 => 2,
            CommutationStep::Step4 => 3,
            CommutationStep::Step5 => 4,
            CommutationStep::Step6 => 5,
        }
    }

    /// The step that follows, wrapping from the sixth to the first.
    pub fn next(self) -> (r: CommutationStep)
        ensures
            r == self.succ(),
            r.index() == (self.index() + 1) % 6,
    {
        match self {
            CommutationStep::Step1 => CommutationStep::Step2,
            CommutationStep::Step2 => CommutationStep::Step3,
            CommutationStep::Step3 => CommutationStep::Step4,
            CommutationStep::Step4 => CommutationStep::Step5,
            CommutationStep::Step5 => CommutationStep::Step6,
            CommutationStep::Step6 => CommutationStep::Step1,
        }
    }
}

impl StepEntry {
    /// No phase has two roles in this step.
    pub open spec fn distinct(self) -> bool {
        self.high != self.low && self.low != self.floating && self.high != self.floating
    }

    /// No phase has two roles in this step.
    pub fn is_distinct(&self) -> (r: bool)
        ensures
            r == self.distinct(),
    {
        self.high != self.low && self.low != self.floating && self.high != self.floating
    }
}

/// One if the two phases are the same, zero otherwise.
pub open spec fn turn(p: Phase, q: Phase) -> int {
    if p == q {
        1
    } else {
        0
    }
}

/// How many of the six steps drive `p` high.
pub open spec fn turns_high(t: Seq<StepEntry>, p: Phase) -> int {
    turn(t[0].high, p) + turn(t[1].high, p) + turn(t[2].high, p) + turn(t[3].high, p) + turn(
        t[4].high,
        p,
    ) + turn(t[5].high, p)
}

/// How many of the six steps ground `p`.
pub open spec fn turns_low(t: Seq<StepEntry>, p: Phase) -> int {
    turn(t[0].low, p) + turn(t[1].low, p) + turn(t[2].low, p) + turn(t[3].low, p) + turn(
        t[4].low,
        p,
    ) + turn(t[5].low, p)
}

/// How many of the six steps leave `p` floating.
pub open spec fn turns_floating(t: Seq<StepEntry>, p: Phase) -> int {
    turn(t[0].floating, p) + turn(t[1].floating, p) + turn(t[2].floating, p) + turn(
        t[3].floating,
        p,
    ) + turn(t[4].floating, p) + turn(t[5].floating, p)
}

/// Every step gives the three phases three different roles.
pub open spec fn all_distinct(t: Seq<StepEntry>) -> bool {
    &&& t[0].distinct()
    &&& t[1].distinct()
    &&& t[2].distinct()
    &&& t[3].distinct()
    &&& t[4].distinct()
    &&& t[5].distinct()
}

/// One phase is high in two steps, low in two and floating in two.
pub open spec fn two_turns_each(t: Seq<StepEntry>, p: Phase) -> bool {
    turns_high(t, p) == 2 && turns_low(t, p) == 2 && turns_floating(t, p) == 2
}

/// Every phase is high in two steps, low in two and floating in two.
pub open spec fn balanced(t: Seq<StepEntry>) -> bool {
    two_turns_each(t, Phase::A) && two_turns_each(t, Phase::B) && two_turns_each(t, Phase::C)
}

/// From each step to the next, the sixth to the first included, the floating
/// phase moves on by one in the order A, B, C.
pub open spec fn rotates(t: Seq<StepEntry>) -> bool {
    &&& t[1].floating == t[0].floating.succ()
    &&& t[2].floating == t[1].floating.succ()
    &&& t[3].floating == t[2].floating.succ()
    &&& t[4].floating == t[3].floating.succ()
    &&& t[5].floating == t[4].floating.succ()
    &&& t[0].floating == t[5].floating.succ()
}

/// The rotation invariant that a table must meet before it may drive a motor.
pub open spec fn table_valid(t: Seq<StepEntry>) -> bool {
    &&& t.len() == 6
    &&& all_distinct(t)
    &&& balanced(t)
    &&& rotates(t)
}

/// In a valid table every step gives the three phases three different roles,
/// every phase has two turns in each role, and the floating phase of the
/// step that follows is the one after this step's.
pub proof fn table_invariant_holds(table: Seq<StepEntry>, step: CommutationStep)
    requires
        table_valid(table),
    ensures
        table[step.index()].distinct(),
        table[step.succ().index()].floating == table[step.index()].floating.succ(),
        forall|p: Phase| #[trigger] two_turns_each(table, p),
{
    assert(all_distinct(table));
    assert(rotates(table));
    assert(balanced(table));
    assert forall|p: Phase| #[trigger] two_turns_each(table, p) by {
        match p {
            Phase::A => {},
            Phase::B => {},
            Phase::C => {},
        }
    }
}

/// What the standard table, the one this drive was tuned with, does in a step.
pub open spec fn standard_entry(step: CommutationStep) -> StepEntry {
    match step {
        CommutationStep::Step1 => StepEntry {
            high: Phase::A,
            low: Phase::C,
            floating: Phase::B,
            expected_edge: Edge::Falling,
        },
        CommutationStep::Step2 => StepEntry {
            high: Phase::A,
            low: Phase::B,
            floating: Phase::C,
            expected_edge: Edge::Rising,
        },
        CommutationStep::Step3 => StepEntry {
            high: Phase::C,
            low: Phase::B,
            floating: Phase::A,
            expected_edge: Edge::Falling,
        },
        CommutationStep::Step4 => StepEntry {
            high: Phase::C,
            low: Phase::A,
            floating: Phase::B,
            expected_edge: Edge::Rising,
        },
        CommutationStep::Step5 => StepEntry {
            high: Phase::B,
            low: Phase::A,
            floating: Phase::C,
            expected_edge: Edge::Falling,
        },
        CommutationStep::Step6 => StepEntry {
            high: Phase::B,
            low: Phase::C,
            floating: Phase::A,
            expected_edge: Edge::Rising,
        },
    }
}

/// The standard table, step by step.
pub open spec fn standard_entries() -> Seq<StepEntry> {
    Seq::new(6, |i: int| standard_entry(CommutationStep::at(i)))
}

/// The rows of the standard table are the standard entries of the six steps.
pub proof fn standard_rows()
    ensures
        standard_entries().len() == 6,
        forall|s: CommutationStep| #[trigger]
            standard_entries()[s.index()] == standard_entry(s),
{
    assert forall|s: CommutationStep| #[trigger]
        standard_entries()[s.index()] == standard_entry(s) by {
        assert(CommutationStep::at(s.index()) == s);
    }
}

/// In the standard table every step gives the three phases three different
/// roles, every phase has two turns in each role, and the floating phase
/// rotates in a fixed order.
pub proof fn standard_table_is_valid()
    ensures
        table_valid(standard_entries()),
        forall|s: CommutationStep| (#[trigger] standard_entry(s)).distinct(),
        forall|p: Phase| #[trigger] two_turns_each(standard_entries(), p),
{
    let t = standard_entries();
    standard_rows();
    assert(t[0] == standard_entry(CommutationStep::Step1));
    assert(t[1] == standard_entry(CommutationStep::Step2));
    assert(t[2] == standard_entry(CommutationStep::Step3));
    assert(t[3] == standard_entry(CommutationStep::Step4));
    assert(t[4] == standard_entry(CommutationStep::Step5));
    assert(t[5] == standard_entry(CommutationStep::Step6));
    assert(all_distinct(t));
    assert(rotates(t));
    assert(two_turns_each(t, Phase::A));
    assert(two_turns_each(t, Phase::B));
    assert(two_turns_each(t, Phase::C));
    assert forall|p: Phase| #[trigger] two_turns_each(t, p) by {
        match p {
            Phase::A => {},
            Phase::B => {},
            Phase::C => {},
        }
    }
}

/// A table that has passed the rotation check.
#[derive(Clone, Copy, Debug)]
pub struct CommutationTable {
    entries: [StepEntry; 6],
}

fn hit(p: Phase, q: Phase) -> (n: u8)
    ensures
        n == turn(p, q),
        n <= 1,
{
    if p == q {
        1
    } else {
        0
    }
}

fn count_high(entries: &[StepEntry; 6], p: Phase) -> (n: u8)
    ensures
        n == turns_high(entries@, p),
{
    let n0: u8 = hit(entries[0].high, p);
    let n1: u8 = hit(entries[1].high, p);
    let n2: u8 = hit(entries[2].high, p);
    let n3: u8 = hit(entries[3].high, p);
    let n4: u8 = hit(entries[4].high, p);
    let n5: u8 = hit(entries[5].high, p);
    n0 + n1 + n2 + n3 + n4 + n5
}

fn count_low(entries: &[StepEntry; 6], p: Phase) -> (n: u8)
    ensures
        n == turns_low(entries@, p),
{
    let n0: u8 = hit(entries[0].low, p);
    let n1: u8 = hit(entries[1].low, p);
    let n2: u8 = hit(entries[2].low, p);
    let n3: u8 = hit(entries[3].low, p);
    let n4: u8 = hit(entries[4].low, p);
    let n5: u8 = hit(entries[5].low, p);
    n0 + n1 + n2 + n3 + n4 + n5
}

fn count_floating(entries: &[StepEntry; 6], p: Phase) -> (n: u8)
    ensures
        n == turns_floating(entries@, p),
{
    let n0: u8 = hit(entries[0].floating, p);
    let n1: u8 = hit(entries[1].floating, p);
    let n2: u8 = hit(entries[2].floating, p);
    let n3: u8 = hit(entries[3].floating, p);
    let n4: u8 = hit(entries[4].floating, p);
    let n5: u8 = hit(entries[5].floating, p);
    n0 + n1 + n2 + n3 + n4 + n5
}

fn has_two_turns_each(entries: &[StepEntry; 6], p: Phase) -> (r: bool)
    ensures
        r == two_turns_each(entries@, p),
{
    count_high(entries, p) == 2 && count_low(entries, p) == 2 && count_floating(entries, p) == 2
}

/// Holds a candidate table to the rotation invariant. The three parts are
/// tried in a fixed order, and the error names the first that fails: a phase
/// in two roles, then unbalanced roles, then a broken rotation.
pub fn check_table(entries: &[StepEntry; 6]) -> (r: Result<(), TableError>)
    ensures
        r is Ok <==> table_valid(entries@),
        r is Ok <==> check_table_error(entries@) is None,
        r matches Err(e) ==> check_table_error(entries@) == Some(e),
{
    if !(entries[0].is_distinct() && entries[1].is_distinct() && entries[2].is_distinct()
        && entries[3].is_distinct() && entries[4].is_distinct() && entries[5].is_distinct()) {
        return Err(TableError::PhaseConflict);
    }
    if !(has_two_turns_each(entries, Phase::A) && has_two_turns_each(entries, Phase::B)
        && has_two_turns_each(entries, Phase::C)) {
        return Err(TableError::UnbalancedRoles);
    }
    if !(entries[1].floating == entries[0].floating.next() && entries[2].floating
        == entries[1].floating.next() && entries[3].floating == entries[2].floating.next()
        && entries[4].floating == entries[3].floating.next() && entries[5].floating
        == entries[4].floating.next() && entries[0].floating == entries[5].floating.next()) {
        return Err(TableError::BrokenRotation);
    }
    Ok(())
}

impl View for CommutationTable {
    type V = Seq<StepEntry>;

    closed spec fn view(&self) -> Seq<StepEntry> {
        self.entries@
    }
}

impl CommutationTable {
    /// The table meets the rotation invariant.
    pub open spec fn wf(&self) -> bool {
        table_valid(self@)
    }

    /// Accepts a table that meets the rotation invariant and turns down any
    /// other, with the error that [`check_table`] gives for it.
    pub fn new(entries: [StepEntry; 6]) -> (r: Result<CommutationTable, TableError>)
        ensures
            r is Ok <==> table_valid(entries@),
            r matches Ok(t) ==> t@ == entries@ && t.wf(),
            r matches Err(e) ==> check_table_error(entries@) == Some(e),
    {
        match check_table(&entries) {
            Ok(()) => Ok(CommutationTable { entries }),
            Err(e) => Err(e),
        }
    }

    /// The standard table.
    pub fn standard() -> (r: CommutationTable)
        ensures
            r@ == standard_entries(),
            r.wf(),
    {
        let entries = [
            StepEntry {
                high: Phase::A,
                low: Phase::C,
                floating: Phase::B,
                expected_edge: Edge::Falling,
            },
            StepEntry {
                high: Phase::A,
                low: Phase::B,
                floating: Phase::C,
                expected_edge: Edge::Rising,
            },
            StepEntry {
                high: Phase::C,
                low: Phase::B,
                floating: Phase::A,
                expected_edge: Edge::Falling,
            },
            StepEntry {
                high: Phase::C,
                low: Phase::A,
                floating: Phase::B,
                expected_edge: Edge::Rising,
            },
            StepEntry {
                high: Phase::B,
                low: Phase::A,
                floating: Phase::C,
                expected_edge: Edge::Falling,
            },
            StepEntry {
                high: Phase::B,
                low: Phase::C,
                floating: Phase::A,
                expected_edge: Edge::Rising,
            },
        ];
        proof {
            standard_rows();
            standard_table_is_valid();
            let t = standard_entries();
            assert(t[0] == standard_entry(CommutationStep::Step1));
            assert(t[1] == standard_entry(CommutationStep::Step2));
            assert(t[2] == standard_entry(CommutationStep::Step3));
            assert(t[3] == standard_entry(CommutationStep::Step4));
            assert(t[4] == standard_entry(CommutationStep::Step5));
            assert(t[5] == standard_entry(CommutationStep::Step6));
            assert(entries@ =~= t);
        }
        CommutationTable { entries }
    }

    /// What the table does in a step.
    pub fn entry(&self, step: CommutationStep) -> (r: StepEntry)
        ensures
            r == self@[step.index()],
    {
        self.entries[step.position()]
    }

    /// The six rows, first step first.
    pub fn entries(&self) -> (r: [StepEntry; 6])
        ensures
            r@ == self@,
    {
        self.entries
    }
}

/// The error that a table is turned down with, if it is.
pub open spec fn check_table_error(t: Seq<StepEntry>) -> Option<TableError> {
    if !all_distinct(t) {
        Some(TableError::PhaseConflict)
    } else if !balanced(t) {
        Some(TableError::UnbalancedRoles)
    } else if !rotates(t) {
        Some(TableError::BrokenRotation)
    } else {
        None
    }
}

} // verus!
