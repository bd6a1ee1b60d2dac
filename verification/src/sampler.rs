//! The zero-crossing sampler: the part of each switching cycle in which the
//! floating phase's comparator can be trusted, and the two ways of taking a
//! reading inside it.

use vstd::prelude::*;
use crate::table::{Level, Phase};

verus! {

/// The counter values, both ends included, at which a reading is valid.
#[derive(Clone, Copy, Debug, PartialEq, Eq)]
pub struct SamplingWindow {
    min: u16,
    max: u16,
}

/// The two ends of a window.
pub struct WindowBounds {
    pub min: int,
    pub max: int,
}

/// One reading of the floating phase's comparator, with the phase it was taken
/// from and the counter value at which it was taken.
#[derive(Clone, Copy, Debug, PartialEq, Eq, Structural)]
pub struct BemfSample {
    pub level: Level,
    pub phase: Phase,
    pub counter: u16,
}

impl WindowBounds {
    /// Whether a counter value lies in the window.
    pub open spec fn contains(self, counter: int) -> bool {
        self.min <= counter <= self.max
    }
}

/// The counter value at which the interrupt-driven sampler reads: half the
/// duty, rounded down, so that the high side has been on for as long as it
/// still will be.
pub open spec fn mid_duty(duty: int) -> int {
    duty / 2
}

/// The window of a given half-width around the middle of the on-time, cut
/// off where the on-time starts and ends.
pub open spec fn mid_duty_window(duty: int, margin: int) -> WindowBounds {
    WindowBounds {
        min: if mid_duty(duty) - margin >= 0 {
            mid_duty(duty) - margin
        } else {
            0
        },
        max: if mid_duty(duty) + margin <= duty - 1 {
            mid_duty(duty) + margin
        } else {
            duty - 1
        },
    }
}

/// The reading that a sampler passes on: the one taken, if the counter is in
/// the window, and none otherwise.
pub open spec fn gate(window: WindowBounds, phase: Phase, counter: u16, level: Level) -> Option<
    BemfSample,
> {
    if window.contains(counter as int) {
        Some(BemfSample { level, phase, counter })
    } else {
        None
    }
}

/// The counter value at which the interrupt-driven sampler reads.
pub fn sample_instant(duty: u16) -> (r: u16)
    ensures
        r == mid_duty(duty as int),
{
    duty / 2
}

impl View for SamplingWindow {
    type V = WindowBounds;

    closed spec fn view(&self) -> WindowBounds {
        WindowBounds { min: self.min as int, max: self.max as int }
    }
}

impl SamplingWindow {
    /// The window is not empty and lies in the counter's range.
    pub open spec fn wf(&self) -> bool {
        0 <= self@.min <= self@.max <= u16::MAX
    }

    /// The window between two counter values, both included. There is none if
    /// the first is beyond the second.
    pub fn new(min: u16, max: u16) -> (r: Option<SamplingWindow>)
        ensures
            r is Some <==> min <= max,
            r matches Some(w) ==> w.wf() && w@.min == min && w@.max == max,
    {
        if min <= max {
            Some(SamplingWindow { min, max })
        } else {
            None
        }
    }

    /// The window of a given half-width around the middle of the on-time of
    /// the high side, which lasts from counter value zero to just before
    /// `duty`. There is none if the high side is never on.
    pub fn around_mid_duty(duty: u16, margin: u16) -> (r: Option<SamplingWindow>)
        ensures
            r is Some <==> duty >= 1,
            r matches Some(w) ==> w.wf() && w@ == mid_duty_window(duty as int, margin as int),
    {
        if duty == 0 {
            return None;
        }
        let mid: u16 = duty / 2;
        let min: u16 = if mid >= margin {
            mid - margin
        } else {
            0
        };
        let max: u16 = if margin <= duty - 1 - mid {
            mid + margin
        } else {
            duty - 1
        };
        Some(SamplingWindow { min, max })
    }

    /// Whether a counter value lies in the window.
    pub fn contains(&self, counter: u16) -> (r: bool)
        ensures
            r == self@.contains(counter as int),
    {
        self.min <= counter && counter <= self.max
    }

    /// The first counter value of the window.
    pub fn min(&self) -> (r: u16)
        ensures
            r == self@.min,
    {
        self.min
    }

    /// The last counter value of the window.
    pub fn max(&self) -> (r: u16)
        ensures
            r == self@.max,
    {
        self.max
    }
}

/// A window around the middle of the on-time lies within the on-time and
/// holds the instant at which the interrupt-driven sampler reads.
pub proof fn mid_duty_window_is_valid(duty: int, margin: int)
    requires
        duty >= 1,
        margin >= 0,
    ensures
        0 <= mid_duty_window(duty, margin).min <= mid_duty_window(duty, margin).max < duty,
        mid_duty_window(duty, margin).contains(mid_duty(duty)),
{
}

/// A way of taking a reading of the floating phase at a valid instant. The
/// sequencer and the detector work with either way.
pub trait ZeroCrossingSampler {
    /// The window in which this sampler accepts a reading.
    spec fn window(&self) -> WindowBounds;

    /// Passes a reading on if it was taken inside the window, and drops it
    /// otherwise.
    fn sample(&self, phase: Phase, counter: u16, level: Level) -> (r: Option<BemfSample>)
        ensures
            r == gate(self.window(), phase, counter, level),
    ;
}

/// Samples when a timer compare match fires at a fixed instant of the cycle.
#[derive(Clone, Copy, Debug, PartialEq, Eq)]
pub struct EventSampler {
    window: SamplingWindow,
    compare: u16,
}

/// Samples by reading the counter in a loop until it is inside the window.
#[derive(Clone, Copy, Debug, PartialEq, Eq)]
pub struct PollSampler {
    window: SamplingWindow,
}

impl EventSampler {
    /// The compare value lies in the window.
    pub closed spec fn wf(&self) -> bool {
        self.window.wf() && self.window@.contains(self.compare as int)
    }

    /// The compare value that the timer is to be set to.
    pub closed spec fn compare(&self) -> int {
        self.compare as int
    }

    /// A sampler that fires at a given counter value. There is none if that
    /// value is outside the window.
    pub fn new(window: SamplingWindow, compare: u16) -> (r: Option<EventSampler>)
        requires
            window.wf(),
        ensures
            r is Some <==> window@.contains(compare as int),
            r matches Some(s) ==> s.wf() && s.window() == window@ && s.compare() == compare,
    {
        if window.contains(compare) {
            Some(EventSampler { window, compare })
        } else {
            None
        }
    }

    /// The sampler for a given duty: it fires in the middle of the on-time and
    /// accepts readings up to `margin` counts to either side. There is none if
    /// the high side is never on.
    pub fn for_duty(duty: u16, margin: u16) -> (r: Option<EventSampler>)
        ensures
            r is Some <==> duty >= 1,
            r matches Some(s) ==> s.wf() && s.window() == mid_duty_window(
                duty as int,
                margin as int,
            ) && s.compare() == mid_duty(duty as int),
    {
        match SamplingWindow::around_mid_duty(duty, margin) {
            Some(window) => {
                proof {
                    mid_duty_window_is_valid(duty as int, margin as int);
                }
                Some(EventSampler { window, compare: sample_instant(duty) })
            },
            None => None,
        }
    }

    /// The compare value that the timer is to be set to.
    pub fn compare_value(&self) -> (r: u16)
        ensures
            r == self.compare(),
    {
        self.compare
    }

    /// The window in which this sampler accepts a reading.
    pub fn sampling_window(&self) -> (r: SamplingWindow)
        ensures
            r@ == self.window(),
            self.wf() ==> r.wf(),
    {
        self.window
    }
}

impl ZeroCrossingSampler for EventSampler {
    closed spec fn window(&self) -> WindowBounds {
        self.window@
    }

    fn sample(&self, phase: Phase, counter: u16, level: Level) -> (r: Option<BemfSample>) {
        if self.window.contains(counter) {
            Some(BemfSample { level, phase, counter })
        } else {
            None
        }
    }
}

impl PollSampler {
    /// A sampler that accepts a reading whenever the counter is in the window.
    pub fn new(window: SamplingWindow) -> (r: PollSampler)
        ensures
            r.window() == window@,
    {
        PollSampler { window }
    }

    /// The window in which this sampler accepts a reading.
    pub fn sampling_window(&self) -> (r: SamplingWindow)
        ensures
            r@ == self.window(),
    {
        self.window
    }

    /// Whether the loop has to go round again because the counter is not in
    /// the window yet.
    pub fn must_spin(&self, counter: u16) -> (r: bool)
        ensures
            r == !self.window().contains(counter as int),
    {
        !self.window.contains(counter)
    }
}

impl ZeroCrossingSampler for PollSampler {
    closed spec fn window(&self) -> WindowBounds {
        self.window@
    }

    fn sample(&self, phase: Phase, counter: u16, level: Level) -> (r: Option<BemfSample>) {
        if self.window.contains(counter) {
            Some(BemfSample { level, phase, counter })
        } else {
            None
        }
    }
}

/// The single slot through which the sampling interrupt hands a reading to
/// the control loop. A new reading replaces one that was not yet consumed.
#[derive(Clone, Copy, Debug, PartialEq, Eq)]
pub struct SampleMailbox {
    slot: Option<BemfSample>,
}

impl View for SampleMailbox {
    type V = Option<BemfSample>;

    closed spec fn view(&self) -> Option<BemfSample> {
        self.slot
    }
}

impl SampleMailbox {
    /// An empty mailbox.
    pub fn new() -> (r: SampleMailbox)
        ensures
            r@ is None,
    {
        SampleMailbox { slot: None }
    }

    /// Puts a reading in the slot, in place of whatever was there.
    pub fn signal(&mut self, sample: BemfSample)
        ensures
            final(self)@ == Some(sample),
    {
        self.slot = Some(sample);
    }

    /// Takes the waiting reading out, if there is one, and leaves the slot
    /// empty.
    pub fn take(&mut self) -> (r: Option<BemfSample>)
        ensures
            r == old(self)@,
            final(self)@ is None,
    {
        let r = self.slot;
        self.slot = None;
        r
    }

    /// Empties the slot, so that a reading of an earlier step is never taken
    /// for one of the current step.
    pub fn reset(&mut self)
        ensures
            final(self)@ is None,
    {
        self.slot = None;
    }

    /// Whether a reading is waiting.
    pub fn is_pending(&self) -> (r: bool)
        ensures
            r == (self@ is Some),
    {
        self.slot.is_some()
    }
}

} // verus!
