//! The over-current protection of the motor driver package: what its three
//! configuration pins are set to for each setting.

use vstd::prelude::*;
use crate::table::Level;

verus! {

/// Who sees the output of the over-current comparator.
#[derive(Clone, Copy, Debug, PartialEq, Eq, Structural)]
pub enum OverCurrentVisibility {
    /// Only the microcontroller sees it.
    McuOnly,
    /// The microcontroller sees it, and it also acts on the logic of the output driver.
    McuAndOutputDriver,
}

/// The reference voltage of the over-current comparator.
#[derive(Clone, Copy, Debug, PartialEq, Eq, Structural)]
pub enum OverCurrentThreshold {
    Standby,
    Millivolts100,
    Millivolts250,
    Millivolts500,
}

/// The levels of the three pins that configure the over-current protection.
#[derive(Clone, Copy, Debug, PartialEq, Eq, Structural)]
pub struct OverCurrentProtection {
    oc_sel: Level,
    oc_th_stdby_1: Level,
    oc_th_stdby_2: Level,
}

/// The three pin levels: the visibility select pin, then the two threshold
/// pins.
pub struct ProtectionPins {
    pub oc_sel: Level,
    pub oc_th_stdby_1: Level,
    pub oc_th_stdby_2: Level,
}

impl OverCurrentVisibility {
    /// The level of the select pin for this setting.
    pub open spec fn select_level(self) -> Level {
        match self {
            OverCurrentVisibility::McuOnly => Level::Low,
            OverCurrentVisibility::McuAndOutputDriver => Level::High,
        }
    }
}

impl OverCurrentThreshold {
    /// The levels of the first and the second threshold pin for this setting.
    pub open spec fn threshold_levels(self) -> (Level, Level) {
        match self {
            OverCurrentThreshold::Standby => (Level::Low, Level::Low),
            OverCurrentThreshold::Millivolts100 => (Level::High, Level::Low),
            OverCurrentThreshold::Millivolts250 => (Level::Low, Level::High),
            OverCurrentThreshold::Millivolts500 => (Level::High, Level::High),
        }
    }
}

impl View for OverCurrentProtection {
    type V = ProtectionPins;

    closed spec fn view(&self) -> ProtectionPins {
        ProtectionPins {
            oc_sel: self.oc_sel,
            oc_th_stdby_1: self.oc_th_stdby_1,
            oc_th_stdby_2: self.oc_th_stdby_2,
        }
    }
}

impl OverCurrentProtection {
    /// The protection in standby, visible to the microcontroller only: all
    /// three pins low.
    pub fn init() -> (r: OverCurrentProtection)
        ensures
            r@.oc_sel == Level::Low,
            r@.oc_th_stdby_1 == Level::Low,
            r@.oc_th_stdby_2 == Level::Low,
    {
        OverCurrentProtection {
            oc_sel: Level::Low,
            oc_th_stdby_1: Level::Low,
            oc_th_stdby_2: Level::Low,
        }
    }

    /// Chooses who sees the comparator output. Only the select pin changes.
    pub fn configure_visibility(&mut self, visibility: OverCurrentVisibility)
        ensures
            final(self)@.oc_sel == visibility.select_level(),
            final(self)@.oc_th_stdby_1 == old(self)@.oc_th_stdby_1,
            final(self)@.oc_th_stdby_2 == old(self)@.oc_th_stdby_2,
    {
        let level = match visibility {
            OverCurrentVisibility::McuOnly => Level::Low,
            OverCurrentVisibility::McuAndOutputDriver => Level::High,
        };
        self.oc_sel = level;
    }

    /// Chooses the comparator's reference. Only the two threshold pins
    /// change.
    pub fn configure_threshold(&mut self, threshold: OverCurrentThreshold)
        ensures
            final(self)@.oc_sel == old(self)@.oc_sel,
            final(self)@.oc_th_stdby_1 == threshold.threshold_levels().0,
            final(self)@.oc_th_stdby_2 == threshold.threshold_levels().1,
    {
        let (th1, th2) = match threshold {
            OverCurrentThreshold::Standby => (Level::Low, Level::Low),
            OverCurrentThreshold::Millivolts100 => (Level::High, Level::Low),
            OverCurrentThreshold::Millivolts250 => (Level::Low, Level::High),
            OverCurrentThreshold::Millivolts500 => (Level::High, Level::High),
        };
        self.oc_th_stdby_1 = th1;
        self.oc_th_stdby_2 = th2;
    }

    /// The level that the visibility select pin is to have.
    pub fn oc_sel(&self) -> (r: Level)
        ensures
            r == self@.oc_sel,
    {
        self.oc_sel
    }

    /// The level that the first threshold pin is to have.
    pub fn oc_th_stdby_1(&self) -> (r: Level)
        ensures
            r == self@.oc_th_stdby_1,
    {
        self.oc_th_stdby_1
    }

    /// The level that the second threshold pin is to have.
    pub fn oc_th_stdby_2(&self) -> (r: Level)
        ensures
            r == self@.oc_th_stdby_2,
    {
        self.oc_th_stdby_2
    }
}

} // verus!
