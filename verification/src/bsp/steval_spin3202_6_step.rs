//! The STEVAL-SPIN3202 board, jumpered for sensorless six-step drive.

use vstd::prelude::*;
use crate::sip;
use crate::sip::{OverCurrentVisibility, ProtectionPins};

verus! {

/// The over-current limit, as the current through this board's shunt.
#[derive(Clone, Copy, Debug, PartialEq, Eq, Structural)]
pub enum OverCurrentThreshold {
    Standby,
    Amps20,
    Amps65,
    Amps140,
}

/// The over-current protection of this board.
#[derive(Clone, Copy, Debug, PartialEq, Eq, Structural)]
pub struct OverCurrentProtection {
    inner: sip::OverCurrentProtection,
}

impl OverCurrentThreshold {
    /// The comparator reference that gives this limit on this board.
    pub open spec fn reference(self) -> sip::OverCurrentThreshold {
        match self {
            OverCurrentThreshold::Standby => sip::OverCurrentThreshold::Standby,
            OverCurrentThreshold::Amps20 => sip::OverCurrentThreshold::Millivolts100,
            OverCurrentThreshold::Amps65 => sip::OverCurrentThreshold::Millivolts250,
            OverCurrentThreshold::Amps140 => sip::OverCurrentThreshold::Millivolts500,
        }
    }
}

impl View for OverCurrentProtection {
    type V = ProtectionPins;

    closed spec fn view(&self) -> ProtectionPins {
        self.inner@
    }
}

impl OverCurrentProtection {
    /// The board's protection around that of the package.
    pub fn init(inner: sip::OverCurrentProtection) -> (r: OverCurrentProtection)
        ensures
            r@ == inner@,
    {
        OverCurrentProtection { inner }
    }

    /// Chooses who sees the comparator output. Only the select pin changes.
    pub fn configure_visibility(&mut self, visibility: OverCurrentVisibility)
        ensures
            final(self)@.oc_sel == visibility.select_level(),
            final(self)@.oc_th_stdby_1 == old(self)@.oc_th_stdby_1,
            final(self)@.oc_th_stdby_2 == old(self)@.oc_th_stdby_2,
    {
        self.inner.configure_visibility(visibility)
    }

    /// Chooses the over-current limit. Only the two threshold pins change.
    pub fn configure_threshold(&mut self, threshold: OverCurrentThreshold)
        ensures
            final(self)@.oc_sel == old(self)@.oc_sel,
            final(self)@.oc_th_stdby_1 == threshold.reference().threshold_levels().0,
            final(self)@.oc_th_stdby_2 == threshold.reference().threshold_levels().1,
    {
        let sip_threshold = match threshold {
            OverCurrentThreshold::Standby => sip::OverCurrentThreshold::Standby,
            OverCurrentThreshold::Amps20 => sip::OverCurrentThreshold::Millivolts100,
            OverCurrentThreshold::Amps65 => sip::OverCurrentThreshold::Millivolts250,
            OverCurrentThreshold::Amps140 => sip::OverCurrentThreshold::Millivolts500,
        };
        self.inner.configure_threshold(sip_threshold)
    }

    /// The pin levels of the package's protection.
    pub fn pins(&self) -> (r: sip::OverCurrentProtection)
        ensures
            r@ == self@,
    {
        self.inner
    }
}

} // verus!
