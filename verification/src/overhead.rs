//! Push-buttons of the overhead panel, as far as the hydraulics read them.
use vstd::prelude::*;

verus! {

/// A push-button that is either in its automatic position or off, with a
/// fault light.
pub struct AutoOffFaultPushButton {
    pub auto: bool,
    pub fault: bool,
}

impl AutoOffFaultPushButton {
    pub fn new_auto() -> (b: AutoOffFaultPushButton)
        ensures
            b.auto,
            !b.fault,
    {
        AutoOffFaultPushButton { auto: true, fault: false }
    }

    pub fn new_off() -> (b: AutoOffFaultPushButton)
        ensures
            !b.auto,
            !b.fault,
    {
        AutoOffFaultPushButton { auto: false, fault: false }
    }

    pub fn push_auto(&mut self)
        ensures
            *final(self) == (AutoOffFaultPushButton { auto: true, ..*old(self) }),
    {
        self.auto = true;
    }

    pub fn push_off(&mut self)
        ensures
            *final(self) == (AutoOffFaultPushButton { auto: false, ..*old(self) }),
    {
        self.auto = false;
    }

    pub fn is_auto(&self) -> (r: bool)
        ensures
            r == self.auto,
    {
        self.auto
    }

    pub fn is_off(&self) -> (r: bool)
        ensures
            r == !self.auto,
    {
        !self.auto
    }

    pub fn has_fault(&self) -> (r: bool)
        ensures
            r == self.fault,
    {
        self.fault
    }
}

/// A push-button that is either on or off, with a fault light.
pub struct OnOffFaultPushButton {
    pub on: bool,
    pub fault: bool,
}

impl OnOffFaultPushButton {
    pub fn new_on() -> (b: OnOffFaultPushButton)
        ensures
            b.on,
            !b.fault,
    {
        OnOffFaultPushButton { on: true, fault: false }
    }

    pub fn new_off() -> (b: OnOffFaultPushButton)
        ensures
            !b.on,
            !b.fault,
    {
        OnOffFaultPushButton { on: false, fault: false }
    }

    pub fn push_on(&mut self)
        ensures
            *final(self) == (OnOffFaultPushButton { on: true, ..*old(self) }),
    {
        self.on = true;
    }

    pub fn push_off(&mut self)
        ensures
            *final(self) == (OnOffFaultPushButton { on: false, ..*old(self) }),
    {
        self.on = false;
    }

    pub fn is_on(&self) -> (r: bool)
        ensures
            r == self.on,
    {
        self.on
    }

    pub fn is_off(&self) -> (r: bool)
        ensures
            r == !self.on,
    {
        !self.on
    }

    pub fn has_fault(&self) -> (r: bool)
        ensures
            r == self.fault,
    {
        self.fault
    }
}

} // verus!
