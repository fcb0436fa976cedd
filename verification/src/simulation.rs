//! What the host hands to the hydraulic system on every frame.
use vstd::prelude::*;
use crate::fixed::Fixed;

verus! {

/// One engine, as far as the hydraulics read it.
pub struct Engine {
    /// Speed of the high-pressure spool, in percent.
    pub n2: Fixed,
}

impl Engine {
    /// An engine at rest.
    pub fn new() -> (e: Engine)
        ensures
            e.n2.raw == 0,
    {
        Engine { n2: Fixed::new(0) }
    }
}

/// The frame that the host asks to simulate.
pub struct UpdateContext {
    /// Wall time since the previous frame, in nanoseconds.
    pub delta: u64,
    /// Indicated airspeed, in knots.
    pub indicated_airspeed: Fixed,
    /// Indicated altitude, in feet.
    pub indicated_altitude: Fixed,
    /// Outside air temperature, in degrees Celsius.
    pub ambient_temperature: Fixed,
    pub is_on_ground: bool,
}

impl UpdateContext {
    pub fn new(
        delta: u64,
        indicated_airspeed: Fixed,
        indicated_altitude: Fixed,
        ambient_temperature: Fixed,
        is_on_ground: bool,
    ) -> (c: UpdateContext)
        ensures
            c.delta == delta,
            c.indicated_airspeed == indicated_airspeed,
            c.indicated_altitude == indicated_altitude,
            c.ambient_temperature == ambient_temperature,
            c.is_on_ground == is_on_ground,
    {
        UpdateContext {
            delta,
            indicated_airspeed,
            indicated_altitude,
            ambient_temperature,
            is_on_ground,
        }
    }
}

} // verus!
