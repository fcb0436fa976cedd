//! Consumers of hydraulic power, which do not take fluid yet, and the bleed
//! air that pressurises the reservoirs.
use vstd::prelude::*;
use crate::fixed::Fixed;
use crate::hyd_loop::HydLoop;

verus! {

#[derive(Clone, Copy, Debug, PartialEq, Eq, Structural)]
pub enum ActuatorType {
    Aileron,
    BrakesNormal,
    BrakesAlternate,
    BrakesParking,
    CargoDoor,
    Elevator,
    EmergencyGenerator,
    EngReverser,
    Flaps,
    LandingGearNose,
    LandingGearMain,
    LandingGearDoorNose,
    LandingGearDoorMain,
    NoseWheelSteering,
    Rudder,
    Slat,
    Spoiler,
    Stabilizer,
    YawDamper,
}

#[derive(Clone, Copy, Debug, PartialEq, Eq, Structural)]
pub enum PtuState {
    Off,
    GreenToYellow,
    YellowToGreen,
}

/// Where the bleed air of a reservoir comes from.
#[derive(Clone, Copy, Debug, PartialEq, Eq, Structural)]
pub enum BleedSrcType {
    NoSource,
    Engine1,
    XBleedLine,
}

pub struct BleedAir {
    pub b_type: BleedSrcType,
}

impl BleedAir {
    pub fn new(b_type: BleedSrcType) -> (b: BleedAir)
        ensures
            b.b_type == b_type,
    {
        BleedAir { b_type }
    }
}

/// Piston area of an actuator, 5 square metres.
pub const ACTUATOR_AREA: i64 = 5_000_000_000;

/// Load at which an actuator stalls, 47000 newtons.
pub const ACTUATOR_STALL_LOAD: i64 = 47_000_000_000_000;

pub struct Actuator {
    pub a_type: ActuatorType,
    pub active: bool,
    pub affected_by_gravity: bool,
    pub area: Fixed,
    pub line: HydLoop,
    pub neutral_is_zero: bool,
    pub stall_load: Fixed,
    pub volume_used_at_max_deflection: Fixed,
}

impl Actuator {
    /// An inactive actuator of the given type on the given loop.
    pub fn new(a_type: ActuatorType, line: HydLoop) -> (a: Actuator)
        ensures
            a.a_type == a_type,
            a.line == line,
            !a.active,
            !a.affected_by_gravity,
            a.neutral_is_zero,
            a.area.raw == ACTUATOR_AREA,
            a.stall_load.raw == ACTUATOR_STALL_LOAD,
            a.volume_used_at_max_deflection.raw == 0,
    {
        Actuator {
            a_type,
            active: false,
            affected_by_gravity: false,
            area: Fixed::new(ACTUATOR_AREA),
            line,
            neutral_is_zero: true,
            stall_load: Fixed::new(ACTUATOR_STALL_LOAD),
            volume_used_at_max_deflection: Fixed::new(0),
        }
    }
}

} // verus!
