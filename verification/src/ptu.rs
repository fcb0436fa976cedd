//! Power transfer unit: a hydraulic motor and pump pair that lets the
//! stronger of two loops drive flow in the weaker one, without mixing their
//! fluids.
use vstd::prelude::*;
use crate::fixed::{Fixed, low_pass};
use crate::hyd_loop::HydLoop;
use crate::units::SECONDS_PER_MINUTE;

verus! {

/// Pressure difference between the loops that starts a transfer, 500 psi.
pub const ACTIVATION_DELTA_PRESSURE: i64 = 500_000_000_000;

/// Pressure above which a transfer stops, 3001 psi.
pub const SHUTOFF_HIGH_PRESSURE: i64 = 3_001_000_000_000;

/// Source pressure below which a transfer stops, 500 psi.
pub const SHUTOFF_LOW_PRESSURE: i64 = 500_000_000_000;

/// Largest flow taken from the left loop, 16 gallons per minute.
pub const LEFT_SIDE_MAX_FLOW: i64 = 16_000_000_000;

/// Flow taken from the left loop per psi of its pressure, in gallons per
/// minute.
pub const LEFT_SIDE_FLOW_PER_PSI: i64 = 5_800_000;

/// Share of the flow taken from the left loop that arrives in the right one.
pub const LEFT_TO_RIGHT_RATIO: i64 = 810_000_000;

/// Largest flow taken from the right loop, 34 gallons per minute.
pub const RIGHT_SIDE_MAX_FLOW: i64 = 34_000_000_000;

/// Flow taken from the right loop per psi of its pressure, in gallons per
/// minute.
pub const RIGHT_SIDE_FLOW_PER_PSI: i64 = 12_500_000;

/// Share of the flow taken from the right loop that arrives in the left one.
pub const RIGHT_TO_LEFT_RATIO: i64 = 700_000_000;

/// Share of the source loop's pump capacity that the unit may take.
pub const AGRESSIVENESS_FACTOR: i64 = 600_000_000;

/// Low-pass coefficient on the transferred flow.
pub const FLOW_DYNAMIC_LOW_PASS: i64 = 100_000_000;

pub struct Ptu {
    pub is_enabled: bool,
    pub is_active_right: bool,
    pub is_active_left: bool,
    /// Flow into the right loop, gallons per second; negative when the right
    /// loop is the source.
    pub flow_to_right: Fixed,
    /// Flow into the left loop, gallons per second; negative when the left
    /// loop is the source.
    pub flow_to_left: Fixed,
    /// Magnitude of the flow taken from the source loop at the last step.
    pub last_flow: Fixed,
}

/// Flow that the source loop can give: the smaller of the unit's limit and
/// the flow that the source pressure drives, capped by the share of the
/// loop's pump capacity, then low-passed from the previous flow.
pub open spec fn spec_source_flow(
    max_flow: i64,
    flow_per_psi: i64,
    source: &HydLoop,
    last_flow: Fixed,
) -> Fixed {
    let by_pressure = Fixed::new(max_flow).min(
        source.loop_pressure.times(Fixed::new(flow_per_psi)),
    ).over(Fixed::new(SECONDS_PER_MINUTE));
    let capped = by_pressure.min(source.current_max_flow.times(Fixed::new(AGRESSIVENESS_FACTOR)));
    low_pass(Fixed::new(FLOW_DYNAMIC_LOW_PASS), capped, last_flow)
}

fn source_flow(max_flow: i64, flow_per_psi: i64, source: &HydLoop, last_flow: Fixed) -> (v: Fixed)
    ensures
        v == spec_source_flow(max_flow, flow_per_psi, source, last_flow),
{
    let by_pressure = Fixed::new(max_flow).min(
        source.loop_pressure.times(Fixed::new(flow_per_psi)),
    ).over(Fixed::new(SECONDS_PER_MINUTE));
    let capped = by_pressure.min(source.current_max_flow.times(Fixed::new(AGRESSIVENESS_FACTOR)));
    low_pass(Fixed::new(FLOW_DYNAMIC_LOW_PASS), capped, last_flow)
}

impl Ptu {
    /// The two directions exclude each other, the two published flows never
    /// have the same sign, and an idle unit publishes no flow.
    pub open spec fn wf(&self) -> bool {
        &&& !(self.is_active_left && self.is_active_right)
        &&& self.flow_to_left.raw * self.flow_to_right.raw <= 0
        &&& (!self.is_active_left && !self.is_active_right) ==> (self.flow_to_left.raw == 0
            && self.flow_to_right.raw == 0 && self.last_flow.raw == 0)
    }

    /// The unit as it is built: disabled, idle, publishing no flow.
    pub open spec fn at_rest(&self) -> bool {
        &&& !self.is_enabled
        &&& !self.is_active_left
        &&& !self.is_active_right
        &&& self.flow_to_left.raw == 0
        &&& self.flow_to_right.raw == 0
        &&& self.last_flow.raw == 0
    }

    /// The unit after the left loop has driven the right one for one step.
    pub open spec fn spec_left_to_right(self, loop_left: &HydLoop) -> Ptu {
        let v = spec_source_flow(
            LEFT_SIDE_MAX_FLOW,
            LEFT_SIDE_FLOW_PER_PSI,
            loop_left,
            self.last_flow,
        );
        Ptu {
            flow_to_left: v.negate(),
            flow_to_right: v.times(Fixed::new(LEFT_TO_RIGHT_RATIO)),
            last_flow: v,
            is_active_left: true,
            ..self
        }
    }

    /// The unit after the right loop has driven the left one for one step.
    pub open spec fn spec_right_to_left(self, loop_right: &HydLoop) -> Ptu {
        let v = spec_source_flow(
            RIGHT_SIDE_MAX_FLOW,
            RIGHT_SIDE_FLOW_PER_PSI,
            loop_right,
            self.last_flow,
        );
        Ptu {
            flow_to_left: v.times(Fixed::new(RIGHT_TO_LEFT_RATIO)),
            flow_to_right: v.negate(),
            last_flow: v,
            is_active_right: true,
            ..self
        }
    }

    /// The left loop drives: it already did, or the unit is idle and the left
    /// pressure exceeds the right one by more than the activation threshold.
    pub open spec fn spec_left_engages(self, loop_left: &HydLoop, loop_right: &HydLoop) -> bool {
        self.is_active_left || (!self.is_active_right && loop_left.loop_pressure.minus(
            loop_right.loop_pressure,
        ).raw > ACTIVATION_DELTA_PRESSURE)
    }

    /// The right loop drives: the left one does not, and the right one
    /// already did or the unit is idle and the right pressure exceeds the
    /// left one by more than the activation threshold.
    pub open spec fn spec_right_engages(self, loop_left: &HydLoop, loop_right: &HydLoop) -> bool {
        !self.spec_left_engages(loop_left, loop_right) && (self.is_active_right || (
        !self.is_active_left && loop_left.loop_pressure.minus(loop_right.loop_pressure).raw
            < -ACTIVATION_DELTA_PRESSURE))
    }

    /// The transfer has to stop: the driven loop is above the high shut-off
    /// pressure, or the driving loop is below the low one.
    pub open spec fn spec_must_stop(self, loop_left: &HydLoop, loop_right: &HydLoop) -> bool {
        ||| self.is_active_right && loop_left.loop_pressure.raw > SHUTOFF_HIGH_PRESSURE
        ||| self.is_active_left && loop_right.loop_pressure.raw > SHUTOFF_HIGH_PRESSURE
        ||| self.is_active_right && loop_right.loop_pressure.raw < SHUTOFF_LOW_PRESSURE
        ||| self.is_active_left && loop_left.loop_pressure.raw < SHUTOFF_LOW_PRESSURE
    }

    /// The unit brought to rest: no direction active, no flow.
    pub open spec fn spec_stopped(self) -> Ptu {
        Ptu {
            flow_to_left: Fixed::new(0),
            flow_to_right: Fixed::new(0),
            last_flow: Fixed::new(0),
            is_active_left: false,
            is_active_right: false,
            ..self
        }
    }

    /// The unit after one step against the two loops.
    pub open spec fn spec_update(self, loop_left: &HydLoop, loop_right: &HydLoop) -> Ptu {
        if !self.is_enabled {
            self
        } else {
            let engaged = if self.spec_left_engages(loop_left, loop_right) {
                self.spec_left_to_right(loop_left)
            } else if self.spec_right_engages(loop_left, loop_right) {
                self.spec_right_to_left(loop_right)
            } else {
                self
            };
            if engaged.spec_must_stop(loop_left, loop_right) {
                engaged.spec_stopped()
            } else {
                engaged
            }
        }
    }

    /// A disabled unit at rest.
    pub fn new() -> (p: Ptu)
        ensures
            p.wf(),
            p.at_rest(),
    {
        Ptu {
            is_enabled: false,
            is_active_right: false,
            is_active_left: false,
            flow_to_right: Fixed::new(0),
            flow_to_left: Fixed::new(0),
            last_flow: Fixed::new(0),
        }
    }

    /// Magnitude of the flow taken from the source loop at the last step.
    pub fn get_flow(&self) -> (f: Fixed)
        ensures
            f == self.last_flow,
    {
        self.last_flow
    }

    pub fn get_is_active(&self) -> (b: bool)
        ensures
            b == (self.is_active_right || self.is_active_left),
    {
        self.is_active_right || self.is_active_left
    }

    pub fn get_is_active_left_to_right(&self) -> (b: bool)
        ensures
            b == self.is_active_left,
    {
        self.is_active_left
    }

    pub fn get_is_active_right_to_left(&self) -> (b: bool)
        ensures
            b == self.is_active_right,
    {
        self.is_active_right
    }

    /// Advances the unit by one step against the pressures and the pump
    /// capacity that the two loops published at their last step. A disabled
    /// unit is left as it is, residual flows included.
    pub fn update(&mut self, loop_left: &HydLoop, loop_right: &HydLoop)
        requires
            old(self).wf(),
        ensures
            *final(self) == old(self).spec_update(loop_left, loop_right),
            final(self).wf(),
    {
        if self.is_enabled {
            let delta_p = loop_left.loop_pressure.minus(loop_right.loop_pressure);
            if self.is_active_left || (!self.is_active_right && delta_p.raw
                > ACTIVATION_DELTA_PRESSURE) {
                let v = source_flow(
                    LEFT_SIDE_MAX_FLOW,
                    LEFT_SIDE_FLOW_PER_PSI,
                    loop_left,
                    self.last_flow,
                );
                self.flow_to_left = v.negate();
                self.flow_to_right = v.times(Fixed::new(LEFT_TO_RIGHT_RATIO));
                self.last_flow = v;
                self.is_active_left = true;
                proof {
                    lemma_opposed_flows(v, Fixed::new(LEFT_TO_RIGHT_RATIO));
                }
            } else if self.is_active_right || (!self.is_active_left && delta_p.raw
                < -ACTIVATION_DELTA_PRESSURE) {
                let v = source_flow(
                    RIGHT_SIDE_MAX_FLOW,
                    RIGHT_SIDE_FLOW_PER_PSI,
                    loop_right,
                    self.last_flow,
                );
                self.flow_to_left = v.times(Fixed::new(RIGHT_TO_LEFT_RATIO));
                self.flow_to_right = v.negate();
                self.last_flow = v;
                self.is_active_right = true;
                proof {
                    lemma_opposed_flows(v, Fixed::new(RIGHT_TO_LEFT_RATIO));
                }
            }
            if self.is_active_right && loop_left.loop_pressure.raw > SHUTOFF_HIGH_PRESSURE
                || self.is_active_left && loop_right.loop_pressure.raw > SHUTOFF_HIGH_PRESSURE
                || self.is_active_right && loop_right.loop_pressure.raw < SHUTOFF_LOW_PRESSURE
                || self.is_active_left && loop_left.loop_pressure.raw < SHUTOFF_LOW_PRESSURE {
                self.flow_to_left = Fixed::new(0);
                self.flow_to_right = Fixed::new(0);
                self.is_active_right = false;
                self.is_active_left = false;
                self.last_flow = Fixed::new(0);
            }
        }
    }

    /// Allows or forbids transfers. Forbidding does not stop a transfer that
    /// is under way: the published flows stay as they are.
    pub fn enabling(&mut self, enable_flag: bool)
        ensures
            *final(self) == (Ptu { is_enabled: enable_flag, ..*old(self) }),
    {
        self.is_enabled = enable_flag;
    }
}

/// Whatever the loops, a step leaves the unit well formed: at most one
/// direction is active, the two published flows never have the same sign,
/// and an idle unit publishes no flow.
pub proof fn lemma_unit_stays_well_formed(ptu: Ptu, loop_left: &HydLoop, loop_right: &HydLoop)
    requires
        ptu.wf(),
    ensures
        ptu.spec_update(loop_left, loop_right).wf(),
{
    lemma_opposed_flows(
        spec_source_flow(LEFT_SIDE_MAX_FLOW, LEFT_SIDE_FLOW_PER_PSI, loop_left, ptu.last_flow),
        Fixed::new(LEFT_TO_RIGHT_RATIO),
    );
    lemma_opposed_flows(
        spec_source_flow(RIGHT_SIDE_MAX_FLOW, RIGHT_SIDE_FLOW_PER_PSI, loop_right, ptu.last_flow),
        Fixed::new(RIGHT_TO_LEFT_RATIO),
    );
}

/// The flow taken from the source and the share of it given to the other
/// side never have the same sign.
pub proof fn lemma_opposed_flows(v: Fixed, ratio: Fixed)
    requires
        ratio.raw >= 0,
    ensures
        v.spec_negate().raw * v.spec_times(ratio).raw <= 0,
        v.spec_times(ratio).raw * v.spec_negate().raw <= 0,
{
    let a = v.raw as int;
    let c = ratio.raw as int;
    let given = v.spec_times(ratio).raw as int;
    let taken = v.spec_negate().raw as int;
    if a >= 0 {
        assert(a * c >= 0) by (nonlinear_arith)
            requires
                a >= 0,
                c >= 0,
        ;
        assert(given >= 0);
        assert(taken <= 0);
        assert(taken * given <= 0 && given * taken <= 0) by (nonlinear_arith)
            requires
                given >= 0,
                taken <= 0,
        ;
    } else {
        assert(a * c <= 0) by (nonlinear_arith)
            requires
                a < 0,
                c >= 0,
        ;
        assert(given <= 0);
        assert(taken >= 0);
        assert(taken * given <= 0 && given * taken <= 0) by (nonlinear_arith)
            requires
                given <= 0,
                taken >= 0,
        ;
    }
}

} // verus!
