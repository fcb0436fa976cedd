//! Pressure sources: the variable-displacement pump that all of them share,
//! and the electric, engine-driven and ram-air pumps built on it.
use vstd::prelude::*;
use crate::fixed::{
    Fixed,
    low_pass,
    SCALE,
    lemma_times_non_negative,
    lemma_over_non_negative,
    lemma_low_pass_non_negative,
    lemma_times_monotone,
    lemma_over_monotone,
    lemma_low_pass_monotone,
};
use crate::interpolation::{
    interpolation,
    interpolated,
    valid_table,
    in_segment,
    segment_of,
    lemma_on_line_between,
    lemma_on_line_non_increasing,
    lemma_segment_unique,
    on_line,
};
use crate::hyd_loop::HydLoop;
use crate::simulation::Engine;
use crate::units::{CUBIC_INCHES_PER_GALLON, SECONDS_PER_MINUTE};

verus! {

/// What a loop reads from each of its pumps: the most and the least volume
/// that the pump can deliver in the current step.
pub trait PressureSource {
    spec fn spec_delta_vol_max(&self) -> Fixed;

    spec fn spec_delta_vol_min(&self) -> Fixed;

    fn get_delta_vol_max(&self) -> (v: Fixed)
        ensures
            v == self.spec_delta_vol_max(),
    ;

    fn get_delta_vol_min(&self) -> (v: Fixed)
        ensures
            v == self.spec_delta_vol_min(),
    ;
}

/// Loop pressures, in psi, at which the displacement of every pump is
/// tabulated.
pub open spec fn displacement_breakpoints() -> Seq<Fixed> {
    seq![
        Fixed::new(0),
        Fixed::new(500_000_000_000),
        Fixed::new(1_000_000_000_000),
        Fixed::new(1_500_000_000_000),
        Fixed::new(2_800_000_000_000),
        Fixed::new(2_900_000_000_000),
        Fixed::new(3_000_000_000_000),
        Fixed::new(3_050_000_000_000),
        Fixed::new(3_500_000_000_000),
    ]
}

/// A displacement curve that is flat at `full` up to 2900 psi, falls to
/// `reduced` at 3000 psi and to nothing at 3050 psi.
pub open spec fn displacement_map(full: i64, reduced: i64) -> Seq<Fixed> {
    seq![
        Fixed::new(full),
        Fixed::new(full),
        Fixed::new(full),
        Fixed::new(full),
        Fixed::new(full),
        Fixed::new(full),
        Fixed::new(reduced),
        Fixed::new(0),
        Fixed::new(0),
    ]
}

fn displacement_breakpoint_table() -> (v: Vec<Fixed>)
    ensures
        v@ == displacement_breakpoints(),
{
    let mut v: Vec<Fixed> = Vec::new();
    v.push(Fixed::new(0));
    v.push(Fixed::new(500_000_000_000));
    v.push(Fixed::new(1_000_000_000_000));
    v.push(Fixed::new(1_500_000_000_000));
    v.push(Fixed::new(2_800_000_000_000));
    v.push(Fixed::new(2_900_000_000_000));
    v.push(Fixed::new(3_000_000_000_000));
    v.push(Fixed::new(3_050_000_000_000));
    v.push(Fixed::new(3_500_000_000_000));
    assert(v@ =~= displacement_breakpoints());
    v
}

fn displacement_map_table(full: i64, reduced: i64) -> (v: Vec<Fixed>)
    ensures
        v@ == displacement_map(full, reduced),
{
    let mut v: Vec<Fixed> = Vec::new();
    v.push(Fixed::new(full));
    v.push(Fixed::new(full));
    v.push(Fixed::new(full));
    v.push(Fixed::new(full));
    v.push(Fixed::new(full));
    v.push(Fixed::new(full));
    v.push(Fixed::new(reduced));
    v.push(Fixed::new(0));
    v.push(Fixed::new(0));
    assert(v@ =~= displacement_map(full, reduced));
    v
}

/// Every value of the table is zero or more.
pub open spec fn non_negative(ys: Seq<Fixed>) -> bool {
    forall|i: int| 0 <= i < ys.len() ==> ys[i].raw >= 0
}

/// Flow in gallons per second of a pump that turns at `rpm` with the given
/// displacement in cubic inches per revolution.
pub open spec fn spec_calculate_flow(rpm: Fixed, displacement: Fixed) -> Fixed {
    rpm.times(displacement).over(Fixed::new(CUBIC_INCHES_PER_GALLON)).over(
        Fixed::new(SECONDS_PER_MINUTE),
    )
}

pub struct Pump {
    pub delta_vol_max: Fixed,
    pub delta_vol_min: Fixed,
    pub press_breakpoints: Vec<Fixed>,
    pub displacement_carac: Vec<Fixed>,
    /// Low-pass coefficient on the deliverable volume, in `(0, 1]`; one
    /// means no filtering.
    pub displacement_dynamic: Fixed,
}

impl Pump {
    /// The displacement table can be looked up and holds no negative
    /// displacement, the filter coefficient is in `(0, 1]`, and the two
    /// published volumes are ordered and not negative.
    pub open spec fn wf(&self) -> bool {
        &&& valid_table(self.press_breakpoints@, self.displacement_carac@)
        &&& non_negative(self.displacement_carac@)
        &&& 0 < self.displacement_dynamic.raw <= SCALE
        &&& 0 <= self.delta_vol_min.raw <= self.delta_vol_max.raw
    }

    pub open spec fn spec_calculate_displacement(&self, pressure: Fixed) -> Fixed {
        interpolated(self.press_breakpoints@, self.displacement_carac@, pressure)
    }

    /// The pump after a step of `delta_time` seconds at `rpm` against
    /// `loop_pressure`: the deliverable volume moves toward the volume that
    /// the instantaneous flow gives in the step, and nothing is guaranteed.
    pub open spec fn spec_update(self, delta_time: Fixed, loop_pressure: Fixed, rpm: Fixed) -> Pump {
        let displacement = self.spec_calculate_displacement(loop_pressure);
        let flow = spec_calculate_flow(rpm, displacement);
        Pump {
            delta_vol_max: low_pass(
                self.displacement_dynamic,
                flow.times(delta_time),
                self.delta_vol_max,
            ),
            delta_vol_min: Fixed::new(0),
            ..self
        }
    }

    /// A pump at rest with the given displacement table and filter.
    pub fn new(
        press_breakpoints: Vec<Fixed>,
        displacement_carac: Vec<Fixed>,
        displacement_dynamic: Fixed,
    ) -> (p: Pump)
        requires
            valid_table(press_breakpoints@, displacement_carac@),
        ensures
            p.delta_vol_max.raw == 0,
            p.delta_vol_min.raw == 0,
            p.press_breakpoints == press_breakpoints,
            p.displacement_carac == displacement_carac,
            p.displacement_dynamic == displacement_dynamic,
            p.wf() <==> (non_negative(displacement_carac@) && 0 < displacement_dynamic.raw
                <= SCALE),
    {
        Pump {
            delta_vol_max: Fixed::new(0),
            delta_vol_min: Fixed::new(0),
            press_breakpoints,
            displacement_carac,
            displacement_dynamic,
        }
    }

    pub fn update(&mut self, delta_time: Fixed, loop_pressure: Fixed, rpm: Fixed)
        requires
            old(self).wf(),
            delta_time.raw >= 0,
            rpm.raw >= 0,
        ensures
            *final(self) == old(self).spec_update(delta_time, loop_pressure, rpm),
            final(self).wf(),
    {
        let displacement = self.calculate_displacement(loop_pressure);
        let flow = Pump::calculate_flow(rpm, displacement);
        proof {
            lemma_interpolated_non_negative(
                self.press_breakpoints@,
                self.displacement_carac@,
                loop_pressure,
            );
            lemma_flow_non_negative(rpm, displacement);
            lemma_times_non_negative(flow, delta_time);
            lemma_low_pass_non_negative(
                self.displacement_dynamic,
                flow.times(delta_time),
                self.delta_vol_max,
            );
        }
        self.delta_vol_max = low_pass(
            self.displacement_dynamic,
            flow.times(delta_time),
            self.delta_vol_max,
        );
        self.delta_vol_min = Fixed::new(0);
    }

    /// Displacement in cubic inches per revolution against `pressure`.
    pub fn calculate_displacement(&self, pressure: Fixed) -> (d: Fixed)
        requires
            valid_table(self.press_breakpoints@, self.displacement_carac@),
        ensures
            d == self.spec_calculate_displacement(pressure),
    {
        interpolation(self.press_breakpoints.as_slice(), self.displacement_carac.as_slice(), pressure)
    }

    pub fn calculate_flow(rpm: Fixed, displacement: Fixed) -> (q: Fixed)
        ensures
            q == spec_calculate_flow(rpm, displacement),
    {
        rpm.times(displacement).over(Fixed::new(CUBIC_INCHES_PER_GALLON)).over(
            Fixed::new(SECONDS_PER_MINUTE),
        )
    }
}

impl PressureSource for Pump {
    open spec fn spec_delta_vol_max(&self) -> Fixed {
        self.delta_vol_max
    }

    open spec fn spec_delta_vol_min(&self) -> Fixed {
        self.delta_vol_min
    }

    fn get_delta_vol_max(&self) -> (v: Fixed) {
        // Without this mention the prover does not unfold the definition
        // above for the postcondition that the trait declares.
        assert(self.spec_delta_vol_max() == self.delta_vol_max);
        self.delta_vol_max
    }

    fn get_delta_vol_min(&self) -> (v: Fixed) {
        self.delta_vol_min
    }
}

/// The shared breakpoints with a curve of the shape that all pumps have make
/// a table that can be looked up and that holds no negative displacement.
pub proof fn lemma_displacement_table_valid(full: i64, reduced: i64)
    requires
        full >= 0,
        reduced >= 0,
    ensures
        valid_table(displacement_breakpoints(), displacement_map(full, reduced)),
        non_negative(displacement_map(full, reduced)),
{
    let xs = displacement_breakpoints();
    assert(xs.len() == 9);
    assert(xs[0].raw == 0 && xs[1].raw == 500_000_000_000 && xs[2].raw == 1_000_000_000_000
        && xs[3].raw == 1_500_000_000_000 && xs[4].raw == 2_800_000_000_000 && xs[5].raw
        == 2_900_000_000_000 && xs[6].raw == 3_000_000_000_000 && xs[7].raw == 3_050_000_000_000
        && xs[8].raw == 3_500_000_000_000);
    let ys = displacement_map(full, reduced);
    assert(ys.len() == 9);
    assert(ys[0].raw == full && ys[1].raw == full && ys[2].raw == full && ys[3].raw == full
        && ys[4].raw == full && ys[5].raw == full && ys[6].raw == reduced && ys[7].raw == 0
        && ys[8].raw == 0);
}

/// Time in which an electric pump reaches its nominal speed, 4 s.
pub const SPOOLUP_TIME: i64 = 4_000_000_000;

/// Time in which an electric pump comes to rest from its nominal speed, 4 s.
pub const SPOOLDOWN_TIME: i64 = 4_000_000_000;

/// Nominal speed of an electric pump, 7600 rpm.
pub const NOMINAL_SPEED: i64 = 7_600_000_000_000;

/// Displacement of an electric pump up to 2900 psi, 0.263 cubic inch per
/// revolution.
pub const ELECTRIC_FULL_DISPLACEMENT: i64 = 263_000_000;

/// Displacement of an electric pump at 3000 psi.
pub const ELECTRIC_REDUCED_DISPLACEMENT: i64 = 163_000_000;

/// Filter coefficient of an electric pump: no filtering.
pub const ELECTRIC_DISPLACEMENT_DYNAMICS: i64 = 1_000_000_000;

pub struct ElectricPump {
    pub active: bool,
    pub rpm: Fixed,
    pub pump: Pump,
}

impl ElectricPump {
    /// The pump is well formed and its speed lies between rest and nominal.
    pub open spec fn wf(&self) -> bool {
        &&& self.pump.wf()
        &&& 0 <= self.rpm.raw <= NOMINAL_SPEED
    }

    /// The pump as it is built: stopped, at rest, with the curve and the
    /// filter of an electric pump.
    pub open spec fn at_rest(&self) -> bool {
        &&& !self.active
        &&& self.rpm.raw == 0
        &&& self.pump.delta_vol_max.raw == 0
        &&& self.pump.delta_vol_min.raw == 0
        &&& self.pump.press_breakpoints@ == displacement_breakpoints()
        &&& self.pump.displacement_carac@ == displacement_map(
            ELECTRIC_FULL_DISPLACEMENT,
            ELECTRIC_REDUCED_DISPLACEMENT,
        )
        &&& self.pump.displacement_dynamic.raw == ELECTRIC_DISPLACEMENT_DYNAMICS
    }

    /// Speed after `delta_time` seconds: an active pump below nominal speed
    /// spools up, an inactive pump that still turns spools down, both at a
    /// constant rate, and the result stays between rest and nominal.
    pub open spec fn spec_next_rpm(active: bool, rpm: Fixed, delta_time: Fixed) -> Fixed {
        let moved = if active && rpm.raw < NOMINAL_SPEED {
            rpm.plus(
                Fixed::new(NOMINAL_SPEED).over(Fixed::new(SPOOLUP_TIME)).times(delta_time),
            )
        } else if !active && rpm.raw > 0 {
            rpm.minus(
                Fixed::new(NOMINAL_SPEED).over(Fixed::new(SPOOLDOWN_TIME)).times(delta_time),
            )
        } else {
            rpm
        };
        moved.min(Fixed::new(NOMINAL_SPEED)).max(Fixed::new(0))
    }

    pub open spec fn spec_update(self, delta_time: Fixed, line: &HydLoop) -> ElectricPump {
        let rpm = ElectricPump::spec_next_rpm(self.active, self.rpm, delta_time);
        ElectricPump { rpm, pump: self.pump.spec_update(delta_time, line.loop_pressure, rpm), ..self }
    }

    /// A stopped pump at rest.
    pub fn new() -> (p: ElectricPump)
        ensures
            p.wf(),
            p.at_rest(),
    {
        proof {
            lemma_displacement_table_valid(
                ELECTRIC_FULL_DISPLACEMENT,
                ELECTRIC_REDUCED_DISPLACEMENT,
            );
        }
        ElectricPump {
            active: false,
            rpm: Fixed::new(0),
            pump: Pump::new(
                displacement_breakpoint_table(),
                displacement_map_table(ELECTRIC_FULL_DISPLACEMENT, ELECTRIC_REDUCED_DISPLACEMENT),
                Fixed::new(ELECTRIC_DISPLACEMENT_DYNAMICS),
            ),
        }
    }

    /// Commands the pump to run. The speed follows at the next updates.
    pub fn start(&mut self)
        ensures
            *final(self) == (ElectricPump { active: true, ..*old(self) }),
    {
        self.active = true;
    }

    /// Commands the pump to stop. The speed follows at the next updates.
    pub fn stop(&mut self)
        ensures
            *final(self) == (ElectricPump { active: false, ..*old(self) }),
    {
        self.active = false;
    }

    pub fn is_active(&self) -> (b: bool)
        ensures
            b == self.active,
    {
        self.active
    }

    /// Advances the speed by `delta_time` seconds and publishes what the
    /// pump can deliver against the pressure of `line`.
    pub fn update(&mut self, delta_time: Fixed, line: &HydLoop)
        requires
            old(self).pump.wf(),
            delta_time.raw >= 0,
        ensures
            *final(self) == old(self).spec_update(delta_time, line),
            final(self).wf(),
    {
        if self.active && self.rpm.raw < NOMINAL_SPEED {
            self.rpm = self.rpm.plus(
                Fixed::new(NOMINAL_SPEED).over(Fixed::new(SPOOLUP_TIME)).times(delta_time),
            );
        } else if !self.active && self.rpm.raw > 0 {
            self.rpm = self.rpm.minus(
                Fixed::new(NOMINAL_SPEED).over(Fixed::new(SPOOLDOWN_TIME)).times(delta_time),
            );
        }
        self.rpm = self.rpm.min(Fixed::new(NOMINAL_SPEED)).max(Fixed::new(0));
        self.pump.update(delta_time, line.get_pressure(), self.rpm);
    }
}

impl PressureSource for ElectricPump {
    open spec fn spec_delta_vol_max(&self) -> Fixed {
        self.pump.delta_vol_max
    }

    open spec fn spec_delta_vol_min(&self) -> Fixed {
        self.pump.delta_vol_min
    }

    fn get_delta_vol_max(&self) -> (v: Fixed) {
        self.pump.get_delta_vol_max()
    }

    fn get_delta_vol_min(&self) -> (v: Fixed) {
        self.pump.get_delta_vol_min()
    }
}

/// Largest speed of an engine-driven pump, 4000 rpm.
pub const MAX_RPM: i64 = 4_000_000_000_000;

/// Pump speed, as a share of `MAX_RPM` in percent, per squared percent of
/// engine speed.
pub const RPM_PER_SQUARED_N2: i64 = 80_000_000;

/// One hundred percent.
pub const PERCENT: i64 = 100_000_000_000;

/// Displacement of an engine-driven pump up to 2900 psi, 2.4 cubic inches
/// per revolution.
pub const ENGINE_DRIVEN_FULL_DISPLACEMENT: i64 = 2_400_000_000;

/// Displacement of an engine-driven pump at 3000 psi.
pub const ENGINE_DRIVEN_REDUCED_DISPLACEMENT: i64 = 2_000_000_000;

/// Filter coefficient of an engine-driven pump, 0.05: a slow transient.
pub const ENGINE_DRIVEN_DISPLACEMENT_DYNAMICS: i64 = 50_000_000;

pub struct EngineDrivenPump {
    pub active: bool,
    pub pump: Pump,
}

impl EngineDrivenPump {
    pub open spec fn wf(&self) -> bool {
        self.pump.wf()
    }

    /// The pump as it is built: not active, delivering nothing, with the
    /// curve and the filter of an engine-driven pump.
    pub open spec fn at_rest(&self) -> bool {
        &&& !self.active
        &&& self.pump.delta_vol_max.raw == 0
        &&& self.pump.delta_vol_min.raw == 0
        &&& self.pump.press_breakpoints@ == displacement_breakpoints()
        &&& self.pump.displacement_carac@ == displacement_map(
            ENGINE_DRIVEN_FULL_DISPLACEMENT,
            ENGINE_DRIVEN_REDUCED_DISPLACEMENT,
        )
        &&& self.pump.displacement_dynamic.raw == ENGINE_DRIVEN_DISPLACEMENT_DYNAMICS
    }

    /// Speed of the pump: nothing when it is not active, else a quadratic
    /// function of the engine speed `n2` in percent, capped at `MAX_RPM`.
    pub open spec fn spec_rpm(active: bool, n2: Fixed) -> Fixed {
        if !active {
            Fixed::new(0)
        } else {
            Fixed::new(MAX_RPM).min(
                n2.times(n2).times(Fixed::new(RPM_PER_SQUARED_N2)).times(Fixed::new(MAX_RPM)).over(
                    Fixed::new(PERCENT),
                ),
            )
        }
    }

    pub open spec fn spec_update(
        self,
        delta_time: Fixed,
        line: &HydLoop,
        engine: &Engine,
    ) -> EngineDrivenPump {
        EngineDrivenPump {
            pump: self.pump.spec_update(
                delta_time,
                line.loop_pressure,
                EngineDrivenPump::spec_rpm(self.active, engine.n2),
            ),
            ..self
        }
    }

    /// A pump that is not active.
    pub fn new() -> (p: EngineDrivenPump)
        ensures
            p.wf(),
            p.at_rest(),
    {
        proof {
            lemma_displacement_table_valid(
                ENGINE_DRIVEN_FULL_DISPLACEMENT,
                ENGINE_DRIVEN_REDUCED_DISPLACEMENT,
            );
        }
        EngineDrivenPump {
            active: false,
            pump: Pump::new(
                displacement_breakpoint_table(),
                displacement_map_table(
                    ENGINE_DRIVEN_FULL_DISPLACEMENT,
                    ENGINE_DRIVEN_REDUCED_DISPLACEMENT,
                ),
                Fixed::new(ENGINE_DRIVEN_DISPLACEMENT_DYNAMICS),
            ),
        }
    }

    /// Publishes what the pump can deliver in `delta_time` seconds against
    /// the pressure of `line`, driven by `engine`.
    pub fn update(&mut self, delta_time: Fixed, line: &HydLoop, engine: &Engine)
        requires
            old(self).wf(),
            delta_time.raw >= 0,
        ensures
            *final(self) == old(self).spec_update(delta_time, line, engine),
            final(self).wf(),
    {
        let mut rpm = Fixed::new(MAX_RPM).min(
            engine.n2.times(engine.n2).times(Fixed::new(RPM_PER_SQUARED_N2)).times(
                Fixed::new(MAX_RPM),
            ).over(Fixed::new(PERCENT)),
        );
        if !self.active {
            rpm = Fixed::new(0);
        }
        proof {
            lemma_engine_driven_rpm_non_negative(self.active, engine.n2);
        }
        self.pump.update(delta_time, line.get_pressure(), rpm);
    }

    pub fn start(&mut self)
        ensures
            *final(self) == (EngineDrivenPump { active: true, ..*old(self) }),
    {
        self.active = true;
    }

    pub fn stop(&mut self)
        ensures
            *final(self) == (EngineDrivenPump { active: false, ..*old(self) }),
    {
        self.active = false;
    }

    pub fn is_active(&self) -> (b: bool)
        ensures
            b == self.active,
    {
        self.active
    }
}

impl PressureSource for EngineDrivenPump {
    open spec fn spec_delta_vol_max(&self) -> Fixed {
        self.pump.delta_vol_max
    }

    open spec fn spec_delta_vol_min(&self) -> Fixed {
        self.pump.delta_vol_min
    }

    fn get_delta_vol_min(&self) -> (v: Fixed) {
        self.pump.get_delta_vol_min()
    }

    fn get_delta_vol_max(&self) -> (v: Fixed) {
        self.pump.get_delta_vol_max()
    }
}

/// An engine-driven pump never turns backwards, whatever the engine speed.
pub proof fn lemma_engine_driven_rpm_non_negative(active: bool, n2: Fixed)
    ensures
        EngineDrivenPump::spec_rpm(active, n2).raw >= 0,
{
    if active {
        assert(n2.raw * n2.raw >= 0) by (nonlinear_arith);
        let square = n2.spec_times(n2);
        assert(square.raw >= 0);
        lemma_times_non_negative(square, Fixed::new(RPM_PER_SQUARED_N2));
        let scaled = square.spec_times(Fixed::new(RPM_PER_SQUARED_N2));
        lemma_times_non_negative(scaled, Fixed::new(MAX_RPM));
        lemma_over_non_negative(scaled.spec_times(Fixed::new(MAX_RPM)), Fixed::new(PERCENT));
    }
}

/// Speed of a deployed ram-air turbine pump, 6000 rpm.
pub const NORMAL_RPM: i64 = 6_000_000_000_000;

/// Displacement of a ram-air turbine pump up to 2900 psi, 1.15 cubic inches
/// per revolution.
pub const RAT_FULL_DISPLACEMENT: i64 = 1_150_000_000;

/// Displacement of a ram-air turbine pump at 3000 psi.
pub const RAT_REDUCED_DISPLACEMENT: i64 = 900_000_000;

/// Filter coefficient of a ram-air turbine pump: no filtering.
pub const RAT_DISPLACEMENT_DYNAMICS: i64 = 1_000_000_000;

pub struct RatPump {
    pub active: bool,
    pub pump: Pump,
}

impl RatPump {
    pub open spec fn wf(&self) -> bool {
        self.pump.wf()
    }

    /// The pump as it is built: not deployed, delivering nothing, with the
    /// curve and the filter of a ram-air turbine pump.
    pub open spec fn at_rest(&self) -> bool {
        &&& !self.active
        &&& self.pump.delta_vol_max.raw == 0
        &&& self.pump.delta_vol_min.raw == 0
        &&& self.pump.press_breakpoints@ == displacement_breakpoints()
        &&& self.pump.displacement_carac@ == displacement_map(
            RAT_FULL_DISPLACEMENT,
            RAT_REDUCED_DISPLACEMENT,
        )
        &&& self.pump.displacement_dynamic.raw == RAT_DISPLACEMENT_DYNAMICS
    }

    /// The pump after a step at its normal speed, which it keeps whether
    /// it is deployed or not.
    pub open spec fn spec_update(self, delta_time: Fixed, line: &HydLoop) -> RatPump {
        RatPump {
            pump: self.pump.spec_update(delta_time, line.loop_pressure, Fixed::new(NORMAL_RPM)),
            ..self
        }
    }

    pub fn new() -> (p: RatPump)
        ensures
            p.wf(),
            p.at_rest(),
    {
        proof {
            lemma_displacement_table_valid(RAT_FULL_DISPLACEMENT, RAT_REDUCED_DISPLACEMENT);
        }
        RatPump {
            active: false,
            pump: Pump::new(
                displacement_breakpoint_table(),
                displacement_map_table(RAT_FULL_DISPLACEMENT, RAT_REDUCED_DISPLACEMENT),
                Fixed::new(RAT_DISPLACEMENT_DYNAMICS),
            ),
        }
    }

    /// Publishes what the pump can deliver in `delta_time` seconds against
    /// the pressure of `line`, at its normal speed.
    pub fn update(&mut self, delta_time: Fixed, line: &HydLoop)
        requires
            old(self).wf(),
            delta_time.raw >= 0,
        ensures
            *final(self) == old(self).spec_update(delta_time, line),
            final(self).wf(),
    {
        self.pump.update(delta_time, line.get_pressure(), Fixed::new(NORMAL_RPM));
    }
}

impl PressureSource for RatPump {
    open spec fn spec_delta_vol_max(&self) -> Fixed {
        self.pump.delta_vol_max
    }

    open spec fn spec_delta_vol_min(&self) -> Fixed {
        self.pump.delta_vol_min
    }

    fn get_delta_vol_max(&self) -> (v: Fixed) {
        self.pump.get_delta_vol_max()
    }

    fn get_delta_vol_min(&self) -> (v: Fixed) {
        self.pump.get_delta_vol_min()
    }
}

/// Pressure up to which every pump keeps its full displacement, 2900 psi.
pub const FULL_DISPLACEMENT_PRESSURE: i64 = 2_900_000_000_000;

/// Displacement against `pressure` of a pump with the curve
/// `displacement_map(full, reduced)`.
pub open spec fn spec_curve_displacement(full: i64, reduced: i64, pressure: Fixed) -> Fixed {
    interpolated(displacement_breakpoints(), displacement_map(full, reduced), pressure)
}

/// From 2900 psi on the curve falls in three stretches: from `full` to
/// `reduced` up to 3000 psi, from `reduced` to nothing up to 3050 psi, and
/// nothing beyond.
proof fn lemma_curve_stretches(full: i64, reduced: i64, pressure: Fixed)
    requires
        0 <= reduced <= full,
        pressure.raw >= FULL_DISPLACEMENT_PRESSURE,
    ensures
        pressure.raw < 3_000_000_000_000 ==> {
            &&& spec_curve_displacement(full, reduced, pressure).raw == on_line(
                2_900_000_000_000,
                full as int,
                3_000_000_000_000,
                reduced as int,
                pressure.raw as int,
            )
            &&& reduced <= spec_curve_displacement(full, reduced, pressure).raw <= full
        },
        3_000_000_000_000 <= pressure.raw < 3_050_000_000_000 ==> {
            &&& spec_curve_displacement(full, reduced, pressure).raw == on_line(
                3_000_000_000_000,
                reduced as int,
                3_050_000_000_000,
                0,
                pressure.raw as int,
            )
            &&& 0 <= spec_curve_displacement(full, reduced, pressure).raw <= reduced
        },
        pressure.raw >= 3_050_000_000_000 ==> spec_curve_displacement(full, reduced, pressure).raw
            == 0,
{
    let xs = displacement_breakpoints();
    let ys = displacement_map(full, reduced);
    lemma_displacement_table_valid(full, reduced);
    assert(xs.len() == 9 && ys.len() == 9);
    assert(xs[0].raw == 0 && xs[5].raw == 2_900_000_000_000 && xs[6].raw == 3_000_000_000_000
        && xs[7].raw == 3_050_000_000_000 && xs[8].raw == 3_500_000_000_000);
    assert(ys[5].raw == full && ys[6].raw == reduced && ys[7].raw == 0 && ys[8].raw == 0);
    let x = pressure.raw as int;
    if x < 3_000_000_000_000 {
        assert(in_segment(xs, pressure, 6));
        lemma_segment_unique(xs, pressure, 6);
        lemma_on_line_between(2_900_000_000_000, full as int, 3_000_000_000_000, reduced as int, x);
    } else if x < 3_050_000_000_000 {
        assert(in_segment(xs, pressure, 7));
        lemma_segment_unique(xs, pressure, 7);
        lemma_on_line_between(3_000_000_000_000, reduced as int, 3_050_000_000_000, 0, x);
    } else if x < 3_500_000_000_000 {
        assert(in_segment(xs, pressure, 8));
        lemma_segment_unique(xs, pressure, 8);
        lemma_on_line_between(3_050_000_000_000, 0, 3_500_000_000_000, 0, x);
    } else {
    }
}

/// From 2900 psi on, a higher loop pressure gives no larger displacement.
pub proof fn lemma_displacement_non_increasing(
    full: i64,
    reduced: i64,
    pressure1: Fixed,
    pressure2: Fixed,
)
    requires
        0 <= reduced <= full,
        FULL_DISPLACEMENT_PRESSURE <= pressure1.raw <= pressure2.raw,
    ensures
        spec_curve_displacement(full, reduced, pressure2).raw <= spec_curve_displacement(
            full,
            reduced,
            pressure1,
        ).raw,
{
    lemma_curve_stretches(full, reduced, pressure1);
    lemma_curve_stretches(full, reduced, pressure2);
    let x1 = pressure1.raw as int;
    let x2 = pressure2.raw as int;
    if x2 < 3_000_000_000_000 {
        lemma_on_line_non_increasing(
            2_900_000_000_000,
            full as int,
            3_000_000_000_000,
            reduced as int,
            x1,
            x2,
        );
    } else if 3_000_000_000_000 <= x1 && x2 < 3_050_000_000_000 {
        lemma_on_line_non_increasing(
            3_000_000_000_000,
            reduced as int,
            3_050_000_000_000,
            0,
            x1,
            x2,
        );
    }
}

/// A larger displacement gives no smaller flow, for a pump that does not
/// turn backwards.
pub proof fn lemma_flow_monotone(rpm: Fixed, displacement1: Fixed, displacement2: Fixed)
    requires
        rpm.raw >= 0,
        displacement1.raw <= displacement2.raw,
    ensures
        spec_calculate_flow(rpm, displacement1).raw <= spec_calculate_flow(rpm, displacement2).raw,
{
    lemma_times_monotone(displacement1, displacement2, rpm);
    lemma_over_monotone(
        rpm.spec_times(displacement1),
        rpm.spec_times(displacement2),
        Fixed::new(CUBIC_INCHES_PER_GALLON),
    );
    lemma_over_monotone(
        rpm.spec_times(displacement1).spec_over(Fixed::new(CUBIC_INCHES_PER_GALLON)),
        rpm.spec_times(displacement2).spec_over(Fixed::new(CUBIC_INCHES_PER_GALLON)),
        Fixed::new(SECONDS_PER_MINUTE),
    );
}

/// Monotone displacement: at a fixed speed, what a pump can deliver in a
/// step does not grow with the loop pressure from 2900 psi on.
///
/// This holds of every pump whose curve is flat up to 2900 psi and falls
/// from there, as the curves of the electric, engine-driven and ram-air
/// pumps do.
pub proof fn lemma_monotone_displacement(
    pump: Pump,
    full: i64,
    reduced: i64,
    delta_time: Fixed,
    rpm: Fixed,
    pressure1: Fixed,
    pressure2: Fixed,
)
    requires
        pump.press_breakpoints@ == displacement_breakpoints(),
        pump.displacement_carac@ == displacement_map(full, reduced),
        0 <= reduced <= full,
        pump.displacement_dynamic.raw >= 0,
        delta_time.raw >= 0,
        rpm.raw >= 0,
        FULL_DISPLACEMENT_PRESSURE <= pressure1.raw <= pressure2.raw,
    ensures
        pump.spec_update(delta_time, pressure2, rpm).delta_vol_max.raw <= pump.spec_update(
            delta_time,
            pressure1,
            rpm,
        ).delta_vol_max.raw,
{
    lemma_displacement_non_increasing(full, reduced, pressure1, pressure2);
    let d1 = pump.spec_calculate_displacement(pressure1);
    let d2 = pump.spec_calculate_displacement(pressure2);
    assert(d1 == spec_curve_displacement(full, reduced, pressure1));
    assert(d2 == spec_curve_displacement(full, reduced, pressure2));
    lemma_flow_monotone(rpm, d2, d1);
    lemma_times_monotone(spec_calculate_flow(rpm, d2), spec_calculate_flow(rpm, d1), delta_time);
    lemma_low_pass_monotone(
        pump.displacement_dynamic,
        spec_calculate_flow(rpm, d2).spec_times(delta_time),
        spec_calculate_flow(rpm, d1).spec_times(delta_time),
        pump.delta_vol_max,
    );
}

/// Monotone displacement of the electric pump: at the speed that it has
/// reached, it can deliver no more against a higher loop pressure, from
/// 2900 psi on.
pub proof fn lemma_electric_pump_monotone(
    pump: ElectricPump,
    delta_time: Fixed,
    line1: &HydLoop,
    line2: &HydLoop,
)
    requires
        pump.pump.press_breakpoints@ == displacement_breakpoints(),
        pump.pump.displacement_carac@ == displacement_map(
            ELECTRIC_FULL_DISPLACEMENT,
            ELECTRIC_REDUCED_DISPLACEMENT,
        ),
        pump.pump.displacement_dynamic.raw >= 0,
        delta_time.raw >= 0,
        FULL_DISPLACEMENT_PRESSURE <= line1.loop_pressure.raw <= line2.loop_pressure.raw,
    ensures
        pump.spec_update(delta_time, line2).spec_delta_vol_max().raw <= pump.spec_update(
            delta_time,
            line1,
        ).spec_delta_vol_max().raw,
{
    lemma_monotone_displacement(
        pump.pump,
        ELECTRIC_FULL_DISPLACEMENT,
        ELECTRIC_REDUCED_DISPLACEMENT,
        delta_time,
        ElectricPump::spec_next_rpm(pump.active, pump.rpm, delta_time),
        line1.loop_pressure,
        line2.loop_pressure,
    );
}

/// Monotone displacement of the engine-driven pump: at a given engine
/// speed, it can deliver no more against a higher loop pressure, from
/// 2900 psi on.
pub proof fn lemma_engine_driven_pump_monotone(
    pump: EngineDrivenPump,
    delta_time: Fixed,
    line1: &HydLoop,
    line2: &HydLoop,
    engine: &Engine,
)
    requires
        pump.pump.press_breakpoints@ == displacement_breakpoints(),
        pump.pump.displacement_carac@ == displacement_map(
            ENGINE_DRIVEN_FULL_DISPLACEMENT,
            ENGINE_DRIVEN_REDUCED_DISPLACEMENT,
        ),
        pump.pump.displacement_dynamic.raw >= 0,
        delta_time.raw >= 0,
        FULL_DISPLACEMENT_PRESSURE <= line1.loop_pressure.raw <= line2.loop_pressure.raw,
    ensures
        pump.spec_update(delta_time, line2, engine).spec_delta_vol_max().raw <= pump.spec_update(
            delta_time,
            line1,
            engine,
        ).spec_delta_vol_max().raw,
{
    lemma_engine_driven_rpm_non_negative(pump.active, engine.n2);
    lemma_monotone_displacement(
        pump.pump,
        ENGINE_DRIVEN_FULL_DISPLACEMENT,
        ENGINE_DRIVEN_REDUCED_DISPLACEMENT,
        delta_time,
        EngineDrivenPump::spec_rpm(pump.active, engine.n2),
        line1.loop_pressure,
        line2.loop_pressure,
    );
}

/// Monotone displacement of the ram-air turbine pump: it can deliver no
/// more against a higher loop pressure, from 2900 psi on.
pub proof fn lemma_rat_pump_monotone(
    pump: RatPump,
    delta_time: Fixed,
    line1: &HydLoop,
    line2: &HydLoop,
)
    requires
        pump.pump.press_breakpoints@ == displacement_breakpoints(),
        pump.pump.displacement_carac@ == displacement_map(
            RAT_FULL_DISPLACEMENT,
            RAT_REDUCED_DISPLACEMENT,
        ),
        pump.pump.displacement_dynamic.raw >= 0,
        delta_time.raw >= 0,
        FULL_DISPLACEMENT_PRESSURE <= line1.loop_pressure.raw <= line2.loop_pressure.raw,
    ensures
        pump.spec_update(delta_time, line2).spec_delta_vol_max().raw <= pump.spec_update(
            delta_time,
            line1,
        ).spec_delta_vol_max().raw,
{
    lemma_monotone_displacement(
        pump.pump,
        RAT_FULL_DISPLACEMENT,
        RAT_REDUCED_DISPLACEMENT,
        delta_time,
        Fixed::new(NORMAL_RPM),
        line1.loop_pressure,
        line2.loop_pressure,
    );
}

/// A table without negative values gives no negative value anywhere.
pub proof fn lemma_interpolated_non_negative(xs: Seq<Fixed>, ys: Seq<Fixed>, x: Fixed)
    requires
        valid_table(xs, ys),
        non_negative(ys),
    ensures
        interpolated(xs, ys, x).raw >= 0,
{
    if x.raw <= xs[0].raw {
    } else if x.raw >= xs[xs.len() - 1].raw {
    } else {
        lemma_segment_exists(xs, x);
        let i = segment_of(xs, x);
        lemma_on_line_between(
            xs[i - 1].raw as int,
            ys[i - 1].raw as int,
            xs[i].raw as int,
            ys[i].raw as int,
            x.raw as int,
        );
    }
}

/// A value strictly between the first and the last breakpoint lies in some
/// segment.
pub proof fn lemma_segment_exists(xs: Seq<Fixed>, x: Fixed)
    requires
        xs.len() >= 2,
        xs[0].raw < x.raw < xs[xs.len() - 1].raw,
    ensures
        in_segment(xs, x, segment_of(xs, x)),
{
    lemma_segment_exists_from(xs, x, 1);
}

proof fn lemma_segment_exists_from(xs: Seq<Fixed>, x: Fixed, i: int)
    requires
        1 <= i < xs.len(),
        xs[i - 1].raw <= x.raw < xs[xs.len() - 1].raw,
    ensures
        exists|j: int| in_segment(xs, x, j),
    decreases xs.len() - i,
{
    if x.raw < xs[i].raw {
        assert(in_segment(xs, x, i));
    } else {
        lemma_segment_exists_from(xs, x, i + 1);
    }
}

/// A pump that does not turn backwards and has no negative displacement
/// gives no negative flow.
pub proof fn lemma_flow_non_negative(rpm: Fixed, displacement: Fixed)
    requires
        rpm.raw >= 0,
        displacement.raw >= 0,
    ensures
        spec_calculate_flow(rpm, displacement).raw >= 0,
{
    lemma_times_non_negative(rpm, displacement);
    lemma_over_non_negative(rpm.spec_times(displacement), Fixed::new(CUBIC_INCHES_PER_GALLON));
    lemma_over_non_negative(
        rpm.spec_times(displacement).spec_over(Fixed::new(CUBIC_INCHES_PER_GALLON)),
        Fixed::new(SECONDS_PER_MINUTE),
    );
}

} // verus!
