//! The hydraulic system of the aircraft: three loops, their pumps and the
//! power transfer unit, advanced at a fixed step whatever the frame rate of
//! the host.
use vstd::prelude::*;
use crate::fixed::Fixed;
use crate::hyd_loop::{HydFluid, HydLoop, LoopColor};
use crate::overhead::{AutoOffFaultPushButton, OnOffFaultPushButton};
use crate::ptu::Ptu;
use crate::pump::{ElectricPump, EngineDrivenPump};
use crate::simulation::{Engine, UpdateContext};

verus! {

/// Loop pressure from which a loop counts as pressurised, 300 psi.
pub const MIN_PRESS_PRESSURISED: i64 = 300_000_000_000;

/// Step of the hydraulic simulation, in nanoseconds: 100 ms.
pub const HYDRAULIC_SIM_TIME_STEP: u64 = 100_000_000;

/// Steps of the actuators per step of the hydraulics.
pub const ACTUATORS_SIM_TIME_STEP_MULT: u64 = 2;

/// Bulk modulus of the fluid, 1.45 GPa, in psi.
pub const FLUID_BULK_MODULUS: i64 = 210_304_728_651_061;

/// What the hydraulic logic knows of the rest of the aircraft.
#[derive(Clone, Copy)]
pub struct A320HydraulicLogic {
    pub parking_brake_applied: bool,
    pub weight_on_wheels: bool,
    pub eng_1_master_on: bool,
    pub eng_2_master_on: bool,
    pub nws_tow_engaged: bool,
    pub cargo_door_operation: bool,
}

impl A320HydraulicLogic {
    /// The aircraft is parked on the ground with its engines off, is not
    /// towed and has no cargo door moving.
    pub open spec fn parked(&self) -> bool {
        &&& self.parking_brake_applied
        &&& self.weight_on_wheels
        &&& !self.eng_1_master_on
        &&& !self.eng_2_master_on
        &&& !self.nws_tow_engaged
        &&& !self.cargo_door_operation
    }

    /// An aircraft parked on the ground with its engines off.
    pub fn new() -> (l: A320HydraulicLogic)
        ensures
            l.parked(),
    {
        A320HydraulicLogic {
            parking_brake_applied: true,
            weight_on_wheels: true,
            eng_1_master_on: false,
            eng_2_master_on: false,
            nws_tow_engaged: false,
            cargo_door_operation: false,
        }
    }
}

pub struct A320HydraulicOverheadPanel {
    pub edp1_push_button: AutoOffFaultPushButton,
    pub edp2_push_button: AutoOffFaultPushButton,
    pub blue_epump_push_button: AutoOffFaultPushButton,
    pub ptu_push_button: AutoOffFaultPushButton,
    pub rat_push_button: OnOffFaultPushButton,
    pub yellow_epump_push_button: OnOffFaultPushButton,
}

impl A320HydraulicOverheadPanel {
    /// The panel as the crew finds it: engine pumps, blue electric pump and
    /// transfer unit in automatic, ram-air turbine and yellow electric pump
    /// off.
    pub fn new() -> (p: A320HydraulicOverheadPanel)
        ensures
            p.edp1_push_button.auto && !p.edp1_push_button.fault,
            p.edp2_push_button.auto && !p.edp2_push_button.fault,
            p.blue_epump_push_button.auto && !p.blue_epump_push_button.fault,
            p.ptu_push_button.auto && !p.ptu_push_button.fault,
            !p.rat_push_button.on && !p.rat_push_button.fault,
            !p.yellow_epump_push_button.on && !p.yellow_epump_push_button.fault,
    {
        A320HydraulicOverheadPanel {
            edp1_push_button: AutoOffFaultPushButton::new_auto(),
            edp2_push_button: AutoOffFaultPushButton::new_auto(),
            blue_epump_push_button: AutoOffFaultPushButton::new_auto(),
            ptu_push_button: AutoOffFaultPushButton::new_auto(),
            rat_push_button: OnOffFaultPushButton::new_off(),
            yellow_epump_push_button: OnOffFaultPushButton::new_off(),
        }
    }

    /// The panel has no state of its own to advance.
    pub fn update(&mut self, context: &UpdateContext)
        ensures
            *final(self) == *old(self),
    {
    }
}

/// The transfer unit may run: its push-button is in automatic, the aircraft
/// is in a state that allows it, and no cargo door is being operated with
/// the yellow electric pump push-button off.
pub open spec fn spec_ptu_enabled(
    logic: A320HydraulicLogic,
    overhead_panel: &A320HydraulicOverheadPanel,
) -> bool {
    let ptu_inhibit = logic.cargo_door_operation && !overhead_panel.yellow_epump_push_button.on;
    overhead_panel.ptu_push_button.auto && (logic.weight_on_wheels || (logic.eng_1_master_on
        && logic.eng_2_master_on) || (!logic.eng_1_master_on && !logic.eng_2_master_on) || (
    !logic.parking_brake_applied && !logic.nws_tow_engaged)) && !ptu_inhibit
}

/// Whole steps in a time to catch up with, in nanoseconds.
pub open spec fn spec_steps(time_to_catch: int) -> int {
    time_to_catch / (HYDRAULIC_SIM_TIME_STEP as int)
}

/// What is left of a time to catch up with after its whole steps.
pub open spec fn spec_lag(time_to_catch: int) -> int {
    time_to_catch % (HYDRAULIC_SIM_TIME_STEP as int)
}

/// Splits the time of a frame and the lag carried over from the frames
/// before it into whole simulation steps and the lag to carry on.
pub fn split_time(delta: u64, lag_time_accumulator: u64) -> (r: (u64, u64))
    ensures
        r.0 == spec_steps(delta + lag_time_accumulator),
        r.1 == spec_lag(delta + lag_time_accumulator),
        r.0 * HYDRAULIC_SIM_TIME_STEP + r.1 == delta + lag_time_accumulator,
        r.1 < HYDRAULIC_SIM_TIME_STEP,
{
    let time_to_catch: u128 = delta as u128 + lag_time_accumulator as u128;
    let steps: u128 = time_to_catch / (HYDRAULIC_SIM_TIME_STEP as u128);
    let lag: u128 = time_to_catch % (HYDRAULIC_SIM_TIME_STEP as u128);
    proof {
        vstd::arithmetic::div_mod::lemma_fundamental_div_mod(
            time_to_catch as int,
            HYDRAULIC_SIM_TIME_STEP as int,
        );
        assert(steps * HYDRAULIC_SIM_TIME_STEP == HYDRAULIC_SIM_TIME_STEP * steps)
            by (nonlinear_arith);
    }
    (steps as u64, lag as u64)
}

pub struct A320Hydraulic {
    pub hyd_logic_inputs: A320HydraulicLogic,
    pub blue_loop: HydLoop,
    pub green_loop: HydLoop,
    pub yellow_loop: HydLoop,
    pub engine_driven_pump_1: EngineDrivenPump,
    pub engine_driven_pump_2: EngineDrivenPump,
    pub blue_electric_pump: ElectricPump,
    pub yellow_electric_pump: ElectricPump,
    pub ptu: Ptu,
    /// Time that the host has asked to simulate, in nanoseconds.
    pub total_sim_time_elapsed: u64,
    /// Part of that time that has not been simulated yet, in nanoseconds.
    pub lag_time_accumulator: u64,
}

impl A320Hydraulic {
    /// Every loop, pump and the transfer unit is well formed, and less than
    /// one step is waiting to be simulated.
    pub open spec fn wf(&self) -> bool {
        &&& self.blue_loop.wf()
        &&& self.green_loop.wf()
        &&& self.yellow_loop.wf()
        &&& self.engine_driven_pump_1.wf()
        &&& self.engine_driven_pump_2.wf()
        &&& self.blue_electric_pump.wf()
        &&& self.yellow_electric_pump.wf()
        &&& self.ptu.wf()
        &&& self.lag_time_accumulator < HYDRAULIC_SIM_TIME_STEP
    }

    /// The three loops of the aircraft at rest, with their pumps stopped and
    /// the transfer unit disabled. The green loop hangs on the left side of
    /// the transfer unit, the yellow loop on its right side.
    pub fn new() -> (h: A320Hydraulic)
        ensures
            h.wf(),
            h.total_sim_time_elapsed == 0,
            h.lag_time_accumulator == 0,
            h.hyd_logic_inputs.parked(),
            h.blue_loop.at_rest() && h.green_loop.at_rest() && h.yellow_loop.at_rest(),
            h.blue_loop.fluid.current_bulk.raw == FLUID_BULK_MODULUS,
            h.green_loop.fluid.current_bulk.raw == FLUID_BULK_MODULUS,
            h.yellow_loop.fluid.current_bulk.raw == FLUID_BULK_MODULUS,
            h.engine_driven_pump_1.at_rest() && h.engine_driven_pump_2.at_rest(),
            h.blue_electric_pump.at_rest() && h.yellow_electric_pump.at_rest(),
            h.ptu.at_rest(),
            h.green_loop.connected_to_ptu_left_side,
            h.yellow_loop.connected_to_ptu_right_side,
            !h.blue_loop.connected_to_ptu_left_side && !h.blue_loop.connected_to_ptu_right_side,
            h.blue_loop.color == LoopColor::Blue,
            h.green_loop.color == LoopColor::Green,
            h.yellow_loop.color == LoopColor::Blue,
            h.blue_loop.reservoir_volume.raw == 1_500_000_000,
            h.green_loop.reservoir_volume.raw == 3_300_000_000,
            h.yellow_loop.reservoir_volume.raw == 3_830_000_000,
            h.blue_loop.loop_volume.raw == 15_850_000_000,
            h.blue_loop.max_loop_volume.raw == 15_850_000_000,
            h.green_loop.loop_volume.raw == 10_200_000_000,
            h.green_loop.max_loop_volume.raw == 10_200_000_000,
            h.yellow_loop.loop_volume.raw == 26_000_000_000,
            h.yellow_loop.max_loop_volume.raw == 26_410_000_000,
            h.blue_loop.high_pressure_volume.raw == 8_000_000_000,
            h.green_loop.high_pressure_volume.raw == 8_000_000_000,
            h.yellow_loop.high_pressure_volume.raw == 10_000_000_000,
    {
        A320Hydraulic {
            hyd_logic_inputs: A320HydraulicLogic::new(),
            blue_loop: HydLoop::new(
                LoopColor::Blue,
                false,
                false,
                Fixed::new(15_850_000_000),
                Fixed::new(15_850_000_000),
                Fixed::new(8_000_000_000),
                Fixed::new(1_500_000_000),
                HydFluid::new(Fixed::new(FLUID_BULK_MODULUS)),
            ),
            green_loop: HydLoop::new(
                LoopColor::Green,
                true,
                false,
                Fixed::new(10_200_000_000),
                Fixed::new(10_200_000_000),
                Fixed::new(8_000_000_000),
                Fixed::new(3_300_000_000),
                HydFluid::new(Fixed::new(FLUID_BULK_MODULUS)),
            ),
            yellow_loop: HydLoop::new(
                LoopColor::Blue,
                false,
                true,
                Fixed::new(26_000_000_000),
                Fixed::new(26_410_000_000),
                Fixed::new(10_000_000_000),
                Fixed::new(3_830_000_000),
                HydFluid::new(Fixed::new(FLUID_BULK_MODULUS)),
            ),
            engine_driven_pump_1: EngineDrivenPump::new(),
            engine_driven_pump_2: EngineDrivenPump::new(),
            blue_electric_pump: ElectricPump::new(),
            yellow_electric_pump: ElectricPump::new(),
            ptu: Ptu::new(),
            total_sim_time_elapsed: 0,
            lag_time_accumulator: 0,
        }
    }

    pub fn is_blue_pressurised(&self) -> (r: bool)
        ensures
            r == (self.blue_loop.loop_pressure.raw >= MIN_PRESS_PRESSURISED),
    {
        self.blue_loop.get_pressure().raw >= MIN_PRESS_PRESSURISED
    }

    pub fn is_green_pressurised(&self) -> (r: bool)
        ensures
            r == (self.green_loop.loop_pressure.raw >= MIN_PRESS_PRESSURISED),
    {
        self.green_loop.get_pressure().raw >= MIN_PRESS_PRESSURISED
    }

    pub fn is_yellow_pressurised(&self) -> (r: bool)
        ensures
            r == (self.yellow_loop.loop_pressure.raw >= MIN_PRESS_PRESSURISED),
    {
        self.yellow_loop.get_pressure().raw >= MIN_PRESS_PRESSURISED
    }

    /// The system after the push-buttons have been read: each pump is
    /// commanded as its push-button stands, and the transfer unit is enabled
    /// or disabled. The yellow electric pump runs with its push-button off
    /// and stops with it on.
    pub open spec fn spec_update_hyd_logic_inputs(
        self,
        overhead_panel: &A320HydraulicOverheadPanel,
    ) -> A320Hydraulic {
        A320Hydraulic {
            engine_driven_pump_1: EngineDrivenPump {
                active: overhead_panel.edp1_push_button.auto,
                ..self.engine_driven_pump_1
            },
            engine_driven_pump_2: EngineDrivenPump {
                active: overhead_panel.edp2_push_button.auto,
                ..self.engine_driven_pump_2
            },
            yellow_electric_pump: ElectricPump {
                active: !overhead_panel.yellow_epump_push_button.on,
                ..self.yellow_electric_pump
            },
            blue_electric_pump: ElectricPump {
                active: overhead_panel.blue_epump_push_button.auto,
                ..self.blue_electric_pump
            },
            ptu: Ptu {
                is_enabled: spec_ptu_enabled(self.hyd_logic_inputs, overhead_panel),
                ..self.ptu
            },
            ..self
        }
    }

    /// Commands the pumps and the transfer unit as the overhead panel and
    /// the state of the aircraft ask.
    pub fn update_hyd_logic_inputs(
        &mut self,
        ct: &UpdateContext,
        overhead_panel: &A320HydraulicOverheadPanel,
    )
        ensures
            *final(self) == old(self).spec_update_hyd_logic_inputs(overhead_panel),
            old(self).wf() ==> final(self).wf(),
    {
        if overhead_panel.edp1_push_button.is_auto() {
            self.engine_driven_pump_1.start();
        } else if overhead_panel.edp1_push_button.is_off() {
            self.engine_driven_pump_1.stop();
        }
        if overhead_panel.edp2_push_button.is_auto() {
            self.engine_driven_pump_2.start();
        } else if overhead_panel.edp2_push_button.is_off() {
            self.engine_driven_pump_2.stop();
        }
        if overhead_panel.yellow_epump_push_button.is_off() {
            self.yellow_electric_pump.start();
        } else if overhead_panel.yellow_epump_push_button.is_on() {
            self.yellow_electric_pump.stop();
        }
        if overhead_panel.blue_epump_push_button.is_auto() {
            self.blue_electric_pump.start();
        } else if overhead_panel.blue_epump_push_button.is_off() {
            self.blue_electric_pump.stop();
        }
        let ptu_inhibit = self.hyd_logic_inputs.cargo_door_operation
            && overhead_panel.yellow_epump_push_button.is_off();
        if overhead_panel.ptu_push_button.is_auto() && (self.hyd_logic_inputs.weight_on_wheels
            || self.hyd_logic_inputs.eng_1_master_on && self.hyd_logic_inputs.eng_2_master_on
            || !self.hyd_logic_inputs.eng_1_master_on && !self.hyd_logic_inputs.eng_2_master_on
            || (!self.hyd_logic_inputs.parking_brake_applied
            && !self.hyd_logic_inputs.nws_tow_engaged)) && !ptu_inhibit {
            self.ptu.enabling(true);
        } else {
            self.ptu.enabling(false);
        }
    }

    /// The system after one fixed step: first the transfer unit against the
    /// green and the yellow loop, then the pumps against their loops, then
    /// the loops with what the pumps and the transfer unit have published.
    #[verifier::opaque]
    pub open spec fn spec_sub_step(self, engine1: &Engine, engine2: &Engine) -> A320Hydraulic {
        let step = Fixed::from_nanos(HYDRAULIC_SIM_TIME_STEP);
        let ptu = self.ptu.spec_update(&self.green_loop, &self.yellow_loop);
        let edp1 = self.engine_driven_pump_1.spec_update(step, &self.green_loop, engine1);
        let edp2 = self.engine_driven_pump_2.spec_update(step, &self.yellow_loop, engine2);
        let yellow_pump = self.yellow_electric_pump.spec_update(step, &self.yellow_loop);
        let blue_pump = self.blue_electric_pump.spec_update(step, &self.blue_loop);
        A320Hydraulic {
            ptu,
            engine_driven_pump_1: edp1,
            engine_driven_pump_2: edp2,
            yellow_electric_pump: yellow_pump,
            blue_electric_pump: blue_pump,
            green_loop: self.green_loop.spec_update(
                step,
                Seq::empty(),
                seq![&edp1],
                Seq::empty(),
                seq![&ptu],
            ),
            yellow_loop: self.yellow_loop.spec_update(
                step,
                seq![&yellow_pump],
                seq![&edp2],
                Seq::empty(),
                seq![&ptu],
            ),
            blue_loop: self.blue_loop.spec_update(
                step,
                seq![&blue_pump],
                Seq::empty(),
                Seq::empty(),
                Seq::empty(),
            ),
            ..self
        }
    }

    /// The system after `steps` fixed steps.
    pub open spec fn spec_sub_steps(
        self,
        steps: nat,
        engine1: &Engine,
        engine2: &Engine,
    ) -> A320Hydraulic
        decreases steps,
    {
        if steps == 0 {
            self
        } else {
            self.spec_sub_steps((steps - 1) as nat, engine1, engine2).spec_sub_step(
                engine1,
                engine2,
            )
        }
    }

    /// The system after a frame of the host.
    ///
    /// The time of the frame joins the lag. While that makes less than one
    /// step, it is carried on and nothing else changes. Else the
    /// push-buttons are read once, the whole steps are simulated, and the
    /// rest is carried on.
    pub open spec fn spec_update(
        self,
        ct: &UpdateContext,
        engine1: &Engine,
        engine2: &Engine,
        overhead_panel: &A320HydraulicOverheadPanel,
    ) -> A320Hydraulic {
        let time_to_catch = ct.delta + self.lag_time_accumulator;
        let timed = A320Hydraulic {
            total_sim_time_elapsed: (self.total_sim_time_elapsed + ct.delta) as u64,
            lag_time_accumulator: spec_lag(time_to_catch) as u64,
            ..self
        };
        if spec_steps(time_to_catch) == 0 {
            timed
        } else {
            timed.spec_update_hyd_logic_inputs(overhead_panel).spec_sub_steps(
                spec_steps(time_to_catch) as nat,
                engine1,
                engine2,
            )
        }
    }

    /// Advances every component by one fixed step.
    pub fn sub_step(&mut self, engine1: &Engine, engine2: &Engine)
        requires
            old(self).wf(),
        ensures
            *final(self) == old(self).spec_sub_step(engine1, engine2),
            final(self).wf(),
            final(self).total_sim_time_elapsed == old(self).total_sim_time_elapsed,
            final(self).lag_time_accumulator == old(self).lag_time_accumulator,
            final(self).hyd_logic_inputs == old(self).hyd_logic_inputs,
    {
        reveal(A320Hydraulic::spec_sub_step);
        let step = Fixed::from_nanos(HYDRAULIC_SIM_TIME_STEP);
        self.ptu.update(&self.green_loop, &self.yellow_loop);
        self.engine_driven_pump_1.update(step, &self.green_loop, engine1);
        self.engine_driven_pump_2.update(step, &self.yellow_loop, engine2);
        self.yellow_electric_pump.update(step, &self.yellow_loop);
        self.blue_electric_pump.update(step, &self.blue_loop);

        let mut green_edps: Vec<&EngineDrivenPump> = Vec::new();
        green_edps.push(&self.engine_driven_pump_1);
        let mut green_ptus: Vec<&Ptu> = Vec::new();
        green_ptus.push(&self.ptu);
        assert(green_edps@ =~= seq![&self.engine_driven_pump_1]);
        assert(green_ptus@ =~= seq![&self.ptu]);
        self.green_loop.update(step, Vec::new(), green_edps, Vec::new(), green_ptus);

        let mut yellow_epumps: Vec<&ElectricPump> = Vec::new();
        yellow_epumps.push(&self.yellow_electric_pump);
        let mut yellow_edps: Vec<&EngineDrivenPump> = Vec::new();
        yellow_edps.push(&self.engine_driven_pump_2);
        let mut yellow_ptus: Vec<&Ptu> = Vec::new();
        yellow_ptus.push(&self.ptu);
        assert(yellow_epumps@ =~= seq![&self.yellow_electric_pump]);
        assert(yellow_edps@ =~= seq![&self.engine_driven_pump_2]);
        assert(yellow_ptus@ =~= seq![&self.ptu]);
        self.yellow_loop.update(step, yellow_epumps, yellow_edps, Vec::new(), yellow_ptus);

        let mut blue_epumps: Vec<&ElectricPump> = Vec::new();
        blue_epumps.push(&self.blue_electric_pump);
        assert(blue_epumps@ =~= seq![&self.blue_electric_pump]);
        self.blue_loop.update(step, blue_epumps, Vec::new(), Vec::new(), Vec::new());
    }

    /// Takes the time of a frame of the host and simulates as many fixed
    /// steps as that time and the lag carried over make.
    ///
    /// The time that has been asked for is always the time simulated plus
    /// the lag, and the lag stays under one step.
    pub fn update(
        &mut self,
        ct: &UpdateContext,
        engine1: &Engine,
        engine2: &Engine,
        overhead_panel: &A320HydraulicOverheadPanel,
    )
        requires
            old(self).wf(),
            old(self).total_sim_time_elapsed + ct.delta <= u64::MAX,
        ensures
            *final(self) == old(self).spec_update(ct, engine1, engine2, overhead_panel),
            final(self).wf(),
            final(self).total_sim_time_elapsed == old(self).total_sim_time_elapsed + ct.delta,
            spec_steps(ct.delta + old(self).lag_time_accumulator) * HYDRAULIC_SIM_TIME_STEP
                + final(self).lag_time_accumulator == ct.delta + old(self).lag_time_accumulator,
    {
        self.total_sim_time_elapsed = self.total_sim_time_elapsed + ct.delta;
        let (steps, lag) = split_time(ct.delta, self.lag_time_accumulator);
        self.lag_time_accumulator = lag;
        if steps >= 1 {
            self.update_hyd_logic_inputs(ct, overhead_panel);
            self.sub_steps(steps, engine1, engine2);
        }
    }

    /// Advances every component by `steps` fixed steps.
    pub fn sub_steps(&mut self, steps: u64, engine1: &Engine, engine2: &Engine)
        requires
            old(self).wf(),
        ensures
            *final(self) == old(self).spec_sub_steps(steps as nat, engine1, engine2),
            final(self).wf(),
            final(self).total_sim_time_elapsed == old(self).total_sim_time_elapsed,
            final(self).lag_time_accumulator == old(self).lag_time_accumulator,
            final(self).hyd_logic_inputs == old(self).hyd_logic_inputs,
    {
        let ghost start = *self;
        let mut i: u64 = 0;
        while i < steps
            invariant
                i <= steps,
                self.wf(),
                self.total_sim_time_elapsed == start.total_sim_time_elapsed,
                self.lag_time_accumulator == start.lag_time_accumulator,
                self.hyd_logic_inputs == start.hyd_logic_inputs,
                *self == start.spec_sub_steps(i as nat, engine1, engine2),
            decreases steps - i,
        {
            self.sub_step(engine1, engine2);
            i += 1;
        }
    }
}

/// Idempotence of a frame without time: a frame of no duration leaves the
/// whole system as it was.
pub proof fn lemma_frame_without_time(
    h: A320Hydraulic,
    ct: &UpdateContext,
    engine1: &Engine,
    engine2: &Engine,
    overhead_panel: &A320HydraulicOverheadPanel,
)
    requires
        h.wf(),
        ct.delta == 0,
    ensures
        h.spec_update(ct, engine1, engine2, overhead_panel) == h,
{
    let t = h.lag_time_accumulator as int;
    vstd::arithmetic::div_mod::lemma_small_mod(t as nat, HYDRAULIC_SIM_TIME_STEP as nat);
    vstd::arithmetic::div_mod::lemma_basic_div(t, HYDRAULIC_SIM_TIME_STEP as int);
}

/// Time is neither lost nor made: the steps that a frame simulates and the
/// lag that it leaves make up the time of the frame and the lag before it,
/// and the lag that it leaves is less than one step.
pub proof fn lemma_time_is_kept(delta: u64, lag_time_accumulator: u64)
    ensures
        spec_steps(delta + lag_time_accumulator) * HYDRAULIC_SIM_TIME_STEP + spec_lag(
            delta + lag_time_accumulator,
        ) == delta + lag_time_accumulator,
        0 <= spec_lag(delta + lag_time_accumulator) < HYDRAULIC_SIM_TIME_STEP,
        spec_steps(delta + lag_time_accumulator) >= 0,
{
    let t = delta + lag_time_accumulator;
    vstd::arithmetic::div_mod::lemma_fundamental_div_mod(t, HYDRAULIC_SIM_TIME_STEP as int);
    vstd::arithmetic::div_mod::lemma_mod_bound(t, HYDRAULIC_SIM_TIME_STEP as int);
    vstd::arithmetic::div_mod::lemma_div_pos_is_pos(t, HYDRAULIC_SIM_TIME_STEP as int);
    assert(spec_steps(t) * HYDRAULIC_SIM_TIME_STEP == HYDRAULIC_SIM_TIME_STEP * spec_steps(t))
        by (nonlinear_arith);
}

} // verus!
