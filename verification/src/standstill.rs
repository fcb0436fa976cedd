//! Steps that take no time.
use vstd::prelude::*;
use crate::accumulator::spec_gas_settled;
use crate::fixed::{Fixed, lemma_times_zero};
use crate::hyd_loop::{
    HydLoop,
    Exchange,
    spec_exchange_with_ptus,
    spec_any_ptu_active,
    accumulator_press_breakpoints,
    accumulator_flow_carac,
};
use crate::interpolation::interpolated;
use crate::pump::{ElectricPump, EngineDrivenPump, RatPump};
use crate::ptu::Ptu;
use crate::units::{
    MIN_LOOP_PRESSURE,
    STATIC_LEAK_FLOW,
    PRESSURE_LOW_PASS_FILTER,
    DELTA_VOL_LOW_PASS_FILTER,
};

verus! {

/// In no time a loop exchanges nothing with its transfer units.
pub proof fn lemma_exchanges_without_time(
    left_side: bool,
    right_side: bool,
    ex: Exchange,
    ptus: Seq<&Ptu>,
)
    ensures
        spec_exchange_with_ptus(left_side, right_side, ex, ptus, Fixed::new(0)) == ex,
    decreases ptus.len(),
{
    if ptus.len() > 0 {
        lemma_exchanges_without_time(left_side, right_side, ex, ptus.drop_last());
        let zero = Fixed::new(0);
        let left = ptus.last().flow_to_left;
        let right = ptus.last().flow_to_right;
        lemma_times_zero(left);
        lemma_times_zero(right);
        lemma_times_zero(left.spec_min(ex.reservoir.spec_over(zero)));
        lemma_times_zero(right.spec_min(ex.reservoir.spec_over(zero)));
    }
}

/// Idempotence of a step without time: a loop at rest, whose pumps deliver
/// nothing, whose gain of the last step has died out and whose gas pressure
/// has settled, keeps its pressure and every volume over a step of no
/// duration. Only the published flows are set to nothing, and the activity
/// of the transfer units is read anew.
pub proof fn lemma_step_without_time(
    l: HydLoop,
    electric_pumps: Seq<&ElectricPump>,
    engine_driven_pumps: Seq<&EngineDrivenPump>,
    ram_air_pumps: Seq<&RatPump>,
    ptus: Seq<&Ptu>,
)
    requires
        l.wf(),
        l.accumulator_fluid_volume.raw >= 0,
        spec_gas_settled(l),
        l.current_delta_vol.raw == 0,
        l.spec_step(
            Fixed::new(0),
            electric_pumps,
            engine_driven_pumps,
            ram_air_pumps,
            ptus,
        ).delta_vol_max.raw == 0,
        l.spec_step(
            Fixed::new(0),
            electric_pumps,
            engine_driven_pumps,
            ram_air_pumps,
            ptus,
        ).delta_vol_min.raw == 0,
    ensures
        l.spec_update(Fixed::new(0), electric_pumps, engine_driven_pumps, ram_air_pumps, ptus) == (
        HydLoop {
            current_max_flow: Fixed::new(0),
            current_flow: Fixed::new(0),
            ptu_active: spec_any_ptu_active(
                l.connected_to_ptu_left_side || l.connected_to_ptu_right_side,
                ptus,
            ),
            ..l
        }),
{
    let zero = Fixed::new(0);
    let step = l.spec_step(zero, electric_pumps, engine_driven_pumps, ram_air_pumps, ptus);
    let next = l.spec_update(zero, electric_pumps, engine_driven_pumps, ram_air_pumps, ptus);
    lemma_times_zero(Fixed::new(STATIC_LEAK_FLOW));
    lemma_times_zero(l.loop_pressure.spec_minus(Fixed::new(MIN_LOOP_PRESSURE)));
    assert(step.static_leak.raw == 0);
    let start = Exchange { reservoir: l.reservoir_volume, delta_vol: zero, reservoir_return: zero };
    assert(zero.spec_minus(step.static_leak) == zero);
    assert(zero.spec_plus(step.static_leak) == zero);
    lemma_exchanges_without_time(
        l.connected_to_ptu_left_side,
        l.connected_to_ptu_right_side,
        start,
        ptus,
    );
    assert(step.exchanged == start);
    assert(step.primed.raw == 0);
    let flow = interpolated(
        accumulator_press_breakpoints(),
        accumulator_flow_carac(),
        l.accumulator_gas_pressure.spec_minus(l.loop_pressure).spec_abs(),
    );
    lemma_times_zero(flow);
    assert(step.from_accumulator.raw == 0);
    assert(step.regulated.raw == 0);
    assert(step.delta_vol.raw == 0);
    lemma_times_zero(l.fluid.current_bulk);
    lemma_times_zero(Fixed::new(PRESSURE_LOW_PASS_FILTER));
    lemma_times_zero(Fixed::new(DELTA_VOL_LOW_PASS_FILTER));
    assert(next.loop_pressure == l.loop_pressure);
    assert(next.current_delta_vol == l.current_delta_vol);
    assert(next.loop_volume == l.loop_volume);
    assert(next.reservoir_volume == l.reservoir_volume);
    assert(next.accumulator_fluid_volume == l.accumulator_fluid_volume);
    assert(next.accumulator_gas_volume == l.accumulator_gas_volume);
    assert(next.accumulator_gas_pressure == l.accumulator_gas_pressure);
    assert(next.current_flow == zero);
    assert(next.current_max_flow == zero);
}

} // verus!
