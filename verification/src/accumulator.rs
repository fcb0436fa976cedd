//! What holds of the accumulator of a loop from step to step: its fluid and
//! its gas share a fixed volume, and the gas follows Boyle's law.
use vstd::prelude::*;
use crate::fixed::{Fixed, SCALE, lemma_times_non_negative};
use crate::hyd_loop::{
    HydLoop,
    spec_accumulator_volume,
    spec_gas_pressure,
    accumulator_press_breakpoints,
    accumulator_flow_carac,
    lemma_accumulator_table_valid,
};
use crate::interpolation::interpolated;
use crate::pump::{ElectricPump, EngineDrivenPump, RatPump, lemma_interpolated_non_negative};
use crate::ptu::Ptu;
use crate::units::{ACCUMULATOR_GAS_PRE_CHARGE, ACCUMULATOR_MAX_VOLUME};

verus! {

/// Smallest gas volume, in raw steps, at which the gas pressure that
/// Boyle's law gives can still be represented.
pub const MIN_GAS_VOLUME: i64 = 54;

/// The volume that passes from the accumulator to the loop is never more
/// than the fluid that the accumulator holds, and a volume that passes the
/// other way is the exact opposite of a volume that is not negative.
pub proof fn lemma_accumulator_volume_bounds(
    gas_pressure: Fixed,
    loop_pressure: Fixed,
    fluid_volume: Fixed,
    delta_vol: Fixed,
    delta_time: Fixed,
)
    requires
        fluid_volume.raw >= 0,
        delta_time.raw >= 0,
    ensures
        -i64::MAX <= spec_accumulator_volume(
            gas_pressure,
            loop_pressure,
            fluid_volume,
            delta_vol,
            delta_time,
        ).raw <= fluid_volume.raw,
        gas_pressure.spec_minus(loop_pressure).raw > 0 ==> spec_accumulator_volume(
            gas_pressure,
            loop_pressure,
            fluid_volume,
            delta_vol,
            delta_time,
        ).raw >= 0,
        delta_vol.raw <= 0 ==> spec_accumulator_volume(
            gas_pressure,
            loop_pressure,
            fluid_volume,
            delta_vol,
            delta_time,
        ).raw >= 0,
{
    lemma_accumulator_table_valid();
    let delta_press = gas_pressure.spec_minus(loop_pressure);
    lemma_interpolated_non_negative(
        accumulator_press_breakpoints(),
        accumulator_flow_carac(),
        delta_press.spec_abs(),
    );
    let flow = interpolated(
        accumulator_press_breakpoints(),
        accumulator_flow_carac(),
        delta_press.spec_abs(),
    );
    lemma_times_non_negative(flow, delta_time);
}

/// Partition of the accumulator: while the fluid volume stays inside the
/// representable range, the fluid and the gas fill the fixed volume of the
/// accumulator after a step as they did before it, and the fluid volume is
/// not negative.
pub proof fn lemma_accumulator_partition(
    l: HydLoop,
    delta_time: Fixed,
    electric_pumps: Seq<&ElectricPump>,
    engine_driven_pumps: Seq<&EngineDrivenPump>,
    ram_air_pumps: Seq<&RatPump>,
    ptus: Seq<&Ptu>,
)
    requires
        l.accumulator_partitioned(),
        delta_time.raw >= 0,
        l.spec_update(
            delta_time,
            electric_pumps,
            engine_driven_pumps,
            ram_air_pumps,
            ptus,
        ).accumulator_fluid_volume.raw < i64::MAX,
    ensures
        l.spec_update(
            delta_time,
            electric_pumps,
            engine_driven_pumps,
            ram_air_pumps,
            ptus,
        ).accumulator_partitioned(),
{
    let step = l.spec_step(delta_time, electric_pumps, engine_driven_pumps, ram_air_pumps, ptus);
    lemma_accumulator_volume_bounds(
        l.accumulator_gas_pressure,
        l.loop_pressure,
        l.accumulator_fluid_volume,
        step.exchanged.delta_vol,
        delta_time,
    );
}

/// The gas pressure is the one that Boyle's law gives for the fluid that the
/// accumulator holds.
pub open spec fn spec_gas_settled(l: HydLoop) -> bool {
    l.accumulator_gas_pressure == spec_gas_pressure(l.accumulator_fluid_volume)
}

/// After every step the gas pressure is the one that Boyle's law gives for
/// the fluid that the accumulator then holds.
pub proof fn lemma_gas_settles(
    l: HydLoop,
    delta_time: Fixed,
    electric_pumps: Seq<&ElectricPump>,
    engine_driven_pumps: Seq<&EngineDrivenPump>,
    ram_air_pumps: Seq<&RatPump>,
    ptus: Seq<&Ptu>,
)
    ensures
        spec_gas_settled(
            l.spec_update(delta_time, electric_pumps, engine_driven_pumps, ram_air_pumps, ptus),
        ),
{
}

/// Boyle's law: in a partitioned accumulator whose gas pressure has settled
/// and whose gas volume is at least `MIN_GAS_VOLUME`, the product of gas
/// pressure and gas volume differs from the product of pre-charge and total
/// volume by less than one hundredth of it. (It differs by less than the gas
/// volume, counted in raw steps.)
pub proof fn lemma_boyle(l: HydLoop)
    requires
        l.accumulator_partitioned(),
        spec_gas_settled(l),
        l.accumulator_gas_volume.raw >= MIN_GAS_VOLUME,
    ensures
        0 <= ACCUMULATOR_GAS_PRE_CHARGE * ACCUMULATOR_MAX_VOLUME - l.accumulator_gas_pressure.raw
            * l.accumulator_gas_volume.raw < l.accumulator_gas_volume.raw,
        100 * (ACCUMULATOR_GAS_PRE_CHARGE * ACCUMULATOR_MAX_VOLUME
            - l.accumulator_gas_pressure.raw * l.accumulator_gas_volume.raw)
            <= ACCUMULATOR_GAS_PRE_CHARGE * ACCUMULATOR_MAX_VOLUME,
{
    let g = l.accumulator_gas_volume.raw as int;
    let p = l.accumulator_gas_pressure.raw as int;
    let n: int = 497_640_000_000_000_000_000;
    assert(ACCUMULATOR_GAS_PRE_CHARGE * ACCUMULATOR_MAX_VOLUME == n);
    let product = Fixed::new(ACCUMULATOR_GAS_PRE_CHARGE).spec_times(
        Fixed::new(ACCUMULATOR_MAX_VOLUME),
    );
    assert(n / (SCALE as int) == 497_640_000_000);
    assert(product.raw == 497_640_000_000);
    assert(product.raw * SCALE == n);
    let denominator = Fixed::new(ACCUMULATOR_MAX_VOLUME).spec_minus(l.accumulator_fluid_volume);
    assert(denominator.raw == g);
    vstd::arithmetic::div_mod::lemma_div_is_ordered_by_denominator(n, MIN_GAS_VOLUME as int, g);
    assert(n / (MIN_GAS_VOLUME as int) == 9_215_555_555_555_555_555);
    vstd::arithmetic::div_mod::lemma_div_pos_is_pos(n, g);
    assert(p == n / g);
    vstd::arithmetic::div_mod::lemma_fundamental_div_mod(n, g);
    vstd::arithmetic::div_mod::lemma_mod_bound(n, g);
    assert(p * g == g * (n / g)) by (nonlinear_arith)
        requires
            p == n / g,
    ;
}

} // verus!
