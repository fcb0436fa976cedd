//! Conservation of volume in a loop: what leaves the reservoir is in the
//! body of the loop, in the high-pressure section or in the accumulator,
//! and the other way round.
use vstd::prelude::*;
use crate::accumulator::lemma_accumulator_volume_bounds;
use crate::fixed::Fixed;
use crate::hyd_loop::{
    HydLoop,
    Exchange,
    spec_static_leak,
    spec_exchange_flow,
    spec_exchange_with_ptus,
    lemma_draw_within_reservoir,
    lemma_static_leak_non_negative,
    accumulate_delta_vol_max,
    accumulate_delta_vol_min,
};
use crate::pump::{PressureSource, ElectricPump, EngineDrivenPump, RatPump};
use crate::ptu::Ptu;

verus! {

/// The value lies strictly inside the representable range, so that the sum
/// or difference that gave it was not clamped.
pub open spec fn spec_inside(x: Fixed) -> bool {
    i64::MIN < x.raw < i64::MAX
}

/// Fluid in the reservoir, on its way back to it and gained by the
/// high-pressure section, taken together.
pub open spec fn spec_exchange_total(ex: Exchange) -> int {
    ex.reservoir.raw + ex.reservoir_return.raw + ex.delta_vol.raw
}

/// After the exchange with each transfer unit of `ptus` in turn, the gain of
/// the high-pressure section and the return to the reservoir lie inside the
/// representable range.
pub open spec fn spec_exchanges_inside(
    left_side: bool,
    right_side: bool,
    ex: Exchange,
    ptus: Seq<&Ptu>,
    delta_time: Fixed,
) -> bool
    decreases ptus.len(),
{
    if ptus.len() == 0 {
        true
    } else {
        let after = spec_exchange_with_ptus(left_side, right_side, ex, ptus, delta_time);
        &&& spec_exchanges_inside(left_side, right_side, ex, ptus.drop_last(), delta_time)
        &&& spec_inside(after.delta_vol)
        &&& spec_inside(after.reservoir_return)
    }
}

/// Pumps that publish no negative volume have no negative total.
pub proof fn lemma_accumulate_non_negative<P: PressureSource>(start: Fixed, pumps: Seq<&P>)
    requires
        start.raw >= 0,
        forall|i: int|
            0 <= i < pumps.len() ==> (#[trigger] pumps[i]).spec_delta_vol_max().raw >= 0
                && pumps[i].spec_delta_vol_min().raw >= 0,
    ensures
        accumulate_delta_vol_max(start, pumps).raw >= 0,
        accumulate_delta_vol_min(start, pumps).raw >= 0,
    decreases pumps.len(),
{
    if pumps.len() > 0 {
        let before = pumps.drop_last();
        assert forall|i: int| 0 <= i < before.len() implies (#[trigger] before[i]).spec_delta_vol_max().raw
            >= 0 && before[i].spec_delta_vol_min().raw >= 0 by {
            assert(before[i] == pumps[i]);
        }
        lemma_accumulate_non_negative(start, before);
        assert(pumps.last() == pumps[pumps.len() - 1]);
    }
}

/// Every pump of the loop is well formed.
pub open spec fn spec_pumps_well_formed(
    electric_pumps: Seq<&ElectricPump>,
    engine_driven_pumps: Seq<&EngineDrivenPump>,
    ram_air_pumps: Seq<&RatPump>,
) -> bool {
    &&& forall|i: int| 0 <= i < electric_pumps.len() ==> (#[trigger] electric_pumps[i]).wf()
    &&& forall|i: int|
        0 <= i < engine_driven_pumps.len() ==> (#[trigger] engine_driven_pumps[i]).wf()
    &&& forall|i: int| 0 <= i < ram_air_pumps.len() ==> (#[trigger] ram_air_pumps[i]).wf()
}

/// Well-formed pumps deliver no negative volume, neither at most nor at
/// least.
pub proof fn lemma_totals_non_negative(
    l: HydLoop,
    delta_time: Fixed,
    electric_pumps: Seq<&ElectricPump>,
    engine_driven_pumps: Seq<&EngineDrivenPump>,
    ram_air_pumps: Seq<&RatPump>,
    ptus: Seq<&Ptu>,
)
    requires
        spec_pumps_well_formed(electric_pumps, engine_driven_pumps, ram_air_pumps),
    ensures
        l.spec_step(
            delta_time,
            electric_pumps,
            engine_driven_pumps,
            ram_air_pumps,
            ptus,
        ).delta_vol_max.raw >= 0,
        l.spec_step(
            delta_time,
            electric_pumps,
            engine_driven_pumps,
            ram_air_pumps,
            ptus,
        ).delta_vol_min.raw >= 0,
{
    let zero = Fixed::new(0);
    assert forall|i: int| 0 <= i < engine_driven_pumps.len() implies (
    #[trigger] engine_driven_pumps[i]).spec_delta_vol_max().raw >= 0
        && engine_driven_pumps[i].spec_delta_vol_min().raw >= 0 by {
        assert(engine_driven_pumps[i].wf());
    }
    lemma_accumulate_non_negative(zero, engine_driven_pumps);
    assert forall|i: int| 0 <= i < electric_pumps.len() implies (
    #[trigger] electric_pumps[i]).spec_delta_vol_max().raw >= 0
        && electric_pumps[i].spec_delta_vol_min().raw >= 0 by {
        assert(electric_pumps[i].wf());
    }
    lemma_accumulate_non_negative(
        accumulate_delta_vol_max(zero, engine_driven_pumps),
        electric_pumps,
    );
    lemma_accumulate_non_negative(
        accumulate_delta_vol_min(zero, engine_driven_pumps),
        electric_pumps,
    );
    assert forall|i: int| 0 <= i < ram_air_pumps.len() implies (
    #[trigger] ram_air_pumps[i]).spec_delta_vol_max().raw >= 0
        && ram_air_pumps[i].spec_delta_vol_min().raw >= 0 by {
        assert(ram_air_pumps[i].wf());
    }
    lemma_accumulate_non_negative(
        accumulate_delta_vol_max(
            accumulate_delta_vol_max(zero, engine_driven_pumps),
            electric_pumps,
        ),
        ram_air_pumps,
    );
    lemma_accumulate_non_negative(
        accumulate_delta_vol_min(
            accumulate_delta_vol_min(zero, engine_driven_pumps),
            electric_pumps,
        ),
        ram_air_pumps,
    );
}

/// The exchange with one flow takes from the reservoir at most what it
/// holds and takes nothing from what returns to it. Where its results lie
/// inside the representable range, it keeps the total.
pub proof fn lemma_exchange_flow_balance(ex: Exchange, flow: Fixed, delta_time: Fixed)
    requires
        ex.reservoir.raw >= 0,
        ex.reservoir_return.raw >= 0,
        delta_time.raw >= 0,
    ensures
        0 <= spec_exchange_flow(ex, flow, delta_time).reservoir.raw <= ex.reservoir.raw,
        spec_exchange_flow(ex, flow, delta_time).reservoir_return.raw >= ex.reservoir_return.raw,
        spec_inside(spec_exchange_flow(ex, flow, delta_time).delta_vol) && spec_inside(
            spec_exchange_flow(ex, flow, delta_time).reservoir_return,
        ) ==> spec_exchange_total(spec_exchange_flow(ex, flow, delta_time)) == spec_exchange_total(
            ex,
        ),
{
    if flow.raw > 0 {
        lemma_draw_within_reservoir(ex.reservoir, flow, delta_time);
    } else {
        assert(flow.raw * delta_time.raw <= 0) by (nonlinear_arith)
            requires
                flow.raw <= 0,
                delta_time.raw >= 0,
        ;
    }
}

/// The exchange with the transfer units only takes from the reservoir and
/// only adds to what returns to it. Where every exchange stays inside the
/// representable range, the total is kept.
pub proof fn lemma_exchanges_balance(
    left_side: bool,
    right_side: bool,
    ex: Exchange,
    ptus: Seq<&Ptu>,
    delta_time: Fixed,
)
    requires
        ex.reservoir.raw >= 0,
        ex.reservoir_return.raw >= 0,
        delta_time.raw >= 0,
    ensures
        0 <= spec_exchange_with_ptus(left_side, right_side, ex, ptus, delta_time).reservoir.raw
            <= ex.reservoir.raw,
        spec_exchange_with_ptus(left_side, right_side, ex, ptus, delta_time).reservoir_return.raw
            >= ex.reservoir_return.raw,
        spec_exchanges_inside(left_side, right_side, ex, ptus, delta_time) ==> spec_exchange_total(
            spec_exchange_with_ptus(left_side, right_side, ex, ptus, delta_time),
        ) == spec_exchange_total(ex),
    decreases ptus.len(),
{
    if ptus.len() > 0 {
        lemma_exchanges_balance(left_side, right_side, ex, ptus.drop_last(), delta_time);
        let before = spec_exchange_with_ptus(
            left_side,
            right_side,
            ex,
            ptus.drop_last(),
            delta_time,
        );
        lemma_exchange_flow_balance(before, ptus.last().flow_to_left, delta_time);
        lemma_exchange_flow_balance(before, ptus.last().flow_to_right, delta_time);
    }
}

/// No volume of the step reaches the limits of the representable range.
pub open spec fn spec_step_inside(
    l: HydLoop,
    delta_time: Fixed,
    electric_pumps: Seq<&ElectricPump>,
    engine_driven_pumps: Seq<&EngineDrivenPump>,
    ram_air_pumps: Seq<&RatPump>,
    ptus: Seq<&Ptu>,
) -> bool {
    let step = l.spec_step(delta_time, electric_pumps, engine_driven_pumps, ram_air_pumps, ptus);
    let next = l.spec_update(delta_time, electric_pumps, engine_driven_pumps, ram_air_pumps, ptus);
    let leak = spec_static_leak(delta_time, l.loop_pressure);
    &&& spec_exchanges_inside(
        l.connected_to_ptu_left_side,
        l.connected_to_ptu_right_side,
        Exchange {
            reservoir: l.reservoir_volume,
            delta_vol: Fixed::new(0).spec_minus(leak),
            reservoir_return: Fixed::new(0).spec_plus(leak),
        },
        ptus,
        delta_time,
    )
    &&& spec_inside(step.exchanged.delta_vol.spec_plus(step.from_accumulator))
    &&& spec_inside(step.delta_vol)
    &&& spec_inside(l.loop_volume.spec_plus(step.primed))
    &&& spec_inside(next.loop_volume)
    &&& spec_inside(next.reservoir_volume)
    &&& spec_inside(next.accumulator_fluid_volume)
}

/// What a step moves between reservoir, body of the loop and accumulator is
/// bounded by what the reservoir holds.
proof fn lemma_step_bounds(
    l: HydLoop,
    delta_time: Fixed,
    electric_pumps: Seq<&ElectricPump>,
    engine_driven_pumps: Seq<&EngineDrivenPump>,
    ram_air_pumps: Seq<&RatPump>,
    ptus: Seq<&Ptu>,
)
    requires
        l.wf(),
        delta_time.raw >= 0,
        spec_pumps_well_formed(electric_pumps, engine_driven_pumps, ram_air_pumps),
    ensures
        ({
            let step = l.spec_step(
                delta_time,
                electric_pumps,
                engine_driven_pumps,
                ram_air_pumps,
                ptus,
            );
            &&& step.static_leak.raw >= 0
            &&& 0 <= step.exchanged.reservoir.raw <= l.reservoir_volume.raw
            &&& step.exchanged.reservoir_return.raw >= step.static_leak.raw
            &&& 0 <= step.primed.raw <= step.exchanged.reservoir.raw
            &&& 0 <= step.regulated.raw <= step.exchanged.reservoir.raw - step.primed.raw
            &&& step.consumed.raw == 0
        }),
{
    let step = l.spec_step(delta_time, electric_pumps, engine_driven_pumps, ram_air_pumps, ptus);
    lemma_totals_non_negative(
        l,
        delta_time,
        electric_pumps,
        engine_driven_pumps,
        ram_air_pumps,
        ptus,
    );
    lemma_static_leak_non_negative(delta_time, l.loop_pressure);
    let start = Exchange {
        reservoir: l.reservoir_volume,
        delta_vol: Fixed::new(0).spec_minus(step.static_leak),
        reservoir_return: Fixed::new(0).spec_plus(step.static_leak),
    };
    lemma_exchanges_balance(
        l.connected_to_ptu_left_side,
        l.connected_to_ptu_right_side,
        start,
        ptus,
        delta_time,
    );
}

/// Whatever the pumps and the transfer units publish, a step leaves a loop
/// well formed: its reservoir is not overdrawn and its pressure is not
/// below that of an unpressurised loop.
pub proof fn lemma_loop_stays_well_formed(
    l: HydLoop,
    delta_time: Fixed,
    electric_pumps: Seq<&ElectricPump>,
    engine_driven_pumps: Seq<&EngineDrivenPump>,
    ram_air_pumps: Seq<&RatPump>,
    ptus: Seq<&Ptu>,
)
    requires
        l.wf(),
        delta_time.raw >= 0,
    ensures
        l.spec_update(delta_time, electric_pumps, engine_driven_pumps, ram_air_pumps, ptus).wf(),
{
    let step = l.spec_step(delta_time, electric_pumps, engine_driven_pumps, ram_air_pumps, ptus);
    lemma_static_leak_non_negative(delta_time, l.loop_pressure);
    let start = Exchange {
        reservoir: l.reservoir_volume,
        delta_vol: Fixed::new(0).spec_minus(step.static_leak),
        reservoir_return: Fixed::new(0).spec_plus(step.static_leak),
    };
    lemma_exchanges_balance(
        l.connected_to_ptu_left_side,
        l.connected_to_ptu_right_side,
        start,
        ptus,
        delta_time,
    );
}

/// A step raises the reservoir by no more than what returns to it: the leak
/// and what the loop has spent to drive a transfer unit. Pumps, priming and
/// the volume that a transfer unit brings in only take from it.
pub proof fn lemma_reservoir_gains_only_returns(
    l: HydLoop,
    delta_time: Fixed,
    electric_pumps: Seq<&ElectricPump>,
    engine_driven_pumps: Seq<&EngineDrivenPump>,
    ram_air_pumps: Seq<&RatPump>,
    ptus: Seq<&Ptu>,
)
    requires
        l.wf(),
        delta_time.raw >= 0,
        spec_pumps_well_formed(electric_pumps, engine_driven_pumps, ram_air_pumps),
    ensures
        0 <= l.spec_update(
            delta_time,
            electric_pumps,
            engine_driven_pumps,
            ram_air_pumps,
            ptus,
        ).reservoir_volume.raw <= l.reservoir_volume.raw + l.spec_step(
            delta_time,
            electric_pumps,
            engine_driven_pumps,
            ram_air_pumps,
            ptus,
        ).exchanged.reservoir_return.raw,
{
    lemma_step_bounds(l, delta_time, electric_pumps, engine_driven_pumps, ram_air_pumps, ptus);
}

/// Balance of the reservoir: below the top of the representable range, a
/// step leaves in the reservoir what it held, less what the transfer units
/// drew, priming moved and the pumps added to the loop, plus what returned.
/// So a step does not raise the reservoir exactly when no more returns to
/// it than is taken from it.
pub proof fn lemma_reservoir_balance(
    l: HydLoop,
    delta_time: Fixed,
    electric_pumps: Seq<&ElectricPump>,
    engine_driven_pumps: Seq<&EngineDrivenPump>,
    ram_air_pumps: Seq<&RatPump>,
    ptus: Seq<&Ptu>,
)
    requires
        l.wf(),
        delta_time.raw >= 0,
        spec_pumps_well_formed(electric_pumps, engine_driven_pumps, ram_air_pumps),
        l.spec_update(
            delta_time,
            electric_pumps,
            engine_driven_pumps,
            ram_air_pumps,
            ptus,
        ).reservoir_volume.raw < i64::MAX,
    ensures
        ({
            let step = l.spec_step(
                delta_time,
                electric_pumps,
                engine_driven_pumps,
                ram_air_pumps,
                ptus,
            );
            let next = l.spec_update(
                delta_time,
                electric_pumps,
                engine_driven_pumps,
                ram_air_pumps,
                ptus,
            );
            let taken = (l.reservoir_volume.raw - step.exchanged.reservoir.raw)
                + step.primed.raw + step.regulated.raw;
            &&& next.reservoir_volume.raw == l.reservoir_volume.raw - taken
                + step.exchanged.reservoir_return.raw
            &&& taken >= 0
            &&& step.exchanged.reservoir_return.raw >= 0
            &&& next.reservoir_volume.raw <= l.reservoir_volume.raw
                <==> step.exchanged.reservoir_return.raw <= taken
        }),
{
    lemma_step_bounds(l, delta_time, electric_pumps, engine_driven_pumps, ram_air_pumps, ptus);
}

/// Volume balance: over a step that stays inside the representable range,
/// what reservoir, body of the loop and accumulator gain together is the
/// difference between the volume that the body of the loop takes up, which
/// is the low-passed gain of the high-pressure section, and that gain
/// itself. The exchange with transfer units is included: a loop draws from
/// and returns to its own reservoir.
pub proof fn lemma_volume_balance(
    l: HydLoop,
    delta_time: Fixed,
    electric_pumps: Seq<&ElectricPump>,
    engine_driven_pumps: Seq<&EngineDrivenPump>,
    ram_air_pumps: Seq<&RatPump>,
    ptus: Seq<&Ptu>,
)
    requires
        l.wf(),
        l.accumulator_fluid_volume.raw >= 0,
        delta_time.raw >= 0,
        spec_pumps_well_formed(electric_pumps, engine_driven_pumps, ram_air_pumps),
        spec_step_inside(l, delta_time, electric_pumps, engine_driven_pumps, ram_air_pumps, ptus),
    ensures
        ({
            let step = l.spec_step(
                delta_time,
                electric_pumps,
                engine_driven_pumps,
                ram_air_pumps,
                ptus,
            );
            let next = l.spec_update(
                delta_time,
                electric_pumps,
                engine_driven_pumps,
                ram_air_pumps,
                ptus,
            );
            (next.reservoir_volume.raw - l.reservoir_volume.raw) + (next.loop_volume.raw
                - l.loop_volume.raw) + (next.accumulator_fluid_volume.raw
                - l.accumulator_fluid_volume.raw) == next.current_delta_vol.raw
                - step.delta_vol.raw
        }),
{
    let step = l.spec_step(delta_time, electric_pumps, engine_driven_pumps, ram_air_pumps, ptus);
    let next = l.spec_update(delta_time, electric_pumps, engine_driven_pumps, ram_air_pumps, ptus);
    lemma_step_bounds(l, delta_time, electric_pumps, engine_driven_pumps, ram_air_pumps, ptus);
    let start = Exchange {
        reservoir: l.reservoir_volume,
        delta_vol: Fixed::new(0).spec_minus(step.static_leak),
        reservoir_return: Fixed::new(0).spec_plus(step.static_leak),
    };
    lemma_exchanges_balance(
        l.connected_to_ptu_left_side,
        l.connected_to_ptu_right_side,
        start,
        ptus,
        delta_time,
    );
    assert(spec_exchange_total(start) == l.reservoir_volume.raw);
    assert(spec_exchange_total(step.exchanged) == l.reservoir_volume.raw);
    lemma_accumulator_volume_bounds(
        l.accumulator_gas_pressure,
        l.loop_pressure,
        l.accumulator_fluid_volume,
        step.exchanged.delta_vol,
        delta_time,
    );
    assert(next.accumulator_fluid_volume.raw == l.accumulator_fluid_volume.raw
        - step.from_accumulator.raw);
    assert(step.delta_vol.raw == step.exchanged.delta_vol.raw + step.from_accumulator.raw
        + step.regulated.raw);
    assert(next.reservoir_volume.raw == step.exchanged.reservoir.raw - step.primed.raw
        - step.regulated.raw + step.exchanged.reservoir_return.raw);
    assert(next.loop_volume.raw == l.loop_volume.raw + step.primed.raw
        + next.current_delta_vol.raw);
}

/// Mass conservation: over a step that stays inside the representable
/// range, the gains of reservoir, body of the loop and accumulator, the
/// static leak and the volume taken by the consumers add up to nothing
/// exactly when the leak equals what the low-pass filter on the gain of the
/// high-pressure section holds back.
pub proof fn lemma_mass_conservation(
    l: HydLoop,
    delta_time: Fixed,
    electric_pumps: Seq<&ElectricPump>,
    engine_driven_pumps: Seq<&EngineDrivenPump>,
    ram_air_pumps: Seq<&RatPump>,
    ptus: Seq<&Ptu>,
)
    requires
        l.wf(),
        l.accumulator_fluid_volume.raw >= 0,
        delta_time.raw >= 0,
        spec_pumps_well_formed(electric_pumps, engine_driven_pumps, ram_air_pumps),
        spec_step_inside(l, delta_time, electric_pumps, engine_driven_pumps, ram_air_pumps, ptus),
    ensures
        ({
            let step = l.spec_step(
                delta_time,
                electric_pumps,
                engine_driven_pumps,
                ram_air_pumps,
                ptus,
            );
            let next = l.spec_update(
                delta_time,
                electric_pumps,
                engine_driven_pumps,
                ram_air_pumps,
                ptus,
            );
            ((next.reservoir_volume.raw - l.reservoir_volume.raw) + (next.loop_volume.raw
                - l.loop_volume.raw) + (next.accumulator_fluid_volume.raw
                - l.accumulator_fluid_volume.raw) + step.static_leak.raw + step.consumed.raw == 0)
                <==> (step.static_leak.raw == step.delta_vol.raw - next.current_delta_vol.raw)
        }),
{
    lemma_volume_balance(l, delta_time, electric_pumps, engine_driven_pumps, ram_air_pumps, ptus);
}

} // verus!
