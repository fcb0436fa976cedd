//! One hydraulic loop: reservoir, low-pressure body, compressible
//! high-pressure section and gas-charged accumulator.
use vstd::prelude::*;
use crate::accumulator::lemma_accumulator_volume_bounds;
use crate::balance::{spec_pumps_well_formed, lemma_reservoir_gains_only_returns};
use crate::fixed::{Fixed, low_pass, SCALE, lemma_times_non_negative, lemma_over_non_negative};
use crate::interpolation::{interpolation, interpolated, valid_table};
use crate::pump::{
    PressureSource,
    ElectricPump,
    EngineDrivenPump,
    RatPump,
    non_negative,
};
use crate::ptu::Ptu;
use crate::units::{
    MIN_LOOP_PRESSURE,
    TARGET_PRESSURE,
    ACCUMULATOR_GAS_PRE_CHARGE,
    ACCUMULATOR_MAX_VOLUME,
    STATIC_LEAK_FLOW,
    STATIC_LEAK_REFERENCE,
    PRESSURE_LOW_PASS_FILTER,
    DELTA_VOL_LOW_PASS_FILTER,
};

verus! {

#[derive(Clone, Copy, Debug, PartialEq, Eq, Structural)]
pub enum LoopColor {
    Blue,
    Green,
    Yellow,
}

/// The fluid of a loop. Its bulk modulus is the pressure that a relative
/// compression of one would cause.
pub struct HydFluid {
    pub current_bulk: Fixed,
}

impl HydFluid {
    /// The bulk modulus is positive.
    pub open spec fn wf(&self) -> bool {
        self.current_bulk.raw > 0
    }

    pub fn new(bulk: Fixed) -> (f: HydFluid)
        ensures
            f.current_bulk == bulk,
    {
        HydFluid { current_bulk: bulk }
    }

    pub fn get_bulk_mod(&self) -> (b: Fixed)
        ensures
            b == self.current_bulk,
    {
        self.current_bulk
    }
}

/// Pressure differences between accumulator gas and loop, in psi, at which
/// the exchanged flow is tabulated.
pub open spec fn accumulator_press_breakpoints() -> Seq<Fixed> {
    seq![
        Fixed::new(0),
        Fixed::new(5_000_000_000),
        Fixed::new(10_000_000_000),
        Fixed::new(50_000_000_000),
        Fixed::new(100_000_000_000),
        Fixed::new(200_000_000_000),
        Fixed::new(500_000_000_000),
        Fixed::new(1_000_000_000_000),
        Fixed::new(10_000_000_000_000),
    ]
}

/// Flow between accumulator and loop, in gallons per second, at each
/// breakpoint.
pub open spec fn accumulator_flow_carac() -> Seq<Fixed> {
    seq![
        Fixed::new(0),
        Fixed::new(5_000_000),
        Fixed::new(8_000_000),
        Fixed::new(10_000_000),
        Fixed::new(20_000_000),
        Fixed::new(80_000_000),
        Fixed::new(150_000_000),
        Fixed::new(350_000_000),
        Fixed::new(500_000_000),
    ]
}

pub struct HydLoop {
    pub fluid: HydFluid,
    pub accumulator_gas_pressure: Fixed,
    pub accumulator_gas_volume: Fixed,
    pub accumulator_fluid_volume: Fixed,
    pub accumulator_press_breakpoints: Vec<Fixed>,
    pub accumulator_flow_carac: Vec<Fixed>,
    pub color: LoopColor,
    pub connected_to_ptu_left_side: bool,
    pub connected_to_ptu_right_side: bool,
    pub loop_pressure: Fixed,
    pub loop_volume: Fixed,
    pub max_loop_volume: Fixed,
    pub high_pressure_volume: Fixed,
    pub ptu_active: bool,
    pub reservoir_volume: Fixed,
    pub current_delta_vol: Fixed,
    pub current_flow: Fixed,
    /// Total flow that the pumps of the loop could give at the last step.
    pub current_max_flow: Fixed,
}

fn accumulator_breakpoint_table() -> (v: Vec<Fixed>)
    ensures
        v@ == accumulator_press_breakpoints(),
{
    let mut v: Vec<Fixed> = Vec::new();
    v.push(Fixed::new(0));
    v.push(Fixed::new(5_000_000_000));
    v.push(Fixed::new(10_000_000_000));
    v.push(Fixed::new(50_000_000_000));
    v.push(Fixed::new(100_000_000_000));
    v.push(Fixed::new(200_000_000_000));
    v.push(Fixed::new(500_000_000_000));
    v.push(Fixed::new(1_000_000_000_000));
    v.push(Fixed::new(10_000_000_000_000));
    assert(v@ =~= accumulator_press_breakpoints());
    v
}

fn accumulator_flow_table() -> (v: Vec<Fixed>)
    ensures
        v@ == accumulator_flow_carac(),
{
    let mut v: Vec<Fixed> = Vec::new();
    v.push(Fixed::new(0));
    v.push(Fixed::new(5_000_000));
    v.push(Fixed::new(8_000_000));
    v.push(Fixed::new(10_000_000));
    v.push(Fixed::new(20_000_000));
    v.push(Fixed::new(80_000_000));
    v.push(Fixed::new(150_000_000));
    v.push(Fixed::new(350_000_000));
    v.push(Fixed::new(500_000_000));
    assert(v@ =~= accumulator_flow_carac());
    v
}

/// What the pumps in `pumps` can deliver at most in the current step, added
/// to `start`.
pub open spec fn accumulate_delta_vol_max<P: PressureSource>(start: Fixed, pumps: Seq<&P>) -> Fixed
    decreases pumps.len(),
{
    if pumps.len() == 0 {
        start
    } else {
        accumulate_delta_vol_max(start, pumps.drop_last()).plus(pumps.last().spec_delta_vol_max())
    }
}

/// What the pumps in `pumps` deliver at least in the current step, added to
/// `start`.
pub open spec fn accumulate_delta_vol_min<P: PressureSource>(start: Fixed, pumps: Seq<&P>) -> Fixed
    decreases pumps.len(),
{
    if pumps.len() == 0 {
        start
    } else {
        accumulate_delta_vol_min(start, pumps.drop_last()).plus(pumps.last().spec_delta_vol_min())
    }
}

fn add_delta_vol_max<P: PressureSource>(start: Fixed, pumps: &Vec<&P>) -> (total: Fixed)
    ensures
        total == accumulate_delta_vol_max(start, pumps@),
{
    let mut total = start;
    let mut i: usize = 0;
    while i < pumps.len()
        invariant
            i <= pumps.len(),
            total == accumulate_delta_vol_max(start, pumps@.take(i as int)),
        decreases pumps.len() - i,
    {
        assert(pumps@.take(i + 1).drop_last() =~= pumps@.take(i as int));
        total = total.plus(pumps[i].get_delta_vol_max());
        i += 1;
    }
    assert(pumps@.take(i as int) =~= pumps@);
    total
}

fn add_delta_vol_min<P: PressureSource>(start: Fixed, pumps: &Vec<&P>) -> (total: Fixed)
    ensures
        total == accumulate_delta_vol_min(start, pumps@),
{
    let mut total = start;
    let mut i: usize = 0;
    while i < pumps.len()
        invariant
            i <= pumps.len(),
            total == accumulate_delta_vol_min(start, pumps@.take(i as int)),
        decreases pumps.len() - i,
    {
        assert(pumps@.take(i + 1).drop_last() =~= pumps@.take(i as int));
        total = total.plus(pumps[i].get_delta_vol_min());
        i += 1;
    }
    assert(pumps@.take(i as int) =~= pumps@);
    total
}

/// Volume that leaks from the high-pressure section back to the reservoir in
/// `delta_time` seconds: proportional to the pressure above that of an
/// unpressurised loop.
pub open spec fn spec_static_leak(delta_time: Fixed, loop_pressure: Fixed) -> Fixed {
    Fixed::new(STATIC_LEAK_FLOW).times(delta_time).times(
        loop_pressure.minus(Fixed::new(MIN_LOOP_PRESSURE)),
    ).over(Fixed::new(STATIC_LEAK_REFERENCE))
}

/// The leak of a loop that is not below the pressure of an unpressurised
/// loop is not negative.
pub proof fn lemma_static_leak_non_negative(delta_time: Fixed, loop_pressure: Fixed)
    requires
        delta_time.raw >= 0,
        loop_pressure.raw >= MIN_LOOP_PRESSURE,
    ensures
        spec_static_leak(delta_time, loop_pressure).raw >= 0,
{
    lemma_times_non_negative(Fixed::new(STATIC_LEAK_FLOW), delta_time);
    lemma_times_non_negative(
        Fixed::new(STATIC_LEAK_FLOW).spec_times(delta_time),
        loop_pressure.spec_minus(Fixed::new(MIN_LOOP_PRESSURE)),
    );
    lemma_over_non_negative(
        Fixed::new(STATIC_LEAK_FLOW).spec_times(delta_time).spec_times(
            loop_pressure.spec_minus(Fixed::new(MIN_LOOP_PRESSURE)),
        ),
        Fixed::new(STATIC_LEAK_REFERENCE),
    );
}

fn static_leak(delta_time: Fixed, loop_pressure: Fixed) -> (leak: Fixed)
    ensures
        leak == spec_static_leak(delta_time, loop_pressure),
        delta_time.raw >= 0 && loop_pressure.raw >= MIN_LOOP_PRESSURE ==> leak.raw >= 0,
{
    proof {
        if delta_time.raw >= 0 && loop_pressure.raw >= MIN_LOOP_PRESSURE {
            lemma_static_leak_non_negative(delta_time, loop_pressure);
        }
    }
    Fixed::new(STATIC_LEAK_FLOW).times(delta_time).times(
        loop_pressure.minus(Fixed::new(MIN_LOOP_PRESSURE)),
    ).over(Fixed::new(STATIC_LEAK_REFERENCE))
}

/// The three volumes that the exchange with the transfer units works on.
#[derive(Clone, Copy)]
pub struct Exchange {
    /// Fluid in the reservoir.
    pub reservoir: Fixed,
    /// Net volume that has entered the high-pressure section in this step.
    pub delta_vol: Fixed,
    /// Volume on its way back to the reservoir at the end of the step.
    pub reservoir_return: Fixed,
}

/// Exchange with one transfer unit that publishes `flow` toward this loop.
///
/// A positive flow is drawn from the loop's own reservoir into its
/// high-pressure section, as far as the reservoir can sustain it for
/// `delta_time`. Any other flow is what the loop spends to drive the other
/// side: it leaves the high-pressure section and returns to the reservoir.
pub open spec fn spec_exchange_flow(ex: Exchange, flow: Fixed, delta_time: Fixed) -> Exchange {
    if flow.raw > 0 {
        let vol = flow.min(ex.reservoir.over(delta_time)).times(delta_time);
        Exchange { reservoir: ex.reservoir.minus(vol), delta_vol: ex.delta_vol.plus(vol), ..ex }
    } else {
        let vol = flow.times(delta_time);
        Exchange {
            reservoir_return: ex.reservoir_return.minus(vol),
            delta_vol: ex.delta_vol.plus(vol),
            ..ex
        }
    }
}

/// Exchange with one transfer unit, seen from the side that the loop is
/// connected to. A loop on neither side exchanges nothing.
pub open spec fn spec_exchange_with_ptu(
    left_side: bool,
    right_side: bool,
    ex: Exchange,
    ptu: &Ptu,
    delta_time: Fixed,
) -> Exchange {
    if left_side {
        spec_exchange_flow(ex, ptu.flow_to_left, delta_time)
    } else if right_side {
        spec_exchange_flow(ex, ptu.flow_to_right, delta_time)
    } else {
        ex
    }
}

/// Exchange with every transfer unit of `ptus` in turn.
pub open spec fn spec_exchange_with_ptus(
    left_side: bool,
    right_side: bool,
    ex: Exchange,
    ptus: Seq<&Ptu>,
    delta_time: Fixed,
) -> Exchange
    decreases ptus.len(),
{
    if ptus.len() == 0 {
        ex
    } else {
        spec_exchange_with_ptu(
            left_side,
            right_side,
            spec_exchange_with_ptus(left_side, right_side, ex, ptus.drop_last(), delta_time),
            ptus.last(),
            delta_time,
        )
    }
}

/// The unit transfers in one direction or the other.
pub open spec fn spec_ptu_is_active(ptu: &Ptu) -> bool {
    ptu.is_active_left || ptu.is_active_right
}

/// The loop is connected to a transfer unit of `ptus` that is active in
/// either direction.
pub open spec fn spec_any_ptu_active(connected: bool, ptus: Seq<&Ptu>) -> bool {
    connected && exists|i: int| 0 <= i < ptus.len() && spec_ptu_is_active(#[trigger] ptus[i])
}

/// One more unit is active if it is, or if one of those before it is.
pub proof fn lemma_any_ptu_active_step(connected: bool, ptus: Seq<&Ptu>)
    requires
        ptus.len() > 0,
    ensures
        spec_any_ptu_active(connected, ptus) == (spec_any_ptu_active(connected, ptus.drop_last())
            || (connected && spec_ptu_is_active(ptus.last()))),
{
    let before = ptus.drop_last();
    if spec_any_ptu_active(connected, ptus) {
        let k = choose|k: int| 0 <= k < ptus.len() && spec_ptu_is_active(#[trigger] ptus[k]);
        if k < ptus.len() - 1 {
            assert(before[k] == ptus[k]);
            assert(spec_ptu_is_active(before[k]));
        }
    }
    if spec_any_ptu_active(connected, before) {
        let k = choose|k: int| 0 <= k < before.len() && spec_ptu_is_active(#[trigger] before[k]);
        assert(ptus[k] == before[k]);
        assert(spec_ptu_is_active(ptus[k]));
    }
    if connected && spec_ptu_is_active(ptus.last()) {
        assert(spec_ptu_is_active(ptus[ptus.len() - 1]));
    }
}

/// A flow that the reservoir sustains for `delta_time` takes no more than
/// the reservoir holds.
pub proof fn lemma_draw_within_reservoir(reservoir: Fixed, flow: Fixed, delta_time: Fixed)
    requires
        reservoir.raw >= 0,
        flow.raw > 0,
        delta_time.raw >= 0,
    ensures
        0 <= flow.spec_min(reservoir.spec_over(delta_time)).spec_times(delta_time).raw
            <= reservoir.raw,
{
    let r = reservoir.raw as int;
    let t = delta_time.raw as int;
    let s = SCALE as int;
    let sustained = reservoir.spec_over(delta_time);
    let actual = flow.spec_min(sustained);
    let a = actual.raw as int;
    if t == 0 {
        assert(a >= 0);
        assert(a * t == 0) by (nonlinear_arith)
            requires
                t == 0,
        ;
    } else {
        assert(r * s >= 0) by (nonlinear_arith)
            requires
                r >= 0,
                s > 0,
        ;
        vstd::arithmetic::div_mod::lemma_div_pos_is_pos(r * s, t);
        assert(0 <= sustained.raw <= (r * s) / t);
        assert(0 <= a <= (r * s) / t);
        vstd::arithmetic::div_mod::lemma_fundamental_div_mod(r * s, t);
        vstd::arithmetic::div_mod::lemma_mod_bound(r * s, t);
        assert(a * t <= ((r * s) / t) * t && 0 <= a * t) by (nonlinear_arith)
            requires
                0 <= a <= (r * s) / t,
                t > 0,
        ;
        assert(((r * s) / t) * t == t * ((r * s) / t)) by (nonlinear_arith);
        assert(a * t <= r * s);
        vstd::arithmetic::div_mod::lemma_div_is_ordered(a * t, r * s, s);
        vstd::arithmetic::div_mod::lemma_div_is_ordered(0, a * t, s);
        vstd::arithmetic::div_mod::lemma_div_multiples_vanish(r, s);
    }
}

/// The exchange with a transfer unit neither overdraws the reservoir nor
/// takes from what returns to it.
pub proof fn lemma_exchange_keeps_reservoir(ex: Exchange, flow: Fixed, delta_time: Fixed)
    requires
        ex.reservoir.raw >= 0,
        ex.reservoir_return.raw >= 0,
        delta_time.raw >= 0,
    ensures
        spec_exchange_flow(ex, flow, delta_time).reservoir.raw >= 0,
        spec_exchange_flow(ex, flow, delta_time).reservoir_return.raw >= 0,
{
    if flow.raw > 0 {
        lemma_draw_within_reservoir(ex.reservoir, flow, delta_time);
    } else {
        assert(flow.raw * delta_time.raw <= 0) by (nonlinear_arith)
            requires
                flow.raw <= 0,
                delta_time.raw >= 0,
        ;
    }
}

fn exchange_with_ptus(
    left_side: bool,
    right_side: bool,
    start: Exchange,
    ptus: &Vec<&Ptu>,
    delta_time: Fixed,
) -> (r: (Exchange, bool))
    ensures
        r.0 == spec_exchange_with_ptus(left_side, right_side, start, ptus@, delta_time),
        r.1 == spec_any_ptu_active(left_side || right_side, ptus@),
        start.reservoir.raw >= 0 && start.reservoir_return.raw >= 0 && delta_time.raw >= 0 ==> r.0.reservoir.raw
            >= 0 && r.0.reservoir_return.raw >= 0,
{
    let mut ex = start;
    let mut active = false;
    let mut i: usize = 0;
    while i < ptus.len()
        invariant
            i <= ptus.len(),
            ex == spec_exchange_with_ptus(
                left_side,
                right_side,
                start,
                ptus@.take(i as int),
                delta_time,
            ),
            active == spec_any_ptu_active(left_side || right_side, ptus@.take(i as int)),
            start.reservoir.raw >= 0 && start.reservoir_return.raw >= 0 && delta_time.raw >= 0 ==> ex.reservoir.raw
                >= 0 && ex.reservoir_return.raw >= 0,
        decreases ptus.len() - i,
    {
        let ptu = ptus[i];
        proof {
            assert(ptus@.take(i + 1).drop_last() =~= ptus@.take(i as int));
            assert(ptus@.take(i + 1).last() == ptus@[i as int]);
            lemma_any_ptu_active_step(left_side || right_side, ptus@.take(i + 1));
            if start.reservoir.raw >= 0 && start.reservoir_return.raw >= 0 && delta_time.raw >= 0 {
                lemma_exchange_keeps_reservoir(ex, ptu.flow_to_left, delta_time);
                lemma_exchange_keeps_reservoir(ex, ptu.flow_to_right, delta_time);
            }
        }
        if left_side {
            if ptu.is_active_left || ptu.is_active_right {
                active = true;
            }
            ex = exchange_flow(ex, ptu.flow_to_left, delta_time);
        } else if right_side {
            if ptu.is_active_left || ptu.is_active_right {
                active = true;
            }
            ex = exchange_flow(ex, ptu.flow_to_right, delta_time);
        }
        i += 1;
    }
    assert(ptus@.take(i as int) =~= ptus@);
    (ex, active)
}

fn exchange_flow(ex: Exchange, flow: Fixed, delta_time: Fixed) -> (r: Exchange)
    ensures
        r == spec_exchange_flow(ex, flow, delta_time),
{
    if flow.raw > 0 {
        let vol = flow.min(ex.reservoir.over(delta_time)).times(delta_time);
        Exchange {
            reservoir: ex.reservoir.minus(vol),
            delta_vol: ex.delta_vol.plus(vol),
            reservoir_return: ex.reservoir_return,
        }
    } else {
        let vol = flow.times(delta_time);
        Exchange {
            reservoir: ex.reservoir,
            delta_vol: ex.delta_vol.plus(vol),
            reservoir_return: ex.reservoir_return.minus(vol),
        }
    }
}

/// Volume that priming moves from the reservoir into the body of the loop:
/// nothing once the loop is full, else what the reservoir holds, the pumps
/// can deliver and the loop still lacks, whichever is least.
pub open spec fn spec_priming_volume(
    loop_volume: Fixed,
    max_loop_volume: Fixed,
    reservoir: Fixed,
    delta_vol_max: Fixed,
) -> Fixed {
    if loop_volume.raw < max_loop_volume.raw {
        reservoir.min(delta_vol_max).min(max_loop_volume.minus(loop_volume))
    } else {
        Fixed::new(0)
    }
}

/// Accumulator gas pressure for a given volume of fluid in the accumulator,
/// by Boyle's law from the pre-charge at the empty accumulator.
pub open spec fn spec_gas_pressure(fluid_volume: Fixed) -> Fixed {
    Fixed::new(ACCUMULATOR_GAS_PRE_CHARGE).times(Fixed::new(ACCUMULATOR_MAX_VOLUME)).over(
        Fixed::new(ACCUMULATOR_MAX_VOLUME).minus(fluid_volume),
    )
}

/// Volume that passes between accumulator and loop in `delta_time` seconds,
/// counted positive into the loop.
///
/// While the gas pressure exceeds the loop pressure the accumulator
/// discharges: as much as the tabulated flow gives, and no more than the
/// fluid it holds. Else the loop charges it: as much of the volume gained so
/// far in the step as the tabulated flow lets pass, and never a negative
/// volume.
pub open spec fn spec_accumulator_volume(
    gas_pressure: Fixed,
    loop_pressure: Fixed,
    fluid_volume: Fixed,
    delta_vol: Fixed,
    delta_time: Fixed,
) -> Fixed {
    let delta_press = gas_pressure.minus(loop_pressure);
    let flow = interpolated(
        accumulator_press_breakpoints(),
        accumulator_flow_carac(),
        delta_press.abs(),
    );
    if delta_press.raw > 0 {
        fluid_volume.min(flow.times(delta_time))
    } else {
        Fixed::new(0).max(delta_vol.min(flow.times(delta_time))).negate()
    }
}

/// Volume that the pumps add to bring the loop to its target pressure: what
/// is `needed`, kept between what the pumps deliver at least and at most, and
/// no more than the reservoir holds.
pub open spec fn spec_regulation_volume(
    needed: Fixed,
    delta_vol_min: Fixed,
    delta_vol_max: Fixed,
    reservoir: Fixed,
) -> Fixed {
    reservoir.min(delta_vol_min.max(delta_vol_max.min(needed)))
}

/// The accumulator table is ordered and holds no negative flow.
pub proof fn lemma_accumulator_table_valid()
    ensures
        valid_table(accumulator_press_breakpoints(), accumulator_flow_carac()),
        non_negative(accumulator_flow_carac()),
{
    let xs = accumulator_press_breakpoints();
    assert(xs.len() == 9);
    assert(xs[0].raw == 0 && xs[1].raw == 5_000_000_000 && xs[2].raw == 10_000_000_000
        && xs[3].raw == 50_000_000_000 && xs[4].raw == 100_000_000_000 && xs[5].raw
        == 200_000_000_000 && xs[6].raw == 500_000_000_000 && xs[7].raw == 1_000_000_000_000
        && xs[8].raw == 10_000_000_000_000);
    let ys = accumulator_flow_carac();
    assert(ys.len() == 9);
    assert(ys[0].raw == 0 && ys[1].raw == 5_000_000 && ys[2].raw == 8_000_000 && ys[3].raw
        == 10_000_000 && ys[4].raw == 20_000_000 && ys[5].raw == 80_000_000 && ys[6].raw
        == 150_000_000 && ys[7].raw == 350_000_000 && ys[8].raw == 500_000_000);
}

/// The volumes that one step of a loop moves.
#[derive(Clone, Copy)]
pub struct Step {
    /// What the pumps can deliver at most, before priming.
    pub delta_vol_max: Fixed,
    /// What the pumps deliver at least.
    pub delta_vol_min: Fixed,
    /// Volume leaked from the high-pressure section to the reservoir.
    pub static_leak: Fixed,
    /// Reservoir, high-pressure gain and reservoir return after the exchange
    /// with the transfer units.
    pub exchanged: Exchange,
    /// Volume moved from the reservoir into the body of the loop.
    pub primed: Fixed,
    /// Volume passed from the accumulator to the loop; negative when the
    /// loop charges the accumulator.
    pub from_accumulator: Fixed,
    /// Volume taken by the consumers.
    pub consumed: Fixed,
    /// Volume added by the pumps from the reservoir.
    pub regulated: Fixed,
    /// Net volume that has entered the high-pressure section, before it is
    /// filtered.
    pub delta_vol: Fixed,
}

impl HydLoop {
    /// What holds of a loop at all times: the pressure is at least that of
    /// an unpressurised loop, the reservoir is not overdrawn, the
    /// compressible volume and the bulk modulus are positive, the loop hangs
    /// on one side of the transfer unit at most, and the accumulator table is
    /// the one it was built with.
    pub open spec fn wf(&self) -> bool {
        &&& self.loop_pressure.raw >= MIN_LOOP_PRESSURE
        &&& self.reservoir_volume.raw >= 0
        &&& self.high_pressure_volume.raw > 0
        &&& self.fluid.wf()
        &&& !(self.connected_to_ptu_left_side && self.connected_to_ptu_right_side)
        &&& self.accumulator_press_breakpoints@ == accumulator_press_breakpoints()
        &&& self.accumulator_flow_carac@ == accumulator_flow_carac()
    }

    /// The loop as it is built: unpressurised, its accumulator empty of
    /// fluid and at its pre-charge, nothing moving.
    pub open spec fn at_rest(&self) -> bool {
        &&& self.loop_pressure.raw == MIN_LOOP_PRESSURE
        &&& self.accumulator_gas_pressure.raw == ACCUMULATOR_GAS_PRE_CHARGE
        &&& self.accumulator_gas_volume.raw == ACCUMULATOR_MAX_VOLUME
        &&& self.accumulator_fluid_volume.raw == 0
        &&& self.accumulator_press_breakpoints@ == accumulator_press_breakpoints()
        &&& self.accumulator_flow_carac@ == accumulator_flow_carac()
        &&& !self.ptu_active
        &&& self.current_delta_vol.raw == 0
        &&& self.current_flow.raw == 0
        &&& self.current_max_flow.raw == 0
    }

    /// The accumulator holds fluid and gas that fill its fixed volume.
    pub open spec fn accumulator_partitioned(&self) -> bool {
        &&& self.accumulator_fluid_volume.raw >= 0
        &&& self.accumulator_fluid_volume.raw + self.accumulator_gas_volume.raw
            == ACCUMULATOR_MAX_VOLUME
    }

    /// A loop at rest: unpressurised, accumulator empty of fluid and at its
    /// pre-charge.
    pub fn new(
        color: LoopColor,
        connected_to_ptu_left_side: bool,
        connected_to_ptu_right_side: bool,
        loop_volume: Fixed,
        max_loop_volume: Fixed,
        high_pressure_volume: Fixed,
        reservoir_volume: Fixed,
        fluid: HydFluid,
    ) -> (l: HydLoop)
        ensures
            l.color == color,
            l.connected_to_ptu_left_side == connected_to_ptu_left_side,
            l.connected_to_ptu_right_side == connected_to_ptu_right_side,
            l.loop_volume == loop_volume,
            l.max_loop_volume == max_loop_volume,
            l.high_pressure_volume == high_pressure_volume,
            l.reservoir_volume == reservoir_volume,
            l.fluid == fluid,
            l.at_rest(),
            l.accumulator_partitioned(),
            l.wf() <==> (reservoir_volume.raw >= 0 && high_pressure_volume.raw > 0 && fluid.wf()
                && !(connected_to_ptu_left_side && connected_to_ptu_right_side)),
    {
        HydLoop {
            accumulator_gas_pressure: Fixed::new(ACCUMULATOR_GAS_PRE_CHARGE),
            accumulator_gas_volume: Fixed::new(ACCUMULATOR_MAX_VOLUME),
            accumulator_fluid_volume: Fixed::new(0),
            color,
            connected_to_ptu_left_side,
            connected_to_ptu_right_side,
            loop_pressure: Fixed::new(MIN_LOOP_PRESSURE),
            loop_volume,
            max_loop_volume,
            high_pressure_volume,
            ptu_active: false,
            reservoir_volume,
            fluid,
            current_delta_vol: Fixed::new(0),
            current_flow: Fixed::new(0),
            accumulator_press_breakpoints: accumulator_breakpoint_table(),
            accumulator_flow_carac: accumulator_flow_table(),
            current_max_flow: Fixed::new(0),
        }
    }

    pub fn get_pressure(&self) -> (p: Fixed)
        ensures
            p == self.loop_pressure,
    {
        self.loop_pressure
    }

    pub fn get_reservoir_volume(&self) -> (v: Fixed)
        ensures
            v == self.reservoir_volume,
    {
        self.reservoir_volume
    }

    /// Takes `amount` from the reservoir, or all that it holds where that is
    /// less, and hands out what was taken.
    pub fn draw_reservoir_fluid(&mut self, amount: Fixed) -> (drawn: Fixed)
        ensures
            drawn == old(self).spec_usable_reservoir_fluid(amount),
            *final(self) == (HydLoop {
                reservoir_volume: old(self).reservoir_volume.spec_minus(drawn),
                ..*old(self)
            }),
            old(self).wf() && amount.raw >= 0 ==> final(self).wf(),
    {
        let drawn = self.get_usable_reservoir_fluid(amount);
        self.reservoir_volume = self.reservoir_volume.minus(drawn);
        drawn
    }

    pub open spec fn spec_usable_reservoir_fluid(&self, amount: Fixed) -> Fixed {
        amount.min(self.reservoir_volume)
    }

    /// The part of `amount` that the reservoir can give.
    pub fn get_usable_reservoir_fluid(&self, amount: Fixed) -> (drawn: Fixed)
        ensures
            drawn == self.spec_usable_reservoir_fluid(amount),
    {
        amount.min(self.reservoir_volume)
    }

    pub open spec fn spec_usable_reservoir_flow(&self, amount: Fixed, delta_time: Fixed) -> Fixed {
        amount.min(self.reservoir_volume.over(delta_time))
    }

    /// The part of the flow `amount` that the reservoir can sustain for
    /// `delta_time`.
    pub fn get_usable_reservoir_flow(&self, amount: Fixed, delta_time: Fixed) -> (drawn: Fixed)
        ensures
            drawn == self.spec_usable_reservoir_flow(amount, delta_time),
    {
        amount.min(self.reservoir_volume.over(delta_time))
    }

    pub open spec fn spec_delta_pressure_from_delta_volume(&self, delta_vol: Fixed) -> Fixed {
        delta_vol.over(self.high_pressure_volume).times(self.fluid.current_bulk)
    }

    /// Pressure change that adding `delta_vol` to the compressible volume
    /// causes, by the bulk modulus.
    pub fn delta_pressure_from_delta_volume(&self, delta_vol: Fixed) -> (dp: Fixed)
        ensures
            dp == self.spec_delta_pressure_from_delta_volume(delta_vol),
    {
        delta_vol.over(self.high_pressure_volume).times(self.fluid.get_bulk_mod())
    }

    pub open spec fn spec_vol_to_target(&self, target_press: Fixed) -> Fixed {
        target_press.minus(self.loop_pressure).times(self.high_pressure_volume).over(
            self.fluid.current_bulk,
        )
    }

    /// Volume to add to the compressible volume to bring the loop to
    /// `target_press`.
    pub fn vol_to_target(&self, target_press: Fixed) -> (v: Fixed)
        ensures
            v == self.spec_vol_to_target(target_press),
    {
        target_press.minus(self.loop_pressure).times(self.high_pressure_volume).over(
            self.fluid.get_bulk_mod(),
        )
    }

    /// The volumes that a step of `delta_time` seconds moves, with the given
    /// pumps and transfer units attached.
    pub open spec fn spec_step(
        &self,
        delta_time: Fixed,
        electric_pumps: Seq<&ElectricPump>,
        engine_driven_pumps: Seq<&EngineDrivenPump>,
        ram_air_pumps: Seq<&RatPump>,
        ptus: Seq<&Ptu>,
    ) -> Step {
        let zero = Fixed::new(0);
        let delta_vol_max = accumulate_delta_vol_max(
            accumulate_delta_vol_max(
                accumulate_delta_vol_max(zero, engine_driven_pumps),
                electric_pumps,
            ),
            ram_air_pumps,
        );
        let delta_vol_min = accumulate_delta_vol_min(
            accumulate_delta_vol_min(
                accumulate_delta_vol_min(zero, engine_driven_pumps),
                electric_pumps,
            ),
            ram_air_pumps,
        );
        let static_leak = spec_static_leak(delta_time, self.loop_pressure);
        let exchanged = spec_exchange_with_ptus(
            self.connected_to_ptu_left_side,
            self.connected_to_ptu_right_side,
            Exchange {
                reservoir: self.reservoir_volume,
                delta_vol: zero.minus(static_leak),
                reservoir_return: zero.plus(static_leak),
            },
            ptus,
            delta_time,
        );
        let primed = spec_priming_volume(
            self.loop_volume,
            self.max_loop_volume,
            exchanged.reservoir,
            delta_vol_max,
        );
        let from_accumulator = spec_accumulator_volume(
            self.accumulator_gas_pressure,
            self.loop_pressure,
            self.accumulator_fluid_volume,
            exchanged.delta_vol,
            delta_time,
        );
        let consumed = zero;
        let before_regulation = exchanged.delta_vol.plus(from_accumulator).minus(consumed);
        let regulated = spec_regulation_volume(
            self.spec_vol_to_target(Fixed::new(TARGET_PRESSURE)).minus(before_regulation),
            delta_vol_min,
            delta_vol_max.minus(primed),
            exchanged.reservoir.minus(primed),
        );
        Step {
            delta_vol_max,
            delta_vol_min,
            static_leak,
            exchanged,
            primed,
            from_accumulator,
            consumed,
            regulated,
            delta_vol: before_regulation.plus(regulated),
        }
    }

    /// The loop after a step of `delta_time` seconds.
    ///
    /// The reservoir gives what priming, the transfer units and the pumps
    /// take and receives the leak and what the transfer units send back. The
    /// accumulator gives or takes its share and its gas pressure follows
    /// Boyle's law. The pressure moves by three quarters of what the net
    /// volume gained gives by the bulk modulus, and never falls below that
    /// of an unpressurised loop. The body of the loop takes the priming
    /// volume and the low-passed net volume, which is published with the
    /// flows.
    pub open spec fn spec_update(
        self,
        delta_time: Fixed,
        electric_pumps: Seq<&ElectricPump>,
        engine_driven_pumps: Seq<&EngineDrivenPump>,
        ram_air_pumps: Seq<&RatPump>,
        ptus: Seq<&Ptu>,
    ) -> HydLoop {
        let step = self.spec_step(
            delta_time,
            electric_pumps,
            engine_driven_pumps,
            ram_air_pumps,
            ptus,
        );
        let fluid_volume = self.accumulator_fluid_volume.minus(step.from_accumulator);
        let raw_pressure = self.loop_pressure.plus(
            self.spec_delta_pressure_from_delta_volume(step.delta_vol),
        );
        let filtered = low_pass(
            Fixed::new(DELTA_VOL_LOW_PASS_FILTER),
            step.delta_vol,
            self.current_delta_vol,
        );
        HydLoop {
            current_max_flow: step.delta_vol_max.over(delta_time),
            ptu_active: spec_any_ptu_active(
                self.connected_to_ptu_left_side || self.connected_to_ptu_right_side,
                ptus,
            ),
            accumulator_fluid_volume: fluid_volume,
            accumulator_gas_volume: self.accumulator_gas_volume.plus(step.from_accumulator),
            accumulator_gas_pressure: spec_gas_pressure(fluid_volume),
            loop_pressure: low_pass(
                Fixed::new(PRESSURE_LOW_PASS_FILTER),
                raw_pressure,
                self.loop_pressure,
            ).max(Fixed::new(MIN_LOOP_PRESSURE)),
            reservoir_volume: step.exchanged.reservoir.minus(step.primed).minus(
                step.regulated,
            ).plus(step.exchanged.reservoir_return),
            loop_volume: self.loop_volume.plus(step.primed).plus(filtered),
            current_delta_vol: filtered,
            current_flow: filtered.over(delta_time),
            ..self
        }
    }

    /// Advances the loop by `delta_time` seconds, with the pumps that feed
    /// it and the transfer units that it hangs on as they stand after their
    /// own update.
    ///
    /// The loop stays well formed: its pressure is not below that of an
    /// unpressurised loop and its reservoir is not overdrawn. A partitioned
    /// accumulator stays partitioned. With well-formed pumps the reservoir
    /// rises by no more than what returns to it, the leak and what the loop
    /// has spent on a transfer unit; it is not bounded by what it held at
    /// first.
    pub fn update(
        &mut self,
        delta_time: Fixed,
        electric_pumps: Vec<&ElectricPump>,
        engine_driven_pumps: Vec<&EngineDrivenPump>,
        ram_air_pumps: Vec<&RatPump>,
        ptus: Vec<&Ptu>,
    )
        requires
            old(self).wf(),
            delta_time.raw >= 0,
        ensures
            *final(self) == old(self).spec_update(
                delta_time,
                electric_pumps@,
                engine_driven_pumps@,
                ram_air_pumps@,
                ptus@,
            ),
            final(self).wf(),
            old(self).accumulator_partitioned() && final(self).accumulator_fluid_volume.raw
                < i64::MAX ==> final(self).accumulator_partitioned(),
            spec_pumps_well_formed(
                electric_pumps@,
                engine_driven_pumps@,
                ram_air_pumps@,
            ) ==> final(self).reservoir_volume.raw <= old(self).reservoir_volume.raw + old(
                self,
            ).spec_step(
                delta_time,
                electric_pumps@,
                engine_driven_pumps@,
                ram_air_pumps@,
                ptus@,
            ).exchanged.reservoir_return.raw,
    {
        proof {
            if spec_pumps_well_formed(
                electric_pumps@,
                engine_driven_pumps@,
                ram_air_pumps@,
            ) {
                lemma_reservoir_gains_only_returns(
                    *self,
                    delta_time,
                    electric_pumps@,
                    engine_driven_pumps@,
                    ram_air_pumps@,
                    ptus@,
                );
            }
            if old(self).accumulator_partitioned() {
                lemma_accumulator_volume_bounds(
                    self.accumulator_gas_pressure,
                    self.loop_pressure,
                    self.accumulator_fluid_volume,
                    self.spec_step(
                        delta_time,
                        electric_pumps@,
                        engine_driven_pumps@,
                        ram_air_pumps@,
                        ptus@,
                    ).exchanged.delta_vol,
                    delta_time,
                );
            }
        }
        let zero = Fixed::new(0);
        let mut delta_vol_max = add_delta_vol_max(zero, &engine_driven_pumps);
        delta_vol_max = add_delta_vol_max(delta_vol_max, &electric_pumps);
        delta_vol_max = add_delta_vol_max(delta_vol_max, &ram_air_pumps);
        let mut delta_vol_min = add_delta_vol_min(zero, &engine_driven_pumps);
        delta_vol_min = add_delta_vol_min(delta_vol_min, &electric_pumps);
        delta_vol_min = add_delta_vol_min(delta_vol_min, &ram_air_pumps);

        let current_max_flow = delta_vol_max.over(delta_time);

        let leak = static_leak(delta_time, self.loop_pressure);
        let (exchanged, ptu_active) = exchange_with_ptus(
            self.connected_to_ptu_left_side,
            self.connected_to_ptu_right_side,
            Exchange {
                reservoir: self.reservoir_volume,
                delta_vol: zero.minus(leak),
                reservoir_return: zero.plus(leak),
            },
            &ptus,
            delta_time,
        );
        let mut reservoir = exchanged.reservoir;
        let mut delta_vol = exchanged.delta_vol;

        let mut primed = zero;
        if self.loop_volume.raw < self.max_loop_volume.raw {
            primed = reservoir.min(delta_vol_max).min(self.max_loop_volume.minus(self.loop_volume));
        }
        delta_vol_max = delta_vol_max.minus(primed);
        reservoir = reservoir.minus(primed);

        let delta_press = self.accumulator_gas_pressure.minus(self.loop_pressure);
        proof {
            lemma_accumulator_table_valid();
        }
        let flow = interpolation(
            self.accumulator_press_breakpoints.as_slice(),
            self.accumulator_flow_carac.as_slice(),
            delta_press.abs(),
        );
        let from_accumulator = if delta_press.raw > 0 {
            self.accumulator_fluid_volume.min(flow.times(delta_time))
        } else {
            zero.max(delta_vol.min(flow.times(delta_time))).negate()
        };
        let fluid_volume = self.accumulator_fluid_volume.minus(from_accumulator);
        let gas_volume = self.accumulator_gas_volume.plus(from_accumulator);
        delta_vol = delta_vol.plus(from_accumulator);

        let consumed = zero;
        delta_vol = delta_vol.minus(consumed);

        let needed = self.vol_to_target(Fixed::new(TARGET_PRESSURE)).minus(delta_vol);
        let regulated = reservoir.min(delta_vol_min.max(delta_vol_max.min(needed)));
        delta_vol = delta_vol.plus(regulated);

        let raw_pressure = self.loop_pressure.plus(self.delta_pressure_from_delta_volume(delta_vol));
        let pressure = low_pass(
            Fixed::new(PRESSURE_LOW_PASS_FILTER),
            raw_pressure,
            self.loop_pressure,
        ).max(Fixed::new(MIN_LOOP_PRESSURE));

        reservoir = reservoir.minus(regulated).plus(exchanged.reservoir_return);

        let filtered = low_pass(
            Fixed::new(DELTA_VOL_LOW_PASS_FILTER),
            delta_vol,
            self.current_delta_vol,
        );

        self.current_max_flow = current_max_flow;
        self.ptu_active = ptu_active;
        self.accumulator_fluid_volume = fluid_volume;
        self.accumulator_gas_volume = gas_volume;
        self.accumulator_gas_pressure = Fixed::new(ACCUMULATOR_GAS_PRE_CHARGE).times(
            Fixed::new(ACCUMULATOR_MAX_VOLUME),
        ).over(Fixed::new(ACCUMULATOR_MAX_VOLUME).minus(fluid_volume));
        self.loop_pressure = pressure;
        self.reservoir_volume = reservoir;
        self.loop_volume = self.loop_volume.plus(primed).plus(filtered);
        self.current_delta_vol = filtered;
        self.current_flow = filtered.over(delta_time);
    }
}

/// Pressure floor: whatever the pumps, the transfer units and the time
/// step, a loop leaves a step at no less than the pressure of an
/// unpressurised loop.
pub proof fn lemma_pressure_floor(
    l: HydLoop,
    delta_time: Fixed,
    electric_pumps: Seq<&ElectricPump>,
    engine_driven_pumps: Seq<&EngineDrivenPump>,
    ram_air_pumps: Seq<&RatPump>,
    ptus: Seq<&Ptu>,
)
    ensures
        l.spec_update(
            delta_time,
            electric_pumps,
            engine_driven_pumps,
            ram_air_pumps,
            ptus,
        ).loop_pressure.raw >= MIN_LOOP_PRESSURE,
{
}

} // verus!
