use hydraulic::fixed::Fixed;
use hydraulic::hyd_loop::{HydFluid, HydLoop, LoopColor};
use hydraulic::ptu::Ptu;
use hydraulic::pump::{ElectricPump, EngineDrivenPump, PressureSource, RatPump};
use hydraulic::simulation::Engine;

fn fx(x: f64) -> Fixed {
    Fixed::new((x * 1e9).round() as i64)
}

fn fluid() -> HydFluid {
    HydFluid::new(Fixed::new(210_304_728_651_061))
}

fn green_loop() -> HydLoop {
    HydLoop::new(LoopColor::Green, true, false, fx(10.2), fx(10.2), fx(8.0), fx(3.3), fluid())
}

fn yellow_loop() -> HydLoop {
    HydLoop::new(LoopColor::Yellow, false, true, fx(26.0), fx(26.41), fx(10.0), fx(3.83), fluid())
}

fn blue_loop() -> HydLoop {
    HydLoop::new(LoopColor::Blue, false, false, fx(15.85), fx(15.85), fx(8.0), fx(1.5), fluid())
}

fn engine_at(n2: f64) -> Engine {
    let mut engine = Engine::new();
    engine.n2 = fx(n2);
    engine
}

fn publishing(flow_to_left: f64, flow_to_right: f64, left: bool, right: bool) -> Ptu {
    let mut ptu = Ptu::new();
    ptu.flow_to_left = fx(flow_to_left);
    ptu.flow_to_right = fx(flow_to_right);
    ptu.is_active_left = left;
    ptu.is_active_right = right;
    ptu
}

#[test]
fn new_loop_is_unpressurised_with_an_empty_accumulator() {
    let l = green_loop();
    assert_eq!(l.color, LoopColor::Green);
    assert!(l.connected_to_ptu_left_side);
    assert!(!l.connected_to_ptu_right_side);
    assert_eq!(l.get_pressure(), fx(14.7));
    assert_eq!(l.get_reservoir_volume(), fx(3.3));
    assert_eq!(l.loop_volume, fx(10.2));
    assert_eq!(l.max_loop_volume, fx(10.2));
    assert_eq!(l.high_pressure_volume, fx(8.0));
    assert_eq!(l.fluid.get_bulk_mod().raw, 210_304_728_651_061);
    assert_eq!(l.accumulator_gas_pressure, fx(1885.0));
    assert_eq!(l.accumulator_gas_volume, fx(0.264));
    assert_eq!(l.accumulator_fluid_volume.raw, 0);
    assert!(!l.ptu_active);
    assert_eq!(l.current_delta_vol.raw, 0);
    assert_eq!(l.current_flow.raw, 0);
    assert_eq!(l.current_max_flow.raw, 0);
    let breakpoints = [0.0, 5.0, 10.0, 50.0, 100.0, 200.0, 500.0, 1000.0, 10000.0];
    let flows = [0.0, 0.005, 0.008, 0.01, 0.02, 0.08, 0.15, 0.35, 0.5];
    assert_eq!(l.accumulator_press_breakpoints.len(), 9);
    assert_eq!(l.accumulator_flow_carac.len(), 9);
    for i in 0..9 {
        assert_eq!(l.accumulator_press_breakpoints[i], fx(breakpoints[i]));
        assert_eq!(l.accumulator_flow_carac[i], fx(flows[i]));
    }
}

#[test]
fn reservoir_gives_what_it_holds_and_no_more() {
    let l = green_loop();
    assert_eq!(l.get_usable_reservoir_fluid(fx(1.0)), fx(1.0));
    assert_eq!(l.get_usable_reservoir_fluid(fx(3.3)), fx(3.3));
    assert_eq!(l.get_usable_reservoir_fluid(fx(5.0)), fx(3.3));
    assert_eq!(l.get_usable_reservoir_fluid(fx(-1.0)), fx(-1.0));
    // 3.3 gallons last a tenth of a second at 33 gallons per second
    assert_eq!(l.get_usable_reservoir_flow(fx(50.0), fx(0.1)), fx(33.0));
    assert_eq!(l.get_usable_reservoir_flow(fx(33.0), fx(0.1)), fx(33.0));
    assert_eq!(l.get_usable_reservoir_flow(fx(20.0), fx(0.1)), fx(20.0));
    // in no time at all any flow can be sustained
    assert_eq!(l.get_usable_reservoir_flow(fx(1.0e9), fx(0.0)), fx(1.0e9));
}

#[test]
fn pressure_and_volume_are_tied_by_the_bulk_modulus() {
    let l = green_loop();
    // 0.01 / 8 * 210304.728651061
    assert_eq!(l.delta_pressure_from_delta_volume(fx(0.01)).raw, 262_880_910_813);
    assert_eq!(l.delta_pressure_from_delta_volume(fx(0.0)).raw, 0);
    assert_eq!(l.delta_pressure_from_delta_volume(fx(-0.01)).raw, -262_880_910_813);
    // (3000 - 14.7) * 8 / 210304.728651061
    assert_eq!(l.vol_to_target(fx(3000.0)).raw, 113_560_927);
    assert_eq!(l.vol_to_target(fx(14.7)).raw, 0);
    assert!(l.vol_to_target(fx(0.0)).raw < 0);
}

#[test]
fn first_steps_of_a_green_loop_on_its_engine_pump() {
    let mut edp = EngineDrivenPump::new();
    edp.start();
    let mut l = green_loop();
    let engine = engine_at(55.0);
    edp.update(fx(0.1), &l, &engine);
    assert_eq!(edp.get_delta_vol_max().raw, 3_463_203);
    l.update(fx(0.1), Vec::new(), vec![&edp], Vec::new(), Vec::new());
    assert_eq!(l.loop_pressure.raw, 82_980_687_774);
    assert_eq!(l.reservoir_volume.raw, 3_296_536_797);
    assert_eq!(l.loop_volume.raw, 10_200_346_320);
    assert_eq!(l.current_delta_vol.raw, 346_320);
    assert_eq!(l.current_flow.raw, 3_463_200);
    assert_eq!(l.current_max_flow.raw, 34_632_030);
    assert_eq!(l.accumulator_gas_pressure, fx(1885.0));
    assert_eq!(l.accumulator_fluid_volume.raw, 0);
    assert_eq!(l.accumulator_gas_volume, fx(0.264));
    assert!(!l.ptu_active);

    edp.update(fx(0.1), &l, &engine);
    assert_eq!(edp.get_delta_vol_max().raw, 6_753_246);
    l.update(fx(0.1), Vec::new(), vec![&edp], Vec::new(), Vec::new());
    assert_eq!(l.loop_pressure.raw, 214_333_078_075);
    assert_eq!(l.reservoir_volume.raw, 3_289_874_591);
    assert_eq!(l.loop_volume.raw, 10_201_324_228);
    assert_eq!(l.current_delta_vol.raw, 977_908);
    assert_eq!(l.current_flow.raw, 9_779_080);
    assert_eq!(l.current_max_flow.raw, 67_532_460);
}

#[test]
fn pump_output_goes_to_priming_before_it_builds_pressure() {
    let mut epump = ElectricPump::new();
    epump.start();
    let mut l = yellow_loop();
    epump.update(fx(0.1), &l);
    assert_eq!(epump.get_delta_vol_max().raw, 360_533);
    l.update(fx(0.1), vec![&epump], Vec::new(), Vec::new(), Vec::new());
    assert_eq!(l.loop_pressure, fx(14.7));
    assert_eq!(l.reservoir_volume.raw, 3_829_639_467);
    assert_eq!(l.loop_volume.raw, 26_000_360_533);
    assert_eq!(l.current_delta_vol.raw, 0);
    assert_eq!(l.current_max_flow.raw, 3_605_330);
}

#[test]
fn pumps_of_every_kind_add_up() {
    let line = green_loop();
    let mut epump = ElectricPump::new();
    epump.start();
    epump.rpm = fx(7600.0);
    epump.update(fx(0.1), &line);
    let mut edp = EngineDrivenPump::new();
    edp.start();
    edp.update(fx(0.1), &line, &engine_at(100.0));
    let mut rat = RatPump::new();
    rat.update(fx(0.1), &line);
    let total = epump.get_delta_vol_max().raw + edp.get_delta_vol_max().raw
        + rat.get_delta_vol_max().raw;
    assert_eq!(total, 14_421_356 + 3_463_203 + 49_783_549);
    let mut l = green_loop();
    l.update(fx(0.1), vec![&epump, &epump], vec![&edp], vec![&rat], Vec::new());
    assert_eq!(l.current_max_flow.raw, (total + 14_421_356) * 10);
}

#[test]
fn loop_draws_transferred_flow_from_its_own_reservoir() {
    // the unit asks for 100 gal/s, and the reservoir holds 3.3 gallons
    let ptu = publishing(100.0, -100.0, false, true);
    let mut l = green_loop();
    l.update(fx(0.1), Vec::new(), Vec::new(), Vec::new(), vec![&ptu]);
    assert_eq!(l.reservoir_volume.raw, 0);
    assert_eq!(l.loop_pressure.raw, 65_077_725_426_421);
    assert_eq!(l.current_delta_vol, fx(0.33));
    assert_eq!(l.loop_volume, fx(10.53));
    assert_eq!(l.current_flow, fx(3.3));
    assert!(l.ptu_active);
    assert_eq!(l.accumulator_fluid_volume.raw, 0);
}

#[test]
fn loop_returns_the_flow_that_it_spends_on_the_unit() {
    let ptu = publishing(100.0, -100.0, false, true);
    let mut l = yellow_loop();
    l.loop_pressure = fx(3000.0);
    l.update(fx(0.1), Vec::new(), Vec::new(), Vec::new(), vec![&ptu]);
    // 10 gallons spent and 0.0039804 gallon leaked come back to the reservoir
    assert_eq!(l.reservoir_volume.raw, 13_833_980_400);
    assert_eq!(l.loop_pressure, fx(14.7));
    assert_eq!(l.current_delta_vol.raw, -1_000_398_040);
    assert_eq!(l.loop_volume.raw, 24_999_601_960);
    assert!(l.ptu_active);
}

#[test]
fn loop_on_neither_side_ignores_the_unit() {
    let ptu = publishing(100.0, -100.0, false, true);
    let mut l = blue_loop();
    l.update(fx(0.1), Vec::new(), Vec::new(), Vec::new(), vec![&ptu]);
    assert_eq!(l.reservoir_volume, fx(1.5));
    assert_eq!(l.loop_pressure, fx(14.7));
    assert_eq!(l.loop_volume, fx(15.85));
    assert_eq!(l.current_delta_vol.raw, 0);
    assert!(!l.ptu_active);
}

#[test]
fn activity_of_the_unit_is_read_in_both_directions() {
    let idle = publishing(0.0, 0.0, false, false);
    let leftward = publishing(0.0, 0.0, false, true);
    let rightward = publishing(0.0, 0.0, true, false);
    let mut g = green_loop();
    g.update(fx(0.1), Vec::new(), Vec::new(), Vec::new(), vec![&idle]);
    assert!(!g.ptu_active);
    g.update(fx(0.1), Vec::new(), Vec::new(), Vec::new(), vec![&idle, &leftward]);
    assert!(g.ptu_active);
    g.update(fx(0.1), Vec::new(), Vec::new(), Vec::new(), vec![&rightward, &idle]);
    assert!(g.ptu_active);
    g.update(fx(0.1), Vec::new(), Vec::new(), Vec::new(), Vec::new());
    assert!(!g.ptu_active);
    let mut y = yellow_loop();
    y.update(fx(0.1), Vec::new(), Vec::new(), Vec::new(), vec![&rightward]);
    assert!(y.ptu_active);
    y.update(fx(0.1), Vec::new(), Vec::new(), Vec::new(), vec![&leftward]);
    assert!(y.ptu_active);
}

#[test]
fn accumulator_discharges_into_a_loop_at_lower_pressure() {
    let mut l = green_loop();
    l.accumulator_fluid_volume = fx(0.1);
    l.accumulator_gas_volume = fx(0.164);
    l.accumulator_gas_pressure = Fixed::new(3_034_390_243_902);
    l.update(fx(0.1), Vec::new(), Vec::new(), Vec::new(), Vec::new());
    assert_eq!(l.accumulator_fluid_volume.raw, 61_633_850);
    assert_eq!(l.accumulator_gas_volume.raw, 202_366_150);
    assert_eq!(l.accumulator_gas_pressure.raw, 2_459_106_920_796);
    assert_eq!(l.loop_pressure.raw, 771_129_515_934);
    assert_eq!(l.reservoir_volume, fx(3.3));
    assert_eq!(l.current_delta_vol.raw, 3_836_615);
    assert_eq!(l.loop_volume.raw, 10_203_836_615);
}

#[test]
fn accumulator_takes_what_the_loop_has_gained() {
    let ptu = publishing(0.2, -0.3, false, true);
    let mut l = green_loop();
    l.loop_pressure = fx(3000.0);
    l.update(fx(0.1), Vec::new(), Vec::new(), Vec::new(), vec![&ptu]);
    // 0.02 gallon came in and 0.0039804 gallon leaked: the rest goes to the accumulator
    assert_eq!(l.accumulator_fluid_volume.raw, 16_019_600);
    assert_eq!(l.accumulator_gas_volume.raw, 247_980_400);
    assert_eq!(l.accumulator_gas_pressure.raw, 2_006_771_502_909);
    assert_eq!(l.loop_pressure, fx(3000.0));
    assert_eq!(l.reservoir_volume.raw, 3_283_980_400);
    assert_eq!(l.current_delta_vol.raw, 0);
    assert_eq!(l.loop_volume, fx(10.2));
}

#[test]
fn accumulator_is_not_charged_by_a_loop_that_loses_volume() {
    let mut l = green_loop();
    l.loop_pressure = fx(3000.0);
    l.update(fx(0.1), Vec::new(), Vec::new(), Vec::new(), Vec::new());
    assert_eq!(l.accumulator_fluid_volume.raw, 0);
    assert_eq!(l.accumulator_gas_volume, fx(0.264));
    assert_eq!(l.accumulator_gas_pressure, fx(1885.0));
    // the leak of 0.0039804 gallon goes back to the reservoir
    assert_eq!(l.reservoir_volume.raw, 3_303_980_400);
    assert!(l.loop_pressure.raw < fx(3000.0).raw);
}

#[test]
fn pressure_never_falls_below_that_of_an_unpressurised_loop() {
    let ptu = publishing(-1000.0, 1000.0, true, false);
    let mut l = green_loop();
    for _ in 0..20 {
        l.update(fx(0.1), Vec::new(), Vec::new(), Vec::new(), vec![&ptu]);
        assert_eq!(l.loop_pressure, fx(14.7));
        assert!(l.reservoir_volume.raw >= 0);
    }
    assert_eq!(l.reservoir_volume, fx(3.3 + 20.0 * 100.0));
}

#[test]
fn regulation_never_takes_volume_back() {
    // far above its target, a loop whose pumps deliver nothing only leaks
    let mut l = green_loop();
    l.loop_pressure = fx(5000.0);
    let mut epump = ElectricPump::new();
    epump.update(fx(0.1), &l);
    l.update(fx(0.1), vec![&epump], Vec::new(), Vec::new(), Vec::new());
    // 0.04 * 0.1 * (5000 - 14.7) / 3000 = 0.0066470666
    assert_eq!(l.reservoir_volume.raw, 3_300_000_000 + 6_647_066);
}

#[test]
fn step_of_no_duration_keeps_a_settled_loop() {
    let ptu = publishing(0.5, -0.7, false, true);
    let mut epump = ElectricPump::new();
    let mut l = green_loop();
    l.loop_pressure = fx(2500.0);
    l.accumulator_fluid_volume = fx(0.1);
    l.accumulator_gas_volume = fx(0.164);
    l.accumulator_gas_pressure = Fixed::new(3_034_390_243_902);
    l.current_flow = fx(1.0);
    l.current_max_flow = fx(2.0);
    epump.update(fx(0.0), &l);
    for _ in 0..3 {
        l.update(fx(0.0), vec![&epump], Vec::new(), Vec::new(), vec![&ptu]);
        assert_eq!(l.loop_pressure, fx(2500.0));
        assert_eq!(l.reservoir_volume, fx(3.3));
        assert_eq!(l.loop_volume, fx(10.2));
        assert_eq!(l.accumulator_fluid_volume, fx(0.1));
        assert_eq!(l.accumulator_gas_volume, fx(0.164));
        assert_eq!(l.accumulator_gas_pressure.raw, 3_034_390_243_902);
        assert_eq!(l.current_delta_vol.raw, 0);
        assert_eq!(l.current_flow.raw, 0);
        assert_eq!(l.current_max_flow.raw, 0);
        assert!(l.ptu_active);
    }
}

#[test]
fn boyle_product_is_kept_while_the_accumulator_fills() {
    let constant = 1_885_000_000_000i128 * 264_000_000i128;
    let ptu = publishing(0.3, -0.4, false, true);
    let mut l = green_loop();
    l.loop_pressure = fx(3000.0);
    let mut filled = false;
    for _ in 0..50 {
        l.update(fx(0.1), Vec::new(), Vec::new(), Vec::new(), vec![&ptu]);
        let product = l.accumulator_gas_pressure.raw as i128 * l.accumulator_gas_volume.raw as i128;
        assert!(constant - product >= 0);
        assert!(constant - product < l.accumulator_gas_volume.raw as i128);
        assert!((constant - product) * 100 <= constant);
        assert_eq!(l.accumulator_fluid_volume.raw + l.accumulator_gas_volume.raw, 264_000_000);
        assert!(l.accumulator_fluid_volume.raw >= 0);
        filled = filled || l.accumulator_fluid_volume.raw > 50_000_000;
    }
    assert!(filled);
}

#[test]
fn gas_pressure_doubles_when_the_gas_has_half_the_volume() {
    let ptu = publishing(1.32, -2.0, false, true);
    let mut l = green_loop();
    l.loop_pressure = fx(8000.0);
    l.reservoir_volume = fx(100.0);
    // at 6115 psi of difference the accumulator takes 0.43525 gal/s, whatever came in
    l.update(fx(0.1), Vec::new(), Vec::new(), Vec::new(), vec![&ptu]);
    assert_eq!(l.accumulator_fluid_volume.raw, 43_525_000);
    l.accumulator_fluid_volume = fx(0.132);
    l.accumulator_gas_volume = fx(0.132);
    l.loop_pressure = fx(14.7);
    l.update(fx(0.0), Vec::new(), Vec::new(), Vec::new(), Vec::new());
    assert_eq!(l.accumulator_gas_pressure, fx(3770.0));
}

#[test]
fn loop_that_drives_a_unit_gains_what_it_returns() {
    // a loop at rest pays one gallon per second into a unit that still publishes it
    let ptu = publishing(-1.0, 0.81, true, false);
    let mut l = green_loop();
    l.update(fx(0.1), Vec::new(), Vec::new(), Vec::new(), vec![&ptu]);
    assert_eq!(l.reservoir_volume, fx(3.4));
    assert_eq!(l.loop_pressure, fx(14.7));
    assert_eq!(l.current_delta_vol, fx(-0.01));
    assert_eq!(l.loop_volume, fx(10.19));
    assert_eq!(l.current_flow, fx(-0.1));
}

#[test]
fn long_step_leaks_more_than_the_pressure_holds() {
    let mut edp = EngineDrivenPump::new();
    edp.start();
    let mut l = green_loop();
    let engine = engine_at(55.0);
    for _ in 0..100 {
        edp.update(fx(0.1), &l, &engine);
        l.update(fx(0.1), Vec::new(), vec![&edp], Vec::new(), Vec::new());
        assert!(l.reservoir_volume.raw >= 0 && l.reservoir_volume.raw <= fx(3.3).raw);
    }
    assert_eq!(l.reservoir_volume.raw, 3_148_584_809);
    assert_eq!(l.loop_pressure.raw, 2_999_999_808_232);
    // the leak of 100 seconds at that pressure is 3.98 gallons, whatever the loop holds
    l.update(fx(100.0), Vec::new(), Vec::new(), Vec::new(), Vec::new());
    assert_eq!(l.reservoir_volume.raw, 7_128_984_553);
    assert_eq!(l.loop_pressure, fx(14.7));
}

#[test]
fn reservoir_rises_by_no_more_than_what_returns() {
    // what returns is the leak and what the unit was paid
    let ptu = publishing(-0.5, 0.4, true, false);
    let mut edp = EngineDrivenPump::new();
    edp.start();
    let mut l = green_loop();
    let engine = engine_at(55.0);
    for _ in 0..200 {
        edp.update(fx(0.1), &l, &engine);
        let before = l.reservoir_volume.raw;
        let leak = fx(0.04).times(fx(0.1)).times(l.loop_pressure.minus(fx(14.7))).over(fx(3000.0));
        l.update(fx(0.1), Vec::new(), vec![&edp], Vec::new(), vec![&ptu]);
        assert!(l.reservoir_volume.raw >= 0);
        assert!(l.reservoir_volume.raw <= before + leak.raw + 50_000_000);
    }
}

#[test]
fn draw_takes_what_the_reservoir_holds_at_most() {
    let mut l = green_loop();
    assert_eq!(l.draw_reservoir_fluid(fx(1.0)), fx(1.0));
    assert_eq!(l.get_reservoir_volume(), fx(2.3));
    assert_eq!(l.draw_reservoir_fluid(fx(5.0)), fx(2.3));
    assert_eq!(l.get_reservoir_volume().raw, 0);
    assert_eq!(l.draw_reservoir_fluid(fx(1.0)).raw, 0);
    assert_eq!(l.get_reservoir_volume().raw, 0);
}
