use hydraulic::fixed::Fixed;
use hydraulic::hyd_loop::{HydFluid, HydLoop, LoopColor};
use hydraulic::pump::{ElectricPump, EngineDrivenPump, PressureSource, Pump, RatPump};
use hydraulic::simulation::Engine;

fn fx(x: f64) -> Fixed {
    Fixed::new((x * 1e9).round() as i64)
}

fn green_loop_at(pressure: f64) -> HydLoop {
    let mut line = HydLoop::new(
        LoopColor::Green,
        true,
        false,
        fx(10.2),
        fx(10.2),
        fx(8.0),
        fx(3.3),
        HydFluid::new(Fixed::new(210_304_728_651_061)),
    );
    line.loop_pressure = fx(pressure);
    line
}

fn engine_at(n2: f64) -> Engine {
    let mut engine = Engine::new();
    engine.n2 = fx(n2);
    engine
}

#[test]
fn starts_inactive() {
    assert!(EngineDrivenPump::new().is_active() == false);
}

#[test]
fn check_displacement_under_2900_psi() {
    let eng = engine_at(0.6);
    let mut edp = EngineDrivenPump::new();
    let line = green_loop_at(2800.);
    edp.update(Fixed::from_nanos(25_000_000), &line, &eng);
    assert!(edp.pump.calculate_displacement(line.get_pressure()) == fx(2.4));
}

#[test]
fn every_pump_starts_at_rest() {
    let epump = ElectricPump::new();
    assert!(!epump.is_active());
    assert_eq!(epump.rpm.raw, 0);
    assert_eq!(epump.get_delta_vol_max().raw, 0);
    assert_eq!(epump.get_delta_vol_min().raw, 0);
    let edp = EngineDrivenPump::new();
    assert_eq!(edp.get_delta_vol_max().raw, 0);
    assert_eq!(edp.get_delta_vol_min().raw, 0);
    let rat = RatPump::new();
    assert!(!rat.active);
    assert_eq!(rat.get_delta_vol_max().raw, 0);
    assert_eq!(rat.get_delta_vol_min().raw, 0);
}

#[test]
fn displacement_curves_are_the_tabulated_ones() {
    let breakpoints: Vec<i64> = vec![0, 500, 1000, 1500, 2800, 2900, 3000, 3050, 3500];
    let epump = ElectricPump::new();
    let edp = EngineDrivenPump::new();
    let rat = RatPump::new();
    let electric = [0.263, 0.263, 0.263, 0.263, 0.263, 0.263, 0.163, 0.0, 0.0];
    let engine_driven = [2.4, 2.4, 2.4, 2.4, 2.4, 2.4, 2.0, 0.0, 0.0];
    let ram_air = [1.15, 1.15, 1.15, 1.15, 1.15, 1.15, 0.9, 0.0, 0.0];
    for i in 0..9 {
        assert_eq!(epump.pump.press_breakpoints[i], Fixed::from_int(breakpoints[i] as i32));
        assert_eq!(edp.pump.press_breakpoints[i], Fixed::from_int(breakpoints[i] as i32));
        assert_eq!(rat.pump.press_breakpoints[i], Fixed::from_int(breakpoints[i] as i32));
        assert_eq!(epump.pump.displacement_carac[i], fx(electric[i]));
        assert_eq!(edp.pump.displacement_carac[i], fx(engine_driven[i]));
        assert_eq!(rat.pump.displacement_carac[i], fx(ram_air[i]));
    }
    assert_eq!(epump.pump.displacement_dynamic, fx(1.0));
    assert_eq!(edp.pump.displacement_dynamic, fx(0.05));
    assert_eq!(rat.pump.displacement_dynamic, fx(1.0));
}

#[test]
fn displacement_is_interpolated_and_clamped() {
    let epump = ElectricPump::new();
    let edp = EngineDrivenPump::new();
    let cases = [
        (-5.0, 0.263, 2.4),
        (2800.0, 0.263, 2.4),
        (2900.0, 0.263, 2.4),
        (2950.0, 0.213, 2.2),
        (3000.0, 0.163, 2.0),
        (3025.0, 0.0815, 1.0),
        (3050.0, 0.0, 0.0),
        (3200.0, 0.0, 0.0),
        (4000.0, 0.0, 0.0),
    ];
    for (pressure, electric, engine_driven) in cases.iter() {
        assert_eq!(epump.pump.calculate_displacement(fx(*pressure)), fx(*electric));
        assert_eq!(edp.pump.calculate_displacement(fx(*pressure)), fx(*engine_driven));
    }
}

#[test]
fn flow_is_speed_times_displacement_in_gallons_per_second() {
    // 7600 * 0.263 / 231 / 60
    assert_eq!(Pump::calculate_flow(fx(7600.0), fx(0.263)).raw, 144_213_564);
    // 4000 * 2.4 / 231 / 60
    assert_eq!(Pump::calculate_flow(fx(4000.0), fx(2.4)).raw, 692_640_692);
    assert_eq!(Pump::calculate_flow(fx(0.0), fx(2.4)).raw, 0);
    assert_eq!(Pump::calculate_flow(fx(4000.0), fx(0.0)).raw, 0);
    // 231 cubic inches per revolution at 60 rpm is one gallon per second
    assert_eq!(Pump::calculate_flow(fx(60.0), fx(231.0)), fx(1.0));
}

#[test]
fn electric_pump_spools_up_and_down_in_four_seconds() {
    let line = green_loop_at(14.7);
    let delta = fx(0.1);
    let mut epump = ElectricPump::new();
    epump.update(delta, &line);
    assert_eq!(epump.rpm.raw, 0);
    epump.start();
    assert!(epump.is_active());
    epump.update(delta, &line);
    assert_eq!(epump.rpm, fx(190.0));
    assert_eq!(epump.get_delta_vol_max().raw, 360_533);
    assert_eq!(epump.get_delta_vol_min().raw, 0);
    for _ in 0..39 {
        epump.update(delta, &line);
    }
    assert_eq!(epump.rpm, fx(7600.0));
    assert_eq!(epump.get_delta_vol_max().raw, 14_421_356);
    epump.update(delta, &line);
    assert_eq!(epump.rpm, fx(7600.0));
    epump.stop();
    assert!(!epump.is_active());
    for _ in 0..39 {
        epump.update(delta, &line);
    }
    assert_eq!(epump.rpm, fx(190.0));
    assert_eq!(epump.get_delta_vol_max().raw, 360_533);
    epump.update(delta, &line);
    assert_eq!(epump.rpm.raw, 0);
    assert_eq!(epump.get_delta_vol_max().raw, 0);
    epump.update(delta, &line);
    assert_eq!(epump.rpm.raw, 0);
}

#[test]
fn electric_pump_speed_is_brought_back_into_its_range() {
    let line = green_loop_at(14.7);
    let mut epump = ElectricPump::new();
    epump.start();
    epump.rpm = fx(9000.0);
    epump.update(fx(0.0001), &line);
    assert_eq!(epump.rpm, fx(7600.0));
    epump.stop();
    epump.rpm = fx(-50.0);
    epump.update(fx(0.0001), &line);
    assert_eq!(epump.rpm.raw, 0);
}

#[test]
fn engine_driven_pump_speed_follows_the_square_of_n2() {
    let line = green_loop_at(14.7);
    // n2 = 10 %: 10 * 10 * 0.08 * 4000 / 100 = 320 rpm; one second at 2.4 in3/rev,
    // of which the filter passes one twentieth
    let mut edp = EngineDrivenPump::new();
    edp.start();
    edp.update(fx(1.0), &line, &engine_at(10.0));
    assert_eq!(edp.get_delta_vol_max().raw, 2_770_562);
    edp.update(fx(1.0), &line, &engine_at(10.0));
    assert_eq!(edp.get_delta_vol_max().raw, 5_402_596);
    assert_eq!(edp.get_delta_vol_min().raw, 0);

    // from 36 % on the speed is capped at 4000 rpm
    let mut at_55 = EngineDrivenPump::new();
    at_55.start();
    at_55.update(fx(0.1), &line, &engine_at(55.0));
    let mut at_100 = EngineDrivenPump::new();
    at_100.start();
    at_100.update(fx(0.1), &line, &engine_at(100.0));
    assert_eq!(at_55.get_delta_vol_max().raw, 3_463_203);
    assert_eq!(at_100.get_delta_vol_max().raw, 3_463_203);

    // a negative n2 drives the pump forward all the same
    let mut reversed = EngineDrivenPump::new();
    reversed.start();
    reversed.update(fx(1.0), &line, &engine_at(-10.0));
    assert_eq!(reversed.get_delta_vol_max().raw, 2_770_562);
}

#[test]
fn engine_driven_pump_delivers_nothing_while_inactive() {
    let line = green_loop_at(14.7);
    let mut edp = EngineDrivenPump::new();
    edp.update(fx(0.1), &line, &engine_at(100.0));
    assert_eq!(edp.get_delta_vol_max().raw, 0);
    edp.start();
    edp.update(fx(0.1), &line, &engine_at(100.0));
    assert!(edp.get_delta_vol_max().raw > 0);
    edp.stop();
    for _ in 0..2000 {
        edp.update(fx(0.1), &line, &engine_at(100.0));
    }
    // the filter lets go of all but the last steps that it cannot divide
    assert!(edp.get_delta_vol_max().raw >= 0 && edp.get_delta_vol_max().raw < 20);
}

#[test]
fn ram_air_pump_turns_at_its_normal_speed() {
    let mut rat = RatPump::new();
    rat.update(fx(0.1), &green_loop_at(14.7));
    // 6000 * 1.15 / 231 / 60 * 0.1
    assert_eq!(rat.get_delta_vol_max().raw, 49_783_549);
    rat.update(fx(0.1), &green_loop_at(3000.0));
    // 6000 * 0.9 / 231 / 60 * 0.1
    assert_eq!(rat.get_delta_vol_max().raw, 38_961_038);
    assert_eq!(rat.get_delta_vol_min().raw, 0);
}

#[test]
fn output_does_not_grow_with_pressure_from_2900_psi_on() {
    let mut previous_electric = i64::MAX;
    let mut previous_engine_driven = i64::MAX;
    let mut previous_ram_air = i64::MAX;
    let mut pressure = 2900.0;
    while pressure <= 3600.0 {
        let line = green_loop_at(pressure);
        let mut epump = ElectricPump::new();
        epump.start();
        epump.rpm = fx(7600.0);
        epump.update(fx(0.1), &line);
        let mut edp = EngineDrivenPump::new();
        edp.start();
        edp.update(fx(0.1), &line, &engine_at(80.0));
        let mut rat = RatPump::new();
        rat.update(fx(0.1), &line);
        assert!(epump.get_delta_vol_max().raw <= previous_electric);
        assert!(edp.get_delta_vol_max().raw <= previous_engine_driven);
        assert!(rat.get_delta_vol_max().raw <= previous_ram_air);
        assert!(epump.get_delta_vol_min().raw <= epump.get_delta_vol_max().raw);
        assert!(edp.get_delta_vol_min().raw <= edp.get_delta_vol_max().raw);
        previous_electric = epump.get_delta_vol_max().raw;
        previous_engine_driven = edp.get_delta_vol_max().raw;
        previous_ram_air = rat.get_delta_vol_max().raw;
        pressure += 0.37;
    }
    assert_eq!(previous_electric, 0);
    assert_eq!(previous_engine_driven, 0);
    assert_eq!(previous_ram_air, 0);
}

#[test]
fn pump_with_a_table_of_its_own() {
    let mut pump = Pump::new(
        vec![fx(0.0), fx(1000.0), fx(2000.0)],
        vec![fx(1.0), fx(3.0), fx(0.0)],
        fx(0.5),
    );
    assert_eq!(pump.calculate_displacement(fx(500.0)), fx(2.0));
    assert_eq!(pump.calculate_displacement(fx(1500.0)), fx(1.5));
    assert_eq!(pump.calculate_displacement(fx(-1.0)), fx(1.0));
    assert_eq!(pump.calculate_displacement(fx(2000.0)), fx(0.0));
    // flow at 1386 rpm and 1 in3/rev is 0.1 gal/s; half of one second of it is passed
    pump.update(fx(1.0), fx(0.0), fx(1386.0));
    assert_eq!(pump.get_delta_vol_max(), fx(0.05));
    pump.update(fx(1.0), fx(0.0), fx(1386.0));
    assert_eq!(pump.get_delta_vol_max(), fx(0.075));
    assert_eq!(pump.get_delta_vol_min().raw, 0);
}
