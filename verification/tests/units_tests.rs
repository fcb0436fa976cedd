use hydraulic::a320::FLUID_BULK_MODULUS;
use hydraulic::fixed::Fixed;
use hydraulic::units::{
    ACCUMULATOR_GAS_PRE_CHARGE, ACCUMULATOR_MAX_VOLUME, CUBIC_INCHES_PER_GALLON,
    DELTA_VOL_LOW_PASS_FILTER, MIN_LOOP_PRESSURE, PRESSURE_LOW_PASS_FILTER, SECONDS_PER_MINUTE,
    STATIC_LEAK_FLOW, STATIC_LEAK_REFERENCE, TARGET_PRESSURE,
};
use uom::si::f64::{Pressure, Time, Volume, VolumeRate};
use uom::si::pressure::{atmosphere, pascal, psi};
use uom::si::time::{minute, second};
use uom::si::volume::{cubic_inch, gallon};
use uom::si::volume_rate::gallon_per_second;

fn fx(x: f64) -> Fixed {
    Fixed::new((x * 1e9).round() as i64)
}

#[test]
fn gallon_holds_231_cubic_inches() {
    assert_eq!(CUBIC_INCHES_PER_GALLON, 231_000_000_000);
    let in_cubic_inches = Volume::new::<gallon>(1.0).get::<cubic_inch>();
    assert!((in_cubic_inches - CUBIC_INCHES_PER_GALLON as f64 / 1e9).abs() < 1e-4);
}

#[test]
fn minute_holds_60_seconds() {
    assert_eq!(SECONDS_PER_MINUTE, 60_000_000_000);
    assert_eq!(fx(Time::new::<minute>(1.0).get::<second>()).raw, SECONDS_PER_MINUTE);
}

#[test]
fn bulk_modulus_is_1_45_gigapascal_in_psi() {
    assert_eq!(
        fx(Pressure::new::<pascal>(1450000000.0).get::<psi>()).raw,
        FLUID_BULK_MODULUS
    );
}

#[test]
fn unpressurised_loop_is_at_one_atmosphere() {
    assert_eq!(fx(14.7).raw, MIN_LOOP_PRESSURE);
    let one_atmosphere = Pressure::new::<atmosphere>(1.0).get::<psi>();
    assert!((one_atmosphere - MIN_LOOP_PRESSURE as f64 / 1e9).abs() < 0.01);
}

#[test]
fn constants_are_in_psi_gallons_and_seconds() {
    assert_eq!(fx(Pressure::new::<psi>(3000.0).get::<psi>()).raw, TARGET_PRESSURE);
    assert_eq!(fx(Pressure::new::<psi>(1885.0).get::<psi>()).raw, ACCUMULATOR_GAS_PRE_CHARGE);
    assert_eq!(fx(Volume::new::<gallon>(0.264).get::<gallon>()).raw, ACCUMULATOR_MAX_VOLUME);
    assert_eq!(
        fx(VolumeRate::new::<gallon_per_second>(0.04).get::<gallon_per_second>()).raw,
        STATIC_LEAK_FLOW
    );
    assert_eq!(fx(3000.0).raw, STATIC_LEAK_REFERENCE);
    assert_eq!(fx(0.75).raw, PRESSURE_LOW_PASS_FILTER);
    assert_eq!(fx(0.1).raw, DELTA_VOL_LOW_PASS_FILTER);
}
