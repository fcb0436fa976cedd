use hydraulic::fixed::Fixed;
use hydraulic::interpolation::interpolation;
use rand::Rng;
use std::time::Instant;

fn fx(x: f64) -> Fixed {
    Fixed::new((x * 1e9).round() as i64)
}

fn as_f64(x: Fixed) -> f64 {
    x.raw as f64 / 1e9
}

#[test]
fn interp_test() {
    let xs1: Vec<Fixed> = [
        -100.0, -10.0, 10.0, 240.0, 320.0, 435.3, 678.9, 890.3, 10005.0, 203493.7,
    ]
    .iter()
    .map(|x| fx(*x))
    .collect();
    let ys1: Vec<Fixed> = [
        -200.0, 10.0, 40.0, -553.0, 238.4, 30423.3, 23000.2, 32000.4, 43200.2, 34.2,
    ]
    .iter()
    .map(|y| fx(*y))
    .collect();

    // Check before first element
    assert!(interpolation(&xs1, &ys1, fx(-500.0)) == ys1[0]);

    // Check after last
    assert!(interpolation(&xs1, &ys1, fx(100000000.0)) == *ys1.last().unwrap());

    // Check equal first
    assert!(interpolation(&xs1, &ys1, *xs1.first().unwrap()) == *ys1.first().unwrap());

    // Check equal last
    assert!(interpolation(&xs1, &ys1, *xs1.last().unwrap()) == *ys1.last().unwrap());

    // Check interp middle
    let res = as_f64(interpolation(&xs1, &ys1, fx(358.0)));
    assert!((res - 10186.589).abs() < 0.001);

    // Check interp last segment
    let res = as_f64(interpolation(&xs1, &ys1, fx(22200.0)));
    assert!((res - 40479.579).abs() < 0.001);

    // Check interp first segment
    let res = as_f64(interpolation(&xs1, &ys1, fx(-50.0)));
    assert!((res - (-83.3333)).abs() < 0.001);

    // Speed check
    let mut rng = rand::thread_rng();
    let time_start = Instant::now();
    for _idx in 0..1000000 {
        let test_val = rng.gen_range(as_f64(xs1[0])..as_f64(*xs1.last().unwrap()));
        let mut res = as_f64(interpolation(&xs1, &ys1, fx(test_val)));
        res = res + 2.78;
        assert!(res.is_finite());
    }
    let time_elapsed = time_start.elapsed();

    println!(
        "Time elapsed for 1000000 calls {} s",
        time_elapsed.as_secs_f64()
    );
}

#[test]
fn table_of_two_points_is_one_line() {
    let xs = vec![fx(0.0), fx(10.0)];
    let ys = vec![fx(5.0), fx(-5.0)];
    assert_eq!(interpolation(&xs, &ys, fx(-1.0)), fx(5.0));
    assert_eq!(interpolation(&xs, &ys, fx(0.0)), fx(5.0));
    assert_eq!(interpolation(&xs, &ys, fx(2.5)), fx(2.5));
    assert_eq!(interpolation(&xs, &ys, fx(5.0)), fx(0.0));
    assert_eq!(interpolation(&xs, &ys, fx(9.0)), fx(-4.0));
    assert_eq!(interpolation(&xs, &ys, fx(10.0)), fx(-5.0));
    assert_eq!(interpolation(&xs, &ys, fx(11.0)), fx(-5.0));
}

#[test]
fn value_at_a_breakpoint_is_the_tabulated_one() {
    let xs = vec![fx(0.0), fx(5.0), fx(10.0), fx(50.0)];
    let ys = vec![fx(0.0), fx(0.005), fx(0.008), fx(0.01)];
    for i in 0..4 {
        assert_eq!(interpolation(&xs, &ys, xs[i]), ys[i]);
    }
    assert_eq!(interpolation(&xs, &ys, fx(2.5)), fx(0.0025));
    assert_eq!(interpolation(&xs, &ys, fx(7.5)), fx(0.0065));
    assert_eq!(interpolation(&xs, &ys, fx(30.0)), fx(0.009));
}

#[test]
fn offset_from_the_left_point_is_rounded_toward_zero() {
    let xs = vec![Fixed::new(0), Fixed::new(3)];
    let rising = vec![Fixed::new(0), Fixed::new(2)];
    let falling = vec![Fixed::new(0), Fixed::new(-2)];
    // one third and two thirds of two steps
    assert_eq!(interpolation(&xs, &rising, Fixed::new(1)).raw, 0);
    assert_eq!(interpolation(&xs, &rising, Fixed::new(2)).raw, 1);
    assert_eq!(interpolation(&xs, &falling, Fixed::new(1)).raw, 0);
    assert_eq!(interpolation(&xs, &falling, Fixed::new(2)).raw, -1);
}

#[test]
fn repeated_breakpoint_makes_a_step() {
    let xs = vec![fx(0.0), fx(1.0), fx(1.0), fx(2.0)];
    let ys = vec![fx(0.0), fx(10.0), fx(20.0), fx(30.0)];
    assert_eq!(interpolation(&xs, &ys, fx(0.5)), fx(5.0));
    assert_eq!(interpolation(&xs, &ys, fx(1.0)), fx(20.0));
    assert_eq!(interpolation(&xs, &ys, fx(1.5)), fx(25.0));
}

#[test]
fn widest_table_does_not_overflow() {
    let xs = vec![Fixed::new(i64::MIN), Fixed::new(i64::MAX)];
    let ys = vec![Fixed::new(i64::MAX), Fixed::new(i64::MIN)];
    assert_eq!(interpolation(&xs, &ys, Fixed::new(i64::MIN)).raw, i64::MAX);
    assert_eq!(interpolation(&xs, &ys, Fixed::new(i64::MAX)).raw, i64::MIN);
    assert_eq!(interpolation(&xs, &ys, Fixed::new(0)).raw, -1);
    assert_eq!(interpolation(&xs, &ys, Fixed::new(-1)).raw, 0);
    assert_eq!(interpolation(&xs, &ys, Fixed::new(i64::MAX - 1)).raw, i64::MIN + 1);
}
