use hydraulic::fixed::Fixed;
use hydraulic::history::History;

fn fx(x: f64) -> Fixed {
    Fixed::new((x * 1e9).round() as i64)
}

fn names() -> Vec<String> {
    vec!["Loop Pressure".to_string(), "Loop Volume".to_string()]
}

#[test]
fn new_history_is_empty() {
    let h = History::new(names());
    assert_eq!(h.name_vector, names());
    assert_eq!(h.data_size, 2);
    assert!(h.time_vector.is_empty());
    assert!(h.data_vector.is_empty());
}

#[test]
fn init_starts_one_series_for_each_value() {
    let mut h = History::new(names());
    h.init(fx(1.5), vec![fx(14.7), fx(10.2)]);
    assert_eq!(h.time_vector, vec![fx(1.5)]);
    assert_eq!(h.data_vector, vec![vec![fx(14.7)], vec![fx(10.2)]]);
    assert_eq!(h.data_size, 2);
    assert_eq!(h.name_vector, names());
}

#[test]
fn update_moves_the_time_on_and_appends_to_each_series() {
    let mut h = History::new(names());
    h.init(fx(0.0), vec![fx(14.7), fx(10.2)]);
    h.update(fx(0.1), vec![fx(83.0), fx(10.3)]);
    h.update(fx(0.25), vec![fx(214.0), fx(10.4)]);
    assert_eq!(h.time_vector, vec![fx(0.0), fx(0.1), fx(0.35)]);
    assert_eq!(
        h.data_vector,
        vec![
            vec![fx(14.7), fx(83.0), fx(214.0)],
            vec![fx(10.2), fx(10.3), fx(10.4)]
        ]
    );
}

#[test]
fn fewer_values_than_series_leave_the_rest_alone() {
    let mut h = History::new(names());
    h.init(fx(0.0), vec![fx(1.0), fx(2.0)]);
    h.pushData(vec![fx(3.0)]);
    assert_eq!(h.data_vector, vec![vec![fx(1.0), fx(3.0)], vec![fx(2.0)]]);
    assert_eq!(h.time_vector, vec![fx(0.0)]);
    h.pushData(Vec::new());
    assert_eq!(h.data_vector, vec![vec![fx(1.0), fx(3.0)], vec![fx(2.0)]]);
    h.update(fx(1.0), vec![fx(4.0), fx(5.0)]);
    assert_eq!(
        h.data_vector,
        vec![vec![fx(1.0), fx(3.0), fx(4.0)], vec![fx(2.0), fx(5.0)]]
    );
    assert_eq!(h.time_vector, vec![fx(0.0), fx(1.0)]);
}

#[test]
fn second_init_adds_series_behind_the_first() {
    let mut h = History::new(names());
    h.init(fx(0.0), vec![fx(1.0)]);
    h.init(fx(2.0), vec![fx(7.0), fx(8.0)]);
    assert_eq!(h.time_vector, vec![fx(0.0), fx(2.0)]);
    assert_eq!(
        h.data_vector,
        vec![vec![fx(1.0)], vec![fx(7.0)], vec![fx(8.0)]]
    );
}
