use motorsim::control::PlotPnts;
use motorsim::fixed::Fixed;

fn raw(x: i64) -> Fixed {
    Fixed::from_raw(x)
}

fn record(p: &mut PlotPnts, time: i64, duration: i64) {
    p.record(raw(time), raw(duration), raw(time + 1), raw(time + 2), raw(time + 3), raw(time + 4));
}

fn times(p: &PlotPnts) -> Vec<i64> {
    p.clone_pos_as_vec().iter().map(|s| s[0].raw()).collect()
}

#[test]
fn default_window_is_empty() {
    let p = PlotPnts::default();
    assert!(p.clone_pos_as_vec().is_empty());
    assert!(p.clone_vel_as_vec().is_empty());
    assert!(p.clone_trq_as_vec().is_empty());
    assert!(p.clone_voltage_as_vec().is_empty());
}

#[test]
fn record_appends_to_each_series() {
    let mut p = PlotPnts::default();
    p.record(raw(10), raw(100), raw(1), raw(2), raw(3), raw(4));
    p.record(raw(20), raw(100), raw(5), raw(6), raw(7), raw(8));
    assert_eq!(p.clone_pos_as_vec(), vec![[raw(10), raw(1)], [raw(20), raw(5)]]);
    assert_eq!(p.clone_vel_as_vec(), vec![[raw(10), raw(2)], [raw(20), raw(6)]]);
    assert_eq!(p.clone_voltage_as_vec(), vec![[raw(10), raw(3)], [raw(20), raw(7)]]);
    assert_eq!(p.clone_trq_as_vec(), vec![[raw(10), raw(4)], [raw(20), raw(8)]]);
}

#[test]
fn record_evicts_only_past_the_duration() {
    let mut p = PlotPnts::default();
    record(&mut p, 10, 30);
    record(&mut p, 20, 30);
    record(&mut p, 30, 30);
    assert_eq!(times(&p), vec![10, 20, 30]);
    record(&mut p, 31, 30);
    assert_eq!(times(&p), vec![20, 30, 31]);
    assert_eq!(p.clone_vel_as_vec(), vec![[raw(20), raw(22)], [raw(30), raw(32)], [raw(31), raw(33)]]);
    assert_eq!(p.clone_voltage_as_vec(), vec![[raw(20), raw(23)], [raw(30), raw(33)], [raw(31), raw(34)]]);
    assert_eq!(p.clone_trq_as_vec(), vec![[raw(20), raw(24)], [raw(30), raw(34)], [raw(31), raw(35)]]);
}

#[test]
fn record_past_the_duration_into_an_empty_window_keeps_the_sample() {
    let mut p = PlotPnts::default();
    record(&mut p, 50, 30);
    assert_eq!(times(&p), vec![50]);
    record(&mut p, 60, 30);
    assert_eq!(times(&p), vec![60]);
}

#[test]
fn window_reset_empties_every_series() {
    let mut p = PlotPnts::default();
    for t in 1..20 {
        record(&mut p, t, 5);
    }
    p.reset();
    assert!(p.clone_pos_as_vec().is_empty());
    assert!(p.clone_vel_as_vec().is_empty());
    assert!(p.clone_trq_as_vec().is_empty());
    assert!(p.clone_voltage_as_vec().is_empty());
}

#[test]
fn window_of_even_ticks_holds_what_fits_into_the_duration() {
    for (duration, spacing) in [(3_000, 1_000), (3_500, 1_000), (999, 1_000), (0, 7), (10, 1), (1_000, 1_000)] {
        let fit = (duration / spacing) as usize;
        let capacity = fit.max(1);
        let mut p = PlotPnts::default();
        for n in 1..=40usize {
            record(&mut p, n as i64 * spacing, duration);
            let window = times(&p);
            let expected = if n <= fit { n } else { capacity };
            assert_eq!(window.len(), expected);
            assert_eq!(p.clone_vel_as_vec().len(), expected);
            assert_eq!(p.clone_trq_as_vec().len(), expected);
            assert_eq!(p.clone_voltage_as_vec().len(), expected);
            let latest: Vec<i64> = (n - expected + 1..=n).map(|i| i as i64 * spacing).collect();
            assert_eq!(window, latest);
            let span = window[window.len() - 1] - window[0];
            assert!(span <= duration);
            if n > fit && fit >= 1 {
                assert!(span > duration - 2 * spacing);
            }
        }
    }
}

#[test]
fn window_of_uneven_ticks_keeps_its_length() {
    let mut p = PlotPnts::default();
    for t in [1, 2, 3] {
        record(&mut p, t, 10);
    }
    record(&mut p, 100, 10);
    assert_eq!(times(&p), vec![2, 3, 100]);
    record(&mut p, 5, 10);
    assert_eq!(times(&p), vec![2, 3, 100, 5]);
}
