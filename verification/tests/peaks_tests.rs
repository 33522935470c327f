use peaks_service::peaks::{decimate, get_track_duration, DEFAULT_STRIDE};

fn rendered(n: usize) -> Vec<String> {
    (0..n).map(|i| format!("{}.5", i)).collect()
}

#[test]
fn decimate_length_is_ceiling_of_count_over_stride() {
    for &(n, s) in &[
        (0usize, 1usize),
        (0, 100),
        (1, 1),
        (1, 100),
        (5, 2),
        (6, 2),
        (99, 100),
        (100, 100),
        (101, 100),
        (300, 100),
        (301, 100),
        (7, 3),
    ] {
        let out = decimate(&rendered(n), s);
        assert_eq!(out.len(), (n + s - 1) / s, "n={} s={}", n, s);
    }
}

#[test]
fn decimate_keeps_every_stride_th_sample() {
    let samples = rendered(10);
    let out = decimate(&samples, 3);
    assert_eq!(out, vec!["0.5", "3.5", "6.5", "9.5"]);
}

#[test]
fn decimate_with_stride_one_keeps_everything() {
    let samples = rendered(4);
    let out = decimate(&samples, 1);
    assert_eq!(out, samples);
}

#[test]
fn decimate_default_stride_takes_first_of_each_hundred() {
    let samples = rendered(250);
    let out = decimate(&samples, DEFAULT_STRIDE);
    assert_eq!(out, vec!["0.5", "100.5", "200.5"]);
}

#[test]
fn track_duration_reports_zero() {
    assert_eq!(get_track_duration("tracks/a.mp3".to_string()), 0);
}
