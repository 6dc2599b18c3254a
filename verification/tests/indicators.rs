use pivotradar::indicators::{
    atr_history_at, bar_shift_by_time, build_signal_id, kill_zone, local_hour_min, session,
    trend_velas, update_atr_history,
};

/// Order key of a price: integers that compare as the prices do.
fn clave(x: f64) -> i64 {
    let b = x.to_bits() as i64;
    if b < 0 {
        -(b & i64::MAX)
    } else {
        b
    }
}

#[derive(Clone, Copy)]
struct Bar {
    time: i64,
    close: f64,
}

fn mk_bars(n: usize) -> Vec<Bar> {
    let mut v = Vec::with_capacity(n);
    for i in (0..n).rev() {
        let t = (n as i64 - i as i64) * 900;
        let base = 100.0 + (i as f64) * 0.1;
        v.push(Bar { time: t, close: base + 0.1 });
    }
    v
}

fn times(bars: &[Bar]) -> Vec<i64> {
    bars.iter().map(|b| b.time).collect()
}

/// The level scaled as the identifier wants it: rounded to `digits` decimals, times 100 000,
/// truncated.
fn nivel_escalado(level: f64, digits: i32) -> u64 {
    let f = 10f64.powi(digits);
    let lvl = (level * f).round() / f;
    (lvl * 100_000.0).trunc() as u64
}

#[test]
fn session_bounds() {
    assert_eq!(session(3), "ASIA");
    assert_eq!(session(9), "LONDON");
    assert_eq!(session(13), "NY_OPEN");
    assert_eq!(session(15), "LONDON_CLOSE");
    assert_eq!(session(18), "NY");
    assert_eq!(session(22), "OUT");
}

#[test]
fn session_edges() {
    assert_eq!(session(0), "ASIA");
    assert_eq!(session(6), "ASIA");
    assert_eq!(session(7), "LONDON");
    assert_eq!(session(12), "LONDON");
    assert_eq!(session(14), "NY_OPEN");
    assert_eq!(session(16), "NY");
    assert_eq!(session(20), "NY");
    assert_eq!(session(21), "OUT");
    assert_eq!(session(-1), "OUT");
}

#[test]
fn kill_zone_cases() {
    assert_eq!(kill_zone(7, 0), "LONDON_OPEN_KILL");
    assert_eq!(kill_zone(8, 59), "LONDON_OPEN_KILL");
    assert_eq!(kill_zone(13, 0), "NY_OPEN_KILL");
    assert_eq!(kill_zone(14, 30), "NY_OPEN_KILL");
    assert_eq!(kill_zone(14, 31), "LONDON_NY_OVERLAP");
    assert_eq!(kill_zone(15, 0), "NONE");
    assert_eq!(kill_zone(3, 0), "NONE");
}

#[test]
fn local_hour_min_cases() {
    assert_eq!(local_hour_min(0, 0), (0, 0));
    assert_eq!(local_hour_min(13 * 3600 + 45 * 60 + 59, 0), (13, 45));
    assert_eq!(local_hour_min(-1, 0), (23, 59));
    assert_eq!(local_hour_min(0, 2), (2, 0));
    assert_eq!(local_hour_min(3600, -3), (22, 0));
}

#[test]
fn local_hour_min_repeats_every_day() {
    let t = 1_700_000_123i64;
    assert_eq!(local_hour_min(t, 3), local_hour_min(t + 86_400, 3));
    assert_eq!(local_hour_min(t, -5), local_hour_min(t + 86_400, -5));
}

#[test]
fn signal_id_deterministic() {
    let a = build_signal_id(1000, "D2", 1, nivel_escalado(1.23456, 5));
    let b = build_signal_id(1000, "D2", 1, nivel_escalado(1.23456, 5));
    assert_eq!(a, b);
}

#[test]
fn signal_id_exact_value() {
    let mut h: u64 = 1000;
    for &b in "D2".as_bytes() {
        h = h.wrapping_mul(31).wrapping_add(b as u64);
    }
    h = h.wrapping_mul(31).wrapping_add(3);
    h = h.wrapping_mul(31).wrapping_add(123_456);
    assert_eq!(build_signal_id(1000, "D2", 1, 123_456), h);
    // 1000*31^4 + 'D'*31^3 + '2'*31^2 + 3*31 + 123456
    assert_eq!(h, 1000 * 923_521 + 68 * 29_791 + 50 * 961 + 3 * 31 + 123_456);
    assert_ne!(build_signal_id(1000, "D2", 1, 123_456), build_signal_id(1000, "D2", -1, 123_456));
}

#[test]
fn signal_id_wraps_negative_times() {
    let h = build_signal_id(-1, "", -2, 0);
    assert_eq!(h, u64::MAX.wrapping_mul(31).wrapping_mul(31));
}

/// bar_shift_by_time tolera huecos de ±900 s.
#[test]
fn bar_shift_exact_match() {
    let bars = mk_bars(10);
    let idx = bar_shift_by_time(&times(&bars), bars[3].time, 900);
    assert_eq!(idx, 3);
}

#[test]
fn bar_shift_tolerant_to_gap() {
    let bars = vec![
        Bar { time: 10_800, close: 1.0 },
        Bar { time: 10_750, close: 1.0 },
        Bar { time: 1050, close: 1.0 },
        Bar { time: 0, close: 1.0 },
    ];
    let idx = bar_shift_by_time(&times(&bars), 1000, 900);
    assert_eq!(idx, 2);
}

#[test]
fn bar_shift_out_of_tolerance_returns_minus_one() {
    let bars = mk_bars(10);
    assert_eq!(bar_shift_by_time(&times(&bars), 999_999, 900), -1);
}

#[test]
fn bar_shift_prefers_nearest_then_earliest() {
    assert_eq!(bar_shift_by_time(&[1200, 1100, 950, 1050], 1000, 900), 2);
    assert_eq!(bar_shift_by_time(&[1100, 900], 1000, 900), 0);
    assert_eq!(bar_shift_by_time(&[], 1000, 900), -1);
    assert_eq!(bar_shift_by_time(&[5, 1000, 1000], 1000, 0), 1);
}

#[test]
fn trend_velas_counts_aligned_bars() {
    let e21: Vec<i64> = vec![1.5, 1.4, 1.3, 1.3, 1.2, 1.0].into_iter().map(clave).collect();
    let e50: Vec<i64> = vec![1.0, 1.0, 1.0, 1.3, 1.1, 1.1].into_iter().map(clave).collect();
    // bar 1 bullish; bar 2 bullish; bar 3 flat (skipped); bar 4 bullish; bar 5 bearish stops.
    assert_eq!(trend_velas(&e21, &e50, 55), 3);
    assert_eq!(trend_velas(&e21, &e50, 3), 2);
    assert_eq!(trend_velas(&e21[..1], &e50, 55), 0);
    let flat: Vec<i64> = vec![clave(1.0); 4];
    assert_eq!(trend_velas(&flat, &flat, 55), 0);
}

#[test]
fn ring_buffer_newest_first() {
    let mut h = [0.0f64; 20];
    let mut head = 19usize;
    for v in 1..=25 {
        update_atr_history(&mut h, &mut head, v as f64);
    }
    assert_eq!(head, (19 + 25) % 20);
    assert_eq!(atr_history_at(&h, head, 0), 25.0);
    assert_eq!(atr_history_at(&h, head, 1), 24.0);
    assert_eq!(atr_history_at(&h, head, 10), 15.0);
    assert_eq!(atr_history_at(&h, head, 19), 6.0);
    assert_eq!(atr_history_at(&h, head, 20), 25.0);
}
