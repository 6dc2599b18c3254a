use pivotradar::claves::{CLAVE_MAS_INFINITO, CLAVE_MENOS_INFINITO, CLAVE_TECHO_BAJOS};
use pivotradar::structure::{detect_mss_h4, detectar_pivots_h1, direccion_estructural};
use pivotradar::types::Tendencia;

/// Order key of a price: integers that compare as the prices do.
fn clave(x: f64) -> i64 {
    let b = x.to_bits() as i64;
    if b < 0 {
        -(b & i64::MAX)
    } else {
        b
    }
}

fn precio(k: i64) -> f64 {
    if k < 0 {
        f64::from_bits(((-k) as u64) | (1u64 << 63))
    } else {
        f64::from_bits(k as u64)
    }
}

struct Bar {
    high: f64,
    low: f64,
    close: f64,
}

fn bar(_t: i64, h: f64, l: f64, c: f64) -> Bar {
    Bar { high: h, low: l, close: c }
}

fn keys(bars: &[Bar]) -> (Vec<i64>, Vec<i64>, Vec<i64>) {
    (
        bars.iter().map(|b| clave(b.high)).collect(),
        bars.iter().map(|b| clave(b.low)).collect(),
        bars.iter().map(|b| clave(b.close)).collect(),
    )
}

#[test]
fn price_keys_match_their_prices() {
    assert_eq!(clave(999_999.0), CLAVE_TECHO_BAJOS);
    assert_eq!(clave(f64::INFINITY), CLAVE_MAS_INFINITO);
    assert_eq!(clave(f64::NEG_INFINITY), CLAVE_MENOS_INFINITO);
    assert_eq!(clave(0.0), 0);
    assert_eq!(clave(-0.0), 0);
    let xs = [-3.5, -1.0, -1e-300, 0.0, 1e-300, 0.5, 1.2345, 100.0];
    for w in xs.windows(2) {
        assert!(clave(w[0]) < clave(w[1]));
        assert_eq!(precio(clave(w[0])), w[0]);
    }
}

/// Con H4 más corto que lookback no debe abortar.
#[test]
fn detect_mss_short_series_no_abort() {
    let bars = vec![
        bar(5, 100.0, 90.0, 95.0),
        bar(4, 105.0, 92.0, 104.0),
        bar(3, 99.0, 90.0, 95.0),
        bar(2, 98.0, 88.0, 90.0),
        bar(1, 96.0, 86.0, 88.0),
    ];
    let (h, l, c) = keys(&bars);
    let r = detect_mss_h4(&h, &l, &c, 20);
    assert!(r.is_some(), "no debe abortar por serie corta");
    let (bars_ago, dir, _) = r.unwrap();
    assert_eq!(bars_ago, 1);
    assert_eq!(dir.as_str(), "ALCISTA");
}

#[test]
fn detect_mss_returns_none_when_no_mss() {
    let bars = vec![
        bar(3, 100.0, 95.0, 99.0),
        bar(2, 99.0, 94.0, 96.0),
        bar(1, 98.0, 93.0, 95.0),
        bar(0, 97.0, 92.0, 94.0),
    ];
    let (h, l, c) = keys(&bars);
    assert!(detect_mss_h4(&h, &l, &c, 10).is_none());
}

#[test]
fn detect_mss_bearish_level_and_window() {
    let bars = vec![
        bar(5, 100.0, 90.0, 95.0),
        bar(4, 97.0, 80.0, 81.0), // closes below the prior lows (85)
        bar(3, 99.0, 85.0, 95.0),
        bar(2, 98.0, 88.0, 90.0),
        bar(1, 0.0, 0.0, 0.0), // data stops here
        bar(0, 200.0, 10.0, 50.0),
    ];
    let (h, l, c) = keys(&bars);
    let (ago, dir, nivel) = detect_mss_h4(&h, &l, &c, 20).unwrap();
    assert_eq!(ago, 1);
    assert_eq!(dir, Tendencia::Bajista);
    assert_eq!(precio(nivel), 85.0);
    // lookback 1: only the next bar counts as prior
    let (ago, dir, nivel) = detect_mss_h4(&h, &l, &c, 1).unwrap();
    assert_eq!((ago, dir, precio(nivel)), (1, Tendencia::Bajista, 85.0));
    // lookback 0 examines nothing
    assert!(detect_mss_h4(&h, &l, &c, 0).is_none());
}

#[test]
fn pivots_find_highest_and_second() {
    // depth 1, lookback 10: candidates 2..8
    let highs = [1.0, 1.0, 1.5, 1.2, 1.8, 1.1, 1.6, 1.0, 1.0, 1.0];
    let lows = [1.0, 0.9, 0.5, 0.8, 0.6, 0.9, 0.4, 0.95, 0.9, 1.0];
    let h: Vec<i64> = highs.iter().map(|&x| clave(x)).collect();
    let l: Vec<i64> = lows.iter().map(|&x| clave(x)).collect();
    let (sh, sl, sha, sla) = detectar_pivots_h1(&h, &l, 1, 10);
    assert_eq!(precio(sh), 1.8);
    assert_eq!(precio(sha), 1.6);
    assert_eq!(precio(sl), 0.4);
    assert_eq!(precio(sla), 0.5);
}

#[test]
fn pivots_none_gives_zero() {
    let h: Vec<i64> = [1.0, 1.0, 1.0, 1.0, 1.0].iter().map(|&x| clave(x)).collect();
    assert_eq!(detectar_pivots_h1(&h, &h, 1, 10), (0, 0, 0, 0));
    // lookback too short for any candidate
    assert_eq!(detectar_pivots_h1(&h, &h, 2, 3), (0, 0, 0, 0));
}

#[test]
fn pivots_single_swing_has_no_second() {
    let highs = [1.0, 1.0, 2.0, 1.0, 1.0, 1.0];
    let lows = [1.0, 1.0, 0.5, 1.0, 1.0, 1.0];
    let h: Vec<i64> = highs.iter().map(|&x| clave(x)).collect();
    let l: Vec<i64> = lows.iter().map(|&x| clave(x)).collect();
    let (sh, sl, sha, sla) = detectar_pivots_h1(&h, &l, 1, 10);
    assert_eq!((precio(sh), precio(sl), sha, sla), (2.0, 0.5, 0, 0));
}

#[test]
fn structural_direction() {
    let k = clave;
    assert_eq!(direccion_estructural(k(1.5), k(1.2), k(1.4), k(1.1)), Tendencia::Alcista);
    assert_eq!(direccion_estructural(k(1.3), k(1.0), k(1.4), k(1.1)), Tendencia::Bajista);
    assert_eq!(direccion_estructural(k(1.5), k(1.0), k(1.4), k(1.1)), Tendencia::Neutro);
    assert_eq!(direccion_estructural(k(1.5), k(1.2), 0, k(1.1)), Tendencia::Neutro);
    assert_eq!(Tendencia::Neutro.as_str(), "NEUTRO");
}

#[test]
fn prior_range_scan_stops_at_missing_data() {
    let h: Vec<i64> = [5.0, 1.0, 2.0, 3.0, 0.0, 9.0].iter().map(|&x| clave(x)).collect();
    let l: Vec<i64> = [4.0, 0.5, 0.7, 0.2, 1.0, 0.1].iter().map(|&x| clave(x)).collect();
    let (ph, pl) = pivotradar::structure::extremos_ventana(&h, &l, clave(1.0), clave(0.5), 2, 10);
    assert_eq!((precio(ph), precio(pl)), (3.0, 0.2));
    let (ph, pl) = pivotradar::structure::extremos_ventana(&h, &l, clave(1.0), clave(0.5), 2, 2);
    assert_eq!((precio(ph), precio(pl)), (2.0, 0.5));
    let (ph, pl) = pivotradar::structure::extremos_ventana(&h, &l, clave(7.0), clave(0.5), 8, 10);
    assert_eq!((precio(ph), precio(pl)), (7.0, 0.5));
}

#[test]
fn premium_discount_range() {
    let h: Vec<i64> = [9.0, 1.2, 1.5, 1.1].iter().map(|&x| clave(x)).collect();
    let l: Vec<i64> = [0.1, 1.0, 0.9, 1.05].iter().map(|&x| clave(x)).collect();
    let r = pivotradar::structure::rango_m15(&h, &l).map(|(a, b)| (precio(a), precio(b)));
    assert_eq!(r, Some((1.5, 0.9)));
    let uno: Vec<i64> = vec![clave(1.0)];
    assert_eq!(pivotradar::structure::rango_m15(&uno, &uno), None);
}
