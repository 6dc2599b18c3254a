use pivotradar::gauges::conteo_persistencia;

fn clave(x: f64) -> i64 {
    let b = x.to_bits() as i64;
    if b < 0 {
        -(b & i64::MAX)
    } else {
        b
    }
}

#[test]
fn persistence_counts() {
    // bar 0 is ignored; bars 1..=24: bullish when index is even
    let opens: Vec<i64> = (0..25).map(|_| clave(1.0)).collect();
    let closes: Vec<i64> = (0..25).map(|i| clave(if i % 2 == 0 { 1.5 } else { 0.5 })).collect();
    assert_eq!(conteo_persistencia(&opens, &closes), (5, 5, 10, 10));
    // short series: only bars 1..=3 count
    assert_eq!(conteo_persistencia(&opens[..4], &closes[..4]), (1, 2, 1, 2));
    assert_eq!(conteo_persistencia(&[], &[]), (0, 0, 0, 0));
    // equal open and close counts as not bullish
    let flat = vec![clave(1.0); 12];
    assert_eq!(conteo_persistencia(&flat, &flat), (0, 10, 0, 11));
}
