use std::collections::VecDeque;

use pivotradar::cache::{CacheMss, CacheVolumen, Refresco, Relojes};
use pivotradar::latch::Latches;
use pivotradar::pending::{
    extremos_medicion, hubo_senal_reciente, is_duplicate, paso_medicion, registrar, Medicion,
    Seguimiento, MAX_PENDING,
};
use pivotradar::types::{Detector, Tendencia};

/// Order key of a price: integers that compare as the prices do.
fn clave(x: f64) -> i64 {
    let b = x.to_bits() as i64;
    if b < 0 {
        -(b & i64::MAX)
    } else {
        b
    }
}

fn precio(k: i64) -> f64 {
    if k < 0 {
        f64::from_bits(((-k) as u64) | (1u64 << 63))
    } else {
        f64::from_bits(k as u64)
    }
}

struct Bar {
    time: i64,
    high: f64,
    low: f64,
    close: f64,
}

fn bar(t: i64, _o: f64, h: f64, l: f64, c: f64) -> Bar {
    Bar { time: t, high: h, low: l, close: c }
}

fn seguimiento(id: u64, entry_time: i64, entry_bar_shift: i32) -> Seguimiento {
    Seguimiento {
        id,
        detector: String::from("D2"),
        direction: 1,
        entry_time,
        entry_bar_shift,
        signal_age_bars: 0,
        measured: [false; 4],
        completada: false,
    }
}

struct Serie {
    times: Vec<i64>,
    altos: Vec<i64>,
    bajos: Vec<i64>,
    validos: Vec<bool>,
    cierres: Vec<f64>,
}

fn serie(bars: &[Bar]) -> Serie {
    Serie {
        times: bars.iter().map(|b| b.time).collect(),
        altos: bars.iter().map(|b| clave(b.high)).collect(),
        bajos: bars.iter().map(|b| clave(b.low)).collect(),
        validos: bars.iter().map(|b| b.close != 0.0).collect(),
        cierres: bars.iter().map(|b| b.close).collect(),
    }
}

/// MFE/MAE no incluyen la vela de entrada (0..shift exclusivo).
#[test]
fn measure_returns_excludes_entry_bar() {
    let point = 0.00001;
    let entry = 1.0000;
    let mut sig = seguimiento(1, 900, 1);
    let bars = vec![
        bar(1800, 1.0005, 1.0010, 0.9995, 1.0005),
        bar(900, 1.0000, 1.0020, 0.9990, 1.0005),
        bar(0, 0.9995, 0.9995, 0.9985, 0.9990),
    ];
    let s = serie(&bars);
    let accion = paso_medicion(&mut sig, &s.times, &s.validos);
    assert!(sig.measured[0], "debe medir shift 0");
    let Medicion::Medir { shift, idx } = accion else { panic!("debe medir") };
    assert_eq!((shift, idx), (1, 0));
    let (mfe, mae) = extremos_medicion(&s.altos, &s.bajos, clave(entry), shift, sig.direction);
    let mfe_pips = (precio(mfe) - entry) / point;
    let mae_pips = (precio(mae) - entry) / point;
    assert!((mfe_pips - 100.0).abs() < 1e-9, "MFE debe ser +100 pips, fue {mfe_pips}");
    assert!((mae_pips + 50.0).abs() < 1e-9, "MAE debe ser -50 pips, fue {mae_pips}");
    assert!(s.cierres[1] != 0.0);
}

/// Señal huérfana por gap se reencuentra con bar_shift tolerante.
#[test]
fn measure_returns_survives_gap() {
    let mut sig = seguimiento(2, 900, -1);
    let bars = vec![
        bar(1850, 1.0005, 1.0010, 0.9995, 1.0005),
        bar(950, 1.0000, 1.0015, 0.9990, 1.0005),
        bar(50, 0.9995, 0.9995, 0.9985, 0.9990),
    ];
    let s = serie(&bars);
    paso_medicion(&mut sig, &s.times, &s.validos);
    assert_eq!(sig.entry_bar_shift, 1, "debe resolver el gap a shift 1");
    assert!(sig.measured[0]);
}

#[test]
fn measurement_lifecycle() {
    let mut sig = seguimiento(3, 0, 0);
    // entry bar is the bar in formation: nothing to measure
    assert_eq!(paso_medicion(&mut sig, &[0, -900], &[true, true]), Medicion::Ninguna);
    for shift in 1..=4i64 {
        let times: Vec<i64> = (0..=shift).map(|k| (shift - k) * 900).collect();
        let validos = vec![true; times.len()];
        let r = paso_medicion(&mut sig, &times, &validos);
        assert_eq!(r, Medicion::Medir { shift: shift as i32, idx: (shift - 1) as usize });
        assert_eq!(sig.signal_age_bars, shift as i32);
        // the same bar is not measured twice
        assert_eq!(paso_medicion(&mut sig, &times, &validos), Medicion::Ninguna);
    }
    assert!(sig.completada);
    assert_eq!(sig.measured, [true; 4]);
    assert_eq!(paso_medicion(&mut sig, &[], &[]), Medicion::Ninguna);
}

#[test]
fn measurement_closes_old_signals_and_skips_bad_closes() {
    let mut viejo = seguimiento(4, 0, 7);
    assert_eq!(paso_medicion(&mut viejo, &[], &[]), Medicion::Ninguna);
    assert!(viejo.completada);
    assert_eq!(viejo.measured, [false; 4]);

    let mut sig = seguimiento(5, 900, 1);
    assert_eq!(paso_medicion(&mut sig, &[1800, 900], &[true, false]), Medicion::Ninguna);
    assert!(!sig.measured[0]);
    assert!(!sig.completada);

    let mut perdido = seguimiento(6, 5_000_000, -1);
    assert_eq!(paso_medicion(&mut perdido, &[1800, 900], &[true, true]), Medicion::Ninguna);
    assert_eq!(perdido.entry_bar_shift, -1);
}

#[test]
fn excursions_short_signal() {
    let highs = [1.2, 1.5, 9.0];
    let lows = [0.9, 1.1, 0.1];
    let h: Vec<i64> = highs.iter().map(|&x| clave(x)).collect();
    let l: Vec<i64> = lows.iter().map(|&x| clave(x)).collect();
    let (mfe, mae) = extremos_medicion(&h, &l, clave(1.0), 2, -1);
    assert_eq!((precio(mfe), precio(mae)), (0.9, 1.5));
    // a bar without data stops the scan
    let h2 = vec![clave(1.2), 0, clave(9.0)];
    let (mfe, mae) = extremos_medicion(&h2, &l, clave(1.0), 2, 1);
    assert_eq!((precio(mfe), precio(mae)), (1.2, 0.9));
}

#[test]
fn duplicates_and_recent_signals() {
    let mut a = seguimiento(10, 0, 3);
    a.detector = String::from("D5");
    let b = seguimiento(11, 0, 9);
    let pend = vec![a, b];
    assert!(is_duplicate(&pend, 11));
    assert!(!is_duplicate(&pend, 12));
    assert!(hubo_senal_reciente(&pend, "D5", 1, 8));
    assert!(!hubo_senal_reciente(&pend, "D5", -1, 8));
    assert!(!hubo_senal_reciente(&pend, "D5", 1, 2));
    assert!(!hubo_senal_reciente(&pend, "D2", 1, 8));
    assert!(hubo_senal_reciente(&pend, "D2", 1, 9));
}

#[test]
fn pending_list_is_capped() {
    let mut cola: VecDeque<u32> = VecDeque::new();
    for i in 0..(MAX_PENDING as u32 + 3) {
        registrar(&mut cola, i);
    }
    assert_eq!(cola.len(), MAX_PENDING);
    assert_eq!(cola.front(), Some(&3));
    assert_eq!(cola.back(), Some(&(MAX_PENDING as u32 + 2)));
}

#[test]
fn latches_block_second_fire() {
    let mut l = Latches::new();
    assert!(!l.latch_fired(Detector::D1, 1, 900));
    l.mark_latch(Detector::D1, 1, 900);
    assert!(l.latch_fired(Detector::D1, 1, 900));
    assert!(!l.latch_fired(Detector::D1, -1, 900));
    assert!(!l.latch_fired(Detector::D1, 1, 1800));
    assert!(!l.latch_fired(Detector::D2, 1, 900));
    l.mark_latch(Detector::D2Anticipacion, 1, 900);
    assert!(!l.latch_fired(Detector::D2Anticipacion, 1, 900));
    l.mark_latch(Detector::D3Def, -1, 900);
    assert!(l.latch_fired(Detector::D3Def, -1, 900));
    assert!(!l.latch_fired(Detector::D3, -1, 900));
    assert!(l.latch_fired(Detector::D1, 1, 900));
}

#[test]
fn refresh_plan() {
    let mut r = Relojes::new();
    assert_eq!(r.planificar(900, Some(0)), Refresco { gauges: true, estructura: true });
    assert_eq!(r.planificar(900, Some(0)), Refresco { gauges: false, estructura: false });
    assert_eq!(r.planificar(1800, Some(0)), Refresco { gauges: true, estructura: false });
    assert_eq!(r.planificar(2700, Some(3600)), Refresco { gauges: true, estructura: true });
    assert_eq!(r.planificar(2700, None), Refresco { gauges: false, estructura: true });
    // bar time 0 never counts as built
    let mut z = Relojes::new();
    z.planificar(0, None);
    assert_eq!(z.planificar(0, None), Refresco { gauges: false, estructura: true });
}

#[test]
fn mss_cache_keeps_answer_within_h4_bar() {
    let h: Vec<i64> = [100.0, 105.0, 99.0, 98.0].iter().map(|&x| clave(x)).collect();
    let l: Vec<i64> = [90.0, 92.0, 90.0, 88.0].iter().map(|&x| clave(x)).collect();
    let c: Vec<i64> = [95.0, 104.0, 95.0, 90.0].iter().map(|&x| clave(x)).collect();
    let mut cache = CacheMss::new();
    let r1 = cache.detect_mss_cached(Some(7200), &h, &l, &c, 20);
    assert_eq!(r1.map(|(a, d, v)| (a, d, precio(v))), Some((1, Tendencia::Alcista, 99.0)));
    // same bar, other data: cached
    let r2 = cache.detect_mss_cached(Some(7200), &l, &l, &l, 20);
    assert_eq!(r2, r1);
    cache.invalidar_si_cambia(7200);
    assert!(cache.valido);
    cache.invalidar_si_cambia(14400);
    assert!(!cache.valido);
    let flat = vec![clave(1.0); 4];
    let r3 = cache.detect_mss_cached(Some(14400), &flat, &flat, &flat, 20);
    assert_eq!(r3, None);
    assert!(!cache.valido);
}

#[test]
fn volume_cache() {
    let mut c = CacheVolumen::new(1.0f64);
    assert_eq!(c.consultar(0, 0, 10), None);
    c.guardar(900, 0, 10, 1.7);
    assert_eq!(c.consultar(900, 0, 10), Some(1.7));
    assert_eq!(c.consultar(900, 0, 12), None);
    assert_eq!(c.consultar(1800, 0, 10), None);
}
