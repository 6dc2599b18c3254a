use pivotradar::calibration::ProbBase;
use pivotradar::hypothesis::{calcular_vencimiento, rango_probabilidad};
use pivotradar::types::Detector;

const TODOS: [Detector; 7] = [
    Detector::D1,
    Detector::D2,
    Detector::D2Anticipacion,
    Detector::D3,
    Detector::D3Def,
    Detector::D4,
    Detector::D5,
];

#[test]
fn detector_names_round_trip() {
    for d in TODOS {
        assert_eq!(Detector::from_str(d.as_str()), Some(d));
    }
    assert_eq!(Detector::D2Anticipacion.as_str(), "D2_ANTICIPACION");
    assert_eq!(Detector::D3Def.as_str(), "D3_DEF");
    assert_eq!(Detector::from_str("D6"), None);
    assert_eq!(Detector::from_str(""), None);
    assert_eq!(Detector::from_str("d1"), None);
}

#[test]
fn detector_latch_slots() {
    let idx: Vec<Option<usize>> = TODOS.iter().map(|d| d.latch_index()).collect();
    assert_eq!(idx, vec![Some(0), Some(1), None, Some(2), Some(3), Some(4), Some(5)]);
}

#[test]
fn base_probability_by_detector() {
    let p = ProbBase { prob_d1: 61, prob_d2: 62, prob_d3: 63, prob_d4: 64, prob_d5: 65 };
    assert_eq!(p.prob_base_for("D1"), 61);
    assert_eq!(p.prob_base_for("D2_ANTICIPACION"), 62);
    assert_eq!(p.prob_base_for("D3_DEF"), 63);
    assert_eq!(p.prob_base_for("D4"), 64);
    assert_eq!(p.prob_base_for("D5"), 65);
    assert_eq!(p.prob_base_for("X"), 55);
    assert_eq!(ProbBase::new().prob_base_for("D5"), 75);
}

#[test]
fn hypothesis_expiry() {
    assert_eq!(calcular_vencimiento("D1", "NONE", false, true, true), 2);
    assert_eq!(calcular_vencimiento("D1", "NONE", false, true, false), 1);
    assert_eq!(calcular_vencimiento("D2", "NY_OPEN_KILL", false, false, false), 1);
    assert_eq!(calcular_vencimiento("D2_ANTICIPACION", "NONE", false, false, false), 2);
    assert_eq!(calcular_vencimiento("D2", "NONE", false, true, false), 1);
    assert_eq!(calcular_vencimiento("D3_DEF", "NONE", false, false, false), 2);
    assert_eq!(calcular_vencimiento("D3", "NONE", false, true, true), 2);
    assert_eq!(calcular_vencimiento("D3", "NONE", false, true, false), 1);
    assert_eq!(calcular_vencimiento("D4", "NONE", true, false, false), 1);
    assert_eq!(calcular_vencimiento("D4", "NONE", false, false, false), 2);
    assert_eq!(calcular_vencimiento("D5", "LONDON_OPEN_KILL", false, false, false), 2);
    assert_eq!(calcular_vencimiento("D5", "NONE", false, false, false), 4);
    assert_eq!(calcular_vencimiento("??", "NONE", false, false, false), 2);
}

#[test]
fn probability_range() {
    assert_eq!(rango_probabilidad(70, 0, 0), (65, 75));
    assert_eq!(rango_probabilidad(70, 4, 0), (85, 95));
    assert_eq!(rango_probabilidad(75, 6, 0), (90, 95));
    assert_eq!(rango_probabilidad(30, 0, 1), (30, 35));
    assert_eq!(rango_probabilidad(-1000, 2, 1), (30, 35));
    assert_eq!(rango_probabilidad(55, 0, 0), (50, 60));
}

use pivotradar::hypothesis::{redactar_hipotesis, texto_hipotesis, PreciosHipotesis};

fn precios() -> PreciosHipotesis {
    PreciosHipotesis {
        nivel: String::from("1.10000"),
        objetivo: String::from("1.10500"),
        invalidez: String::from("1.09900"),
        br: String::from("0.75"),
    }
}

#[test]
fn hypothesis_wording_d1() {
    let t = redactar_hipotesis("D1", 1, "PREMIUM", "ALCISTA", "", &precios());
    assert_eq!(t.causa, "Ruptura alcista de 1.10000");
    assert_eq!(t.efecto, "va a provocar continuación alcista hacia 1.10500");
    assert_eq!(t.razon, "porque la vela actual rompe con fuerza (BR=0.75) y la tendencia ALCISTA confirma");
    assert_eq!(t.invalidez, "Si rompe 1.09900 en contra, se invalida");
    assert_eq!(
        texto_hipotesis(&t),
        "Ruptura alcista de 1.10000\nva a provocar continuación alcista hacia 1.10500\nporque la vela actual rompe con fuerza (BR=0.75) y la tendencia ALCISTA confirma\nSi rompe 1.09900 en contra, se invalida"
    );
}

#[test]
fn hypothesis_wording_other_detectors() {
    let t = redactar_hipotesis("D2_ANTICIPACION", -1, "PREMIUM", "BAJISTA", "", &precios());
    assert_eq!(t.causa, "Sweep en 1.10000 en zona PREMIUM");
    assert_eq!(t.efecto, "va a provocar rechazo bajista hacia 1.10500");
    let t = redactar_hipotesis("D3_DEF", -1, "DISCOUNT", "NEUTRO", "", &precios());
    assert_eq!(t.causa, "FVG BAJISTA en zona DISCOUNT");
    assert_eq!(t.razon, "porque Los vendedores defienden la zona y la tendencia NEUTRO confirma");
    assert_eq!(t.invalidez, "Si rompe 1.09900 al alza, se invalida");
    let t = redactar_hipotesis("D3", 1, "DISCOUNT", "NEUTRO", "", &precios());
    assert_eq!(t.razon, "porque La zona está activa y la tendencia NEUTRO confirma");
    let t = redactar_hipotesis("D4", 1, "", "ALCISTA", "", &precios());
    assert_eq!(t.causa, "Order Block en 1.10000");
    let t = redactar_hipotesis("D5", 1, "", "", "ALCISTA", &precios());
    assert_eq!(t.causa, "MSS H4 ALCISTA con sweep en 1.10000");
    assert_eq!(t.efecto, "va a provocar continuación alcista hacia 1.10500");
    let t = redactar_hipotesis("X", 1, "", "", "", &precios());
    assert_eq!(texto_hipotesis(&t), "\n\n\n");
}
