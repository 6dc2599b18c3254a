use vstd::prelude::*;

use crate::texto::str_eq;

verus! {

/// The detectors of the engine (D1..D5, D2_ANTICIPACION and D3_DEF).
#[derive(Clone, Copy, Debug, PartialEq, Eq, Structural, Hash)]
pub enum Detector {
    D1,
    D2,
    D2Anticipacion,
    D3,
    D3Def,
    D4,
    D5,
}

impl Detector {
    /// The external name of the detector.
    pub open spec fn nombre(self) -> Seq<char> {
        match self {
            Detector::D1 => "D1"@,
            Detector::D2 => "D2"@,
            Detector::D2Anticipacion => "D2_ANTICIPACION"@,
            Detector::D3 => "D3"@,
            Detector::D3Def => "D3_DEF"@,
            Detector::D4 => "D4"@,
            Detector::D5 => "D5"@,
        }
    }

    /// The internal latch slot of the detector; D2_ANTICIPACION has none.
    pub open spec fn indice_latch(self) -> Option<usize> {
        match self {
            Detector::D1 => Some(0usize),
            Detector::D2 => Some(1usize),
            Detector::D3 => Some(2usize),
            Detector::D3Def => Some(3usize),
            Detector::D4 => Some(4usize),
            Detector::D5 => Some(5usize),
            Detector::D2Anticipacion => None,
        }
    }

    pub fn as_str(&self) -> (s: &'static str)
        ensures
            s@ == self.nombre(),
    {
        match self {
            Detector::D1 => "D1",
            Detector::D2 => "D2",
            Detector::D2Anticipacion => "D2_ANTICIPACION",
            Detector::D3 => "D3",
            Detector::D3Def => "D3_DEF",
            Detector::D4 => "D4",
            Detector::D5 => "D5",
        }
    }

    /// The detector whose external name is `s`, if any.
    pub open spec fn desde_nombre(s: Seq<char>) -> Option<Detector> {
        if s == "D1"@ {
            Some(Detector::D1)
        } else if s == "D2"@ {
            Some(Detector::D2)
        } else if s == "D2_ANTICIPACION"@ {
            Some(Detector::D2Anticipacion)
        } else if s == "D3"@ {
            Some(Detector::D3)
        } else if s == "D3_DEF"@ {
            Some(Detector::D3Def)
        } else if s == "D4"@ {
            Some(Detector::D4)
        } else if s == "D5"@ {
            Some(Detector::D5)
        } else {
            None
        }
    }

    pub fn from_str(s: &str) -> (r: Option<Detector>)
        ensures
            r == Detector::desde_nombre(s@),
            r matches Some(d) ==> d.nombre() == s@,
            r is None ==> forall|d: Detector| #[trigger] d.nombre() != s@,
    {
        if str_eq(s, "D1") {
            Some(Detector::D1)
        } else if str_eq(s, "D2") {
            Some(Detector::D2)
        } else if str_eq(s, "D2_ANTICIPACION") {
            Some(Detector::D2Anticipacion)
        } else if str_eq(s, "D3") {
            Some(Detector::D3)
        } else if str_eq(s, "D3_DEF") {
            Some(Detector::D3Def)
        } else if str_eq(s, "D4") {
            Some(Detector::D4)
        } else if str_eq(s, "D5") {
            Some(Detector::D5)
        } else {
            proof {
                assert forall|d: Detector| #[trigger] d.nombre() != s@ by {
                    match d {
                        Detector::D1 => {},
                        Detector::D2 => {},
                        Detector::D2Anticipacion => {},
                        Detector::D3 => {},
                        Detector::D3Def => {},
                        Detector::D4 => {},
                        Detector::D5 => {},
                    }
                }
            }
            None
        }
    }

    /// Index of the internal latch (0..6).
    pub fn latch_index(&self) -> (r: Option<usize>)
        ensures
            r == self.indice_latch(),
    {
        match self {
            Detector::D1 => Some(0),
            Detector::D2 => Some(1),
            Detector::D3 => Some(2),
            Detector::D3Def => Some(3),
            Detector::D4 => Some(4),
            Detector::D5 => Some(5),
            Detector::D2Anticipacion => None,
        }
    }
}

/// Every detector is recovered from its own name: `from_str(as_str(d)) == Some(d)`.
pub proof fn lema_nombre_ida_y_vuelta(d: Detector)
    ensures
        Detector::desde_nombre(d.nombre()) == Some(d),
{
    reveal_strlit("D1");
    reveal_strlit("D2");
    reveal_strlit("D2_ANTICIPACION");
    reveal_strlit("D3");
    reveal_strlit("D3_DEF");
    reveal_strlit("D4");
    reveal_strlit("D5");
    let d1 = "D1"@;
    let d2 = "D2"@;
    let d2a = "D2_ANTICIPACION"@;
    let d3 = "D3"@;
    let d3d = "D3_DEF"@;
    let d4 = "D4"@;
    let d5 = "D5"@;
    assert(d2[1] != d1[1]);
    assert(d2a.len() != d1.len() && d2a.len() != d2.len());
    assert(d3[1] != d1[1] && d3[1] != d2[1] && d3.len() != d2a.len());
    assert(d3d.len() != d1.len() && d3d.len() != d2.len() && d3d.len() != d2a.len() && d3d.len() != d3.len());
    assert(d4[1] != d1[1] && d4[1] != d2[1] && d4.len() != d2a.len() && d4[1] != d3[1] && d4.len() != d3d.len());
    assert(d5[1] != d1[1] && d5[1] != d2[1] && d5.len() != d2a.len() && d5[1] != d3[1] && d5.len() != d3d.len() && d5[1] != d4[1]);
}

/// Two detectors with the same name are the same detector.
pub proof fn lema_nombre_inyectivo(a: Detector, b: Detector)
    requires
        a.nombre() == b.nombre(),
    ensures
        a == b,
{
    lema_nombre_ida_y_vuelta(a);
    lema_nombre_ida_y_vuelta(b);
}

/// Distinct detectors that have a latch use distinct latch slots, each below 6;
/// only D2_ANTICIPACION has no latch.
pub proof fn lema_latch_inyectivo(a: Detector, b: Detector)
    ensures
        a.indice_latch() is None <==> a == Detector::D2Anticipacion,
        a.indice_latch() matches Some(i) ==> i < 6,
        a.indice_latch() is Some && a.indice_latch() == b.indice_latch() ==> a == b,
{
}

/// A market direction as the engine names it.
#[derive(Clone, Copy, Debug, PartialEq, Eq, Structural)]
pub enum Tendencia {
    Alcista,
    Bajista,
    Neutro,
}

impl Tendencia {
    pub open spec fn nombre(self) -> Seq<char> {
        match self {
            Tendencia::Alcista => "ALCISTA"@,
            Tendencia::Bajista => "BAJISTA"@,
            Tendencia::Neutro => "NEUTRO"@,
        }
    }

    /// The name of the direction: "ALCISTA", "BAJISTA" or "NEUTRO".
    pub fn as_str(&self) -> (s: &'static str)
        ensures
            s@ == self.nombre(),
    {
        match self {
            Tendencia::Alcista => "ALCISTA",
            Tendencia::Bajista => "BAJISTA",
            Tendencia::Neutro => "NEUTRO",
        }
    }
}

} // verus!
