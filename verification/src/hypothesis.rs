use vstd::prelude::*;

use crate::texto::str_eq;

verus! {

/// Bars until a hypothesis expires, by detector name, kill zone, order-block confluence
/// and the ATR (in points) against 15 and 20.
pub open spec fn vencimiento(
    detector: Seq<char>,
    kill_zone: Seq<char>,
    ob_confluence: bool,
    atr_mayor_15: bool,
    atr_mayor_20: bool,
) -> i32 {
    if detector == "D1"@ {
        if atr_mayor_20 { 2 } else { 1 }
    } else if detector == "D2"@ || detector == "D2_ANTICIPACION"@ {
        if kill_zone != "NONE"@ {
            1
        } else if atr_mayor_15 {
            1
        } else {
            2
        }
    } else if detector == "D3"@ || detector == "D3_DEF"@ {
        if detector == "D3_DEF"@ {
            2
        } else if atr_mayor_20 {
            2
        } else {
            1
        }
    } else if detector == "D4"@ {
        if ob_confluence { 1 } else { 2 }
    } else if detector == "D5"@ {
        if kill_zone != "NONE"@ { 2 } else { 4 }
    } else {
        2
    }
}

/// A D2 anticipation signal expires exactly as a D2 signal with the same kill zone, order
/// block and ATR flags: after one bar inside a kill zone, otherwise after one bar when the
/// ATR is above 15 points and after two when it is not.
pub proof fn lema_anticipacion_vence_como_d2(kill_zone: Seq<char>, ob_confluence: bool, atr_mayor_15: bool, atr_mayor_20: bool)
    ensures
        vencimiento("D2_ANTICIPACION"@, kill_zone, ob_confluence, atr_mayor_15, atr_mayor_20)
            == vencimiento("D2"@, kill_zone, ob_confluence, atr_mayor_15, atr_mayor_20),
        kill_zone != "NONE"@ ==> vencimiento("D2_ANTICIPACION"@, kill_zone, ob_confluence, atr_mayor_15, atr_mayor_20) == 1,
        kill_zone == "NONE"@ ==> vencimiento("D2_ANTICIPACION"@, kill_zone, ob_confluence, atr_mayor_15, atr_mayor_20)
            == if atr_mayor_15 { 1i32 } else { 2i32 },
{
    reveal_strlit("D1");
    reveal_strlit("D2");
    reveal_strlit("D2_ANTICIPACION");
    let d1 = "D1"@;
    let d2 = "D2"@;
    let d2a = "D2_ANTICIPACION"@;
    assert(d2[1] != d1[1]);
    assert(d2a.len() != d1.len());
}

/// The kill zone only bears on the lifetime of D2, D2_ANTICIPACION and D5 signals, and a
/// signal inside a kill zone never lives longer than the same signal outside one.
pub proof fn lema_kill_zone_acorta(
    detector: Seq<char>,
    kill_zone: Seq<char>,
    otra_zona: Seq<char>,
    ob_confluence: bool,
    atr_mayor_15: bool,
    atr_mayor_20: bool,
)
    ensures
        detector != "D2"@ && detector != "D2_ANTICIPACION"@ && detector != "D5"@
            ==> vencimiento(detector, kill_zone, ob_confluence, atr_mayor_15, atr_mayor_20)
            == vencimiento(detector, otra_zona, ob_confluence, atr_mayor_15, atr_mayor_20),
        vencimiento(detector, kill_zone, ob_confluence, atr_mayor_15, atr_mayor_20)
            <= vencimiento(detector, "NONE"@, ob_confluence, atr_mayor_15, atr_mayor_20),
{
}

/// CalcularVencimiento: the hypothesis lifetime in M15 bars. The signal's ATR in points
/// enters through its comparisons with 15 and 20.
pub fn calcular_vencimiento(
    detector: &str,
    kill_zone: &str,
    ob_confluence: bool,
    atr_mayor_15: bool,
    atr_mayor_20: bool,
) -> (r: i32)
    ensures
        r == vencimiento(detector@, kill_zone@, ob_confluence, atr_mayor_15, atr_mayor_20),
        1 <= r <= 4,
{
    if str_eq(detector, "D1") {
        if atr_mayor_20 { 2 } else { 1 }
    } else if str_eq(detector, "D2") || str_eq(detector, "D2_ANTICIPACION") {
        if !str_eq(kill_zone, "NONE") {
            1
        } else if atr_mayor_15 {
            1
        } else {
            2
        }
    } else if str_eq(detector, "D3") || str_eq(detector, "D3_DEF") {
        if str_eq(detector, "D3_DEF") {
            2
        } else if atr_mayor_20 {
            2
        } else {
            1
        }
    } else if str_eq(detector, "D4") {
        if ob_confluence { 1 } else { 2 }
    } else if str_eq(detector, "D5") {
        if !str_eq(kill_zone, "NONE") { 2 } else { 4 }
    } else {
        2
    }
}

/// The probability after the adjustments, kept within 30..=95.
pub open spec fn prob_acotada(ajustada: int) -> int {
    if ajustada > 95 {
        95
    } else if ajustada < 30 {
        30
    } else {
        ajustada
    }
}

/// The hypothesis probability range: the base probability, 5 points up per confirming
/// condition (`bonos`) and 10 down per warning (`penalizaciones`), kept within 30..=95,
/// widened by 5 points on each side within the same bounds.
pub fn rango_probabilidad(prob_base: i32, bonos: i32, penalizaciones: i32) -> (r: (i32, i32))
    requires
        0 <= bonos <= 8,
        0 <= penalizaciones <= 1,
        i32::MIN <= prob_base + 5 * bonos - 10 * penalizaciones,
        prob_base + 5 * bonos <= i32::MAX,
    ensures
        ({
            let p = prob_acotada(prob_base + 5 * bonos - 10 * penalizaciones);
            &&& r.0 == if p - 5 > 30 { p - 5 } else { 30 }
            &&& r.1 == if p + 5 < 95 { p + 5 } else { 95 }
        }),
{
    let mut p = prob_base + 5 * bonos;
    p = p - 10 * penalizaciones;
    if p > 95 {
        p = 95;
    }
    if p < 30 {
        p = 30;
    }
    let lo = if p - 5 > 30 { p - 5 } else { 30 };
    let hi = if p + 5 < 95 { p + 5 } else { 95 };
    (lo, hi)
}

/// The range is never empty, stays within 30..=95 and spans at most 10 points; a
/// probability well inside the bounds gets exactly ±5.
pub proof fn lema_rango_probabilidad(ajustada: int)
    ensures
        ({
            let p = prob_acotada(ajustada);
            let lo = if p - 5 > 30 { p - 5 } else { 30 };
            let hi = if p + 5 < 95 { p + 5 } else { 95 };
            &&& 30 <= lo <= hi <= 95
            &&& hi - lo <= 10
            &&& 35 <= ajustada <= 90 ==> lo == ajustada - 5 && hi == ajustada + 5
        }),
{
}

/// The four sentences of a hypothesis: cause, effect, reason and invalidation.
#[derive(Clone, Debug)]
pub struct TextosHipotesis {
    pub causa: String,
    pub efecto: String,
    pub razon: String,
    pub invalidez: String,
}

/// The prices a hypothesis quotes, already written with the symbol's digits, and the
/// breakout body ratio with two decimals.
pub struct PreciosHipotesis {
    /// The level the signal acts on: the broken level (D1), the swept level (D2, D5), the
    /// middle of the order block (D4).
    pub nivel: String,
    /// The price target.
    pub objetivo: String,
    /// The level whose break invalidates the hypothesis.
    pub invalidez: String,
    /// The breakout body ratio (D1).
    pub br: String,
}

/// The wording of a hypothesis for each detector, as (cause, effect, reason,
/// invalidation).
pub open spec fn textos_de(
    det: Seq<char>,
    direction: i32,
    zona: Seq<char>,
    estructura: Seq<char>,
    mss: Seq<char>,
    nivel: Seq<char>,
    objetivo: Seq<char>,
    invalidez: Seq<char>,
    br: Seq<char>,
) -> (Seq<char>, Seq<char>, Seq<char>, Seq<char>) {
    if det == "D1"@ {
        let d = if direction == 1 { "alcista"@ } else { "bajista"@ };
        (
            "Ruptura "@ + d + " de "@ + nivel,
            "va a provocar continuación "@ + d + " hacia "@ + objetivo,
            "porque la vela actual rompe con fuerza (BR="@ + br + ") y la tendencia "@ + estructura + " confirma"@,
            "Si rompe "@ + invalidez + " en contra, se invalida"@,
        )
    } else if det == "D2"@ || det == "D2_ANTICIPACION"@ {
        let accion = if direction == 1 { "rebote alcista"@ } else { "rechazo bajista"@ };
        (
            "Sweep en "@ + nivel + " en zona "@ + zona,
            "va a provocar "@ + accion + " hacia "@ + objetivo,
            "porque el sweep liquida stops y la tendencia "@ + estructura + " confirma"@,
            "Si rompe "@ + invalidez + ", se invalida"@,
        )
    } else if det == "D3"@ || det == "D3_DEF"@ {
        let dir_fvg = if direction == -1 { "BAJISTA"@ } else { "ALCISTA"@ };
        let accion = if direction == -1 { "rechazo bajista"@ } else { "rebote alcista"@ };
        let defensa = if det == "D3_DEF"@ {
            if direction == -1 {
                "Los vendedores defienden la zona"@
            } else {
                "Los compradores defienden la zona"@
            }
        } else {
            "La zona está activa"@
        };
        let sentido = if direction == -1 { "al alza"@ } else { "a la baja"@ };
        (
            "FVG "@ + dir_fvg + " en zona "@ + zona,
            "va a provocar "@ + accion + " hacia "@ + objetivo,
            "porque "@ + defensa + " y la tendencia "@ + estructura + " confirma"@,
            "Si rompe "@ + invalidez + " "@ + sentido + ", se invalida"@,
        )
    } else if det == "D4"@ {
        let accion = if direction == 1 { "rebote alcista"@ } else { "rechazo bajista"@ };
        (
            "Order Block en "@ + nivel,
            "va a provocar "@ + accion + " hacia "@ + objetivo,
            "porque el OB representa acumulación/distribución y la tendencia "@ + estructura + " confirma"@,
            "Si rompe "@ + invalidez + ", se invalida"@,
        )
    } else if det == "D5"@ {
        let accion = if direction == 1 { "continuación alcista"@ } else { "continuación bajista"@ };
        (
            "MSS H4 "@ + mss + " con sweep en "@ + nivel,
            "va a provocar "@ + accion + " hacia "@ + objetivo,
            "porque el cambio de estructura en H4 confirma la dirección y el sweep valida la entrada"@,
            "Si rompe "@ + invalidez + ", se invalida"@,
        )
    } else {
        (Seq::empty(), Seq::empty(), Seq::empty(), Seq::empty())
    }
}

/// GenerarHipotesis' wording: cause, effect, reason and invalidation sentences of the
/// hypothesis of a signal, from its detector and direction, the premium/discount zone,
/// the structural direction, the H4 shift direction and the prices it quotes.
pub fn redactar_hipotesis(
    detector: &str,
    direction: i32,
    zona: &str,
    estructura: &str,
    mss_direction: &str,
    precios: &PreciosHipotesis,
) -> (r: TextosHipotesis)
    ensures
        (r.causa@, r.efecto@, r.razon@, r.invalidez@) == textos_de(
            detector@,
            direction,
            zona@,
            estructura@,
            mss_direction@,
            precios.nivel@,
            precios.objetivo@,
            precios.invalidez@,
            precios.br@,
        ),
{
    let nivel = precios.nivel.as_str();
    let objetivo = precios.objetivo.as_str();
    let invalidez = precios.invalidez.as_str();
    if str_eq(detector, "D1") {
        let d = if direction == 1 { "alcista" } else { "bajista" };
        TextosHipotesis {
            causa: String::from_str("Ruptura ").concat(d).concat(" de ").concat(nivel),
            efecto: String::from_str("va a provocar continuación ").concat(d).concat(" hacia ").concat(objetivo),
            razon: String::from_str("porque la vela actual rompe con fuerza (BR=").concat(precios.br.as_str()).concat(
                ") y la tendencia ",
            ).concat(estructura).concat(" confirma"),
            invalidez: String::from_str("Si rompe ").concat(invalidez).concat(" en contra, se invalida"),
        }
    } else if str_eq(detector, "D2") || str_eq(detector, "D2_ANTICIPACION") {
        let accion = if direction == 1 { "rebote alcista" } else { "rechazo bajista" };
        TextosHipotesis {
            causa: String::from_str("Sweep en ").concat(nivel).concat(" en zona ").concat(zona),
            efecto: String::from_str("va a provocar ").concat(accion).concat(" hacia ").concat(objetivo),
            razon: String::from_str("porque el sweep liquida stops y la tendencia ").concat(estructura).concat(" confirma"),
            invalidez: String::from_str("Si rompe ").concat(invalidez).concat(", se invalida"),
        }
    } else if str_eq(detector, "D3") || str_eq(detector, "D3_DEF") {
        let dir_fvg = if direction == -1 { "BAJISTA" } else { "ALCISTA" };
        let accion = if direction == -1 { "rechazo bajista" } else { "rebote alcista" };
        let defensa = if str_eq(detector, "D3_DEF") {
            if direction == -1 {
                "Los vendedores defienden la zona"
            } else {
                "Los compradores defienden la zona"
            }
        } else {
            "La zona está activa"
        };
        let sentido = if direction == -1 { "al alza" } else { "a la baja" };
        TextosHipotesis {
            causa: String::from_str("FVG ").concat(dir_fvg).concat(" en zona ").concat(zona),
            efecto: String::from_str("va a provocar ").concat(accion).concat(" hacia ").concat(objetivo),
            razon: String::from_str("porque ").concat(defensa).concat(" y la tendencia ").concat(estructura).concat(" confirma"),
            invalidez: String::from_str("Si rompe ").concat(invalidez).concat(" ").concat(sentido).concat(", se invalida"),
        }
    } else if str_eq(detector, "D4") {
        let accion = if direction == 1 { "rebote alcista" } else { "rechazo bajista" };
        TextosHipotesis {
            causa: String::from_str("Order Block en ").concat(nivel),
            efecto: String::from_str("va a provocar ").concat(accion).concat(" hacia ").concat(objetivo),
            razon: String::from_str("porque el OB representa acumulación/distribución y la tendencia ").concat(estructura).concat(
                " confirma",
            ),
            invalidez: String::from_str("Si rompe ").concat(invalidez).concat(", se invalida"),
        }
    } else if str_eq(detector, "D5") {
        let accion = if direction == 1 { "continuación alcista" } else { "continuación bajista" };
        TextosHipotesis {
            causa: String::from_str("MSS H4 ").concat(mss_direction).concat(" con sweep en ").concat(nivel),
            efecto: String::from_str("va a provocar ").concat(accion).concat(" hacia ").concat(objetivo),
            razon: String::from_str(
                "porque el cambio de estructura en H4 confirma la dirección y el sweep valida la entrada",
            ),
            invalidez: String::from_str("Si rompe ").concat(invalidez).concat(", se invalida"),
        }
    } else {
        proof {
            reveal_strlit("");
        }
        TextosHipotesis {
            causa: String::from_str(""),
            efecto: String::from_str(""),
            razon: String::from_str(""),
            invalidez: String::from_str(""),
        }
    }
}

/// The hypothesis as one text, its four sentences one per line.
pub open spec fn texto_de(t: (Seq<char>, Seq<char>, Seq<char>, Seq<char>)) -> Seq<char> {
    t.0 + "\n"@ + t.1 + "\n"@ + t.2 + "\n"@ + t.3
}

/// The full hypothesis text: cause, effect, reason and invalidation, one per line.
pub fn texto_hipotesis(t: &TextosHipotesis) -> (r: String)
    ensures
        r@ == texto_de((t.causa@, t.efecto@, t.razon@, t.invalidez@)),
{
    t.causa.clone().concat("\n").concat(t.efecto.as_str()).concat("\n").concat(t.razon.as_str()).concat("\n").concat(
        t.invalidez.as_str(),
    )
}

} // verus!
