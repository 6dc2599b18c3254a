use vstd::prelude::*;

use crate::claves::{max_clave, min_clave, CLAVE_MAS_INFINITO, CLAVE_MENOS_INFINITO, CLAVE_TECHO_BAJOS};
use crate::types::Tendencia;

verus! {

/// Candidate swing positions are `depth + 1 .. fin_candidatos(..)`.
pub open spec fn fin_candidatos(n: int, depth: int, lookback: int) -> int {
    if lookback > depth + 1 {
        let e = lookback - depth - 1;
        let e2 = if e < n { e } else { n };
        if e2 < 50 { e2 } else { 50 }
    } else {
        0
    }
}

/// Bar `i` is higher than its neighbours at distance `j` (a missing right neighbour
/// counts as minus infinity).
pub open spec fn alto_domina(h: Seq<i64>, i: int, j: int) -> bool {
    &&& h[i - j] < h[i]
    &&& if i + j < h.len() { h[i + j] < h[i] } else { CLAVE_MENOS_INFINITO < h[i] }
}

/// Bar `i` is lower than its neighbours at distance `j` (a missing right neighbour
/// counts as plus infinity).
pub open spec fn bajo_domina(l: Seq<i64>, i: int, j: int) -> bool {
    &&& l[i - j] > l[i]
    &&& if i + j < l.len() { l[i + j] > l[i] } else { CLAVE_MAS_INFINITO > l[i] }
}

/// Bar `i` is a swing high of depth `depth` among the candidates.
pub open spec fn es_swing_alto(h: Seq<i64>, depth: int, lookback: int, i: int) -> bool {
    &&& depth + 1 <= i < fin_candidatos(h.len() as int, depth, lookback)
    &&& h[i] != 0
    &&& forall|j: int| 1 <= j <= depth ==> #[trigger] alto_domina(h, i, j)
}

/// Bar `i` is a swing low of depth `depth` among the candidates.
pub open spec fn es_swing_bajo(l: Seq<i64>, depth: int, lookback: int, i: int) -> bool {
    &&& depth + 1 <= i < fin_candidatos(l.len() as int, depth, lookback)
    &&& l[i] != 0
    &&& forall|j: int| 1 <= j <= depth ==> #[trigger] bajo_domina(l, i, j)
}

/// What the pivot search gives for the highs: the highest swing high and the highest
/// swing high strictly between 0 and it (0 where there is none).
pub open spec fn resultado_altos(h: Seq<i64>, depth: int, lookback: int, sh: i64, sha: i64) -> bool {
    if exists|i: int| es_swing_alto(h, depth, lookback, i) {
        &&& exists|i: int| es_swing_alto(h, depth, lookback, i) && h[i] == sh
        &&& forall|i: int| es_swing_alto(h, depth, lookback, i) ==> h[i] <= sh
        &&& sha == 0 || exists|i: int| es_swing_alto(h, depth, lookback, i) && h[i] == sha && 0 < sha < sh
        &&& forall|i: int| es_swing_alto(h, depth, lookback, i) && 0 < h[i] < sh ==> h[i] <= sha
    } else {
        sh == 0 && sha == 0
    }
}

/// What the pivot search gives for the lows: the lowest swing low and the lowest swing
/// low strictly between it and the ceiling (0 where there is none).
pub open spec fn resultado_bajos(l: Seq<i64>, depth: int, lookback: int, sl: i64, sla: i64) -> bool {
    if exists|i: int| es_swing_bajo(l, depth, lookback, i) {
        &&& exists|i: int| es_swing_bajo(l, depth, lookback, i) && l[i] == sl
        &&& forall|i: int| es_swing_bajo(l, depth, lookback, i) ==> sl <= l[i]
        &&& (sla == 0 && forall|i: int|
            es_swing_bajo(l, depth, lookback, i) ==> !(sl < l[i] < CLAVE_TECHO_BAJOS))
            || ((exists|i: int| es_swing_bajo(l, depth, lookback, i) && l[i] == sla)
            && sl < sla < CLAVE_TECHO_BAJOS
            && forall|i: int|
            es_swing_bajo(l, depth, lookback, i) && sl < l[i] < CLAVE_TECHO_BAJOS ==> sla <= l[i])
    } else {
        sl == 0 && sla == 0
    }
}

/// The second swing high lies strictly below the first and above 0; the second swing low
/// strictly above the first and below the ceiling; a missing swing is 0.
pub proof fn lema_pivotes_ordenados(h: Seq<i64>, l: Seq<i64>, depth: int, lookback: int, sh: i64, sha: i64, sl: i64, sla: i64)
    requires
        resultado_altos(h, depth, lookback, sh, sha),
        resultado_bajos(l, depth, lookback, sl, sla),
    ensures
        sha == 0 || 0 < sha < sh,
        sla == 0 || sl < sla < CLAVE_TECHO_BAJOS,
{
}

/// Each reported swing high stands at a bar that is higher than its `depth` neighbours on
/// both sides: the newer bars and the older bars that the series holds; each reported swing
/// low stands at a bar lower than those neighbours.
pub proof fn lema_swing_supera_vecinos(h: Seq<i64>, l: Seq<i64>, depth: int, lookback: int, sh: i64, sha: i64, sl: i64, sla: i64)
    requires
        resultado_altos(h, depth, lookback, sh, sha),
        resultado_bajos(l, depth, lookback, sl, sla),
    ensures
        sh != 0 ==> exists|i: int|
            depth < i < h.len() && h[i] == sh
            && forall|j: int| 1 <= j <= depth ==> #[trigger] h[i - j] < sh && (i + j < h.len() ==> h[i + j] < sh),
        sha != 0 ==> exists|i: int|
            depth < i < h.len() && h[i] == sha
            && forall|j: int| 1 <= j <= depth ==> #[trigger] h[i - j] < sha && (i + j < h.len() ==> h[i + j] < sha),
        sl != 0 ==> exists|i: int|
            depth < i < l.len() && l[i] == sl
            && forall|j: int| 1 <= j <= depth ==> #[trigger] l[i - j] > sl && (i + j < l.len() ==> l[i + j] > sl),
        sla != 0 ==> exists|i: int|
            depth < i < l.len() && l[i] == sla
            && forall|j: int| 1 <= j <= depth ==> #[trigger] l[i - j] > sla && (i + j < l.len() ==> l[i + j] > sla),
{
    if sh != 0 {
        let i = choose|i: int| es_swing_alto(h, depth, lookback, i) && h[i] == sh;
        assert forall|j: int| 1 <= j <= depth implies #[trigger] h[i - j] < sh && (i + j < h.len() ==> h[i + j] < sh) by {
            assert(alto_domina(h, i, j));
        }
    }
    if sha != 0 {
        let i = choose|i: int| es_swing_alto(h, depth, lookback, i) && h[i] == sha;
        assert forall|j: int| 1 <= j <= depth implies #[trigger] h[i - j] < sha && (i + j < h.len() ==> h[i + j] < sha) by {
            assert(alto_domina(h, i, j));
        }
    }
    if sl != 0 {
        let i = choose|i: int| es_swing_bajo(l, depth, lookback, i) && l[i] == sl;
        assert forall|j: int| 1 <= j <= depth implies #[trigger] l[i - j] > sl && (i + j < l.len() ==> l[i + j] > sl) by {
            assert(bajo_domina(l, i, j));
        }
    }
    if sla != 0 {
        let i = choose|i: int| es_swing_bajo(l, depth, lookback, i) && l[i] == sla;
        assert forall|j: int| 1 <= j <= depth implies #[trigger] l[i - j] > sla && (i + j < l.len() ==> l[i + j] > sla) by {
            assert(bajo_domina(l, i, j));
        }
    }
}

/// Every bar among the candidates (`depth < i`, `i + depth + 1 < lookback`, `i < 50`) with
/// data (a key between the infinities) that beats its `depth` neighbours on both sides is
/// at most the swing high, and one below the swing high is at most the runner-up; every
/// such bar below its neighbours is at least the swing low, and one above it (under the
/// ceiling) at least the runner-up.
pub proof fn lema_swing_es_el_extremo(h: Seq<i64>, l: Seq<i64>, depth: int, lookback: int, sh: i64, sha: i64, sl: i64, sla: i64, i: int)
    requires
        resultado_altos(h, depth, lookback, sh, sha),
        resultado_bajos(l, depth, lookback, sl, sla),
        depth < i,
        i + depth + 1 < lookback,
        i < 50,
    ensures
        i < h.len() && h[i] != 0 && CLAVE_MENOS_INFINITO < h[i]
            && (forall|j: int| 1 <= j <= depth ==> #[trigger] h[i - j] < h[i] && (i + j < h.len() ==> h[i + j] < h[i]))
            ==> h[i] <= sh && (0 < h[i] < sh ==> 0 < sha && h[i] <= sha),
        i < l.len() && l[i] != 0 && l[i] < CLAVE_MAS_INFINITO
            && (forall|j: int| 1 <= j <= depth ==> #[trigger] l[i - j] > l[i] && (i + j < l.len() ==> l[i + j] > l[i]))
            ==> sl <= l[i] && (sl < l[i] < CLAVE_TECHO_BAJOS ==> sla != 0 && sla <= l[i]),
{
    if i < h.len() && h[i] != 0 && CLAVE_MENOS_INFINITO < h[i]
        && (forall|j: int| 1 <= j <= depth ==> #[trigger] h[i - j] < h[i] && (i + j < h.len() ==> h[i + j] < h[i])) {
        assert forall|j: int| 1 <= j <= depth implies #[trigger] alto_domina(h, i, j) by {
            assert(h[i - j] < h[i]);
        }
        assert(es_swing_alto(h, depth, lookback, i));
    }
    if i < l.len() && l[i] != 0 && l[i] < CLAVE_MAS_INFINITO
        && (forall|j: int| 1 <= j <= depth ==> #[trigger] l[i - j] > l[i] && (i + j < l.len() ==> l[i + j] > l[i])) {
        assert forall|j: int| 1 <= j <= depth implies #[trigger] bajo_domina(l, i, j) by {
            assert(l[i - j] > l[i]);
        }
        assert(es_swing_bajo(l, depth, lookback, i));
    }
}

/// On a strictly monotone series of highs (rising or falling) no bar beats both neighbours,
/// so there is no swing high; likewise no swing low on a strictly monotone series of lows.
/// This holds when the oldest bar of the series is never a candidate
/// (`lookback <= len + depth`).
pub proof fn lema_serie_monotona_sin_swings(h: Seq<i64>, l: Seq<i64>, depth: int, lookback: int, sh: i64, sha: i64, sl: i64, sla: i64)
    requires
        resultado_altos(h, depth, lookback, sh, sha),
        resultado_bajos(l, depth, lookback, sl, sla),
        1 <= depth,
        lookback <= h.len() + depth,
        lookback <= l.len() + depth,
    ensures
        (forall|k: int| 0 <= k < h.len() - 1 ==> #[trigger] h[k] < h[k + 1]) ==> sh == 0 && sha == 0,
        (forall|k: int| 0 <= k < h.len() - 1 ==> #[trigger] h[k] > h[k + 1]) ==> sh == 0 && sha == 0,
        (forall|k: int| 0 <= k < l.len() - 1 ==> #[trigger] l[k] < l[k + 1]) ==> sl == 0 && sla == 0,
        (forall|k: int| 0 <= k < l.len() - 1 ==> #[trigger] l[k] > l[k + 1]) ==> sl == 0 && sla == 0,
{
    if (forall|k: int| 0 <= k < h.len() - 1 ==> #[trigger] h[k] < h[k + 1]) || (forall|k: int| 0 <= k < h.len() - 1 ==> #[trigger] h[k] > h[k + 1]) {
        assert forall|i: int| !es_swing_alto(h, depth, lookback, i) by {
            if es_swing_alto(h, depth, lookback, i) {
                assert(alto_domina(h, i, 1));
                assert(i + 1 < h.len());
                assert(h[i - 1] < h[i] && h[i + 1] < h[i]);
                assert(h[i - 1] < h[i] || h[i - 1] > h[i]);
                assert(false);
            }
        }
    }
    if (forall|k: int| 0 <= k < l.len() - 1 ==> #[trigger] l[k] < l[k + 1]) || (forall|k: int| 0 <= k < l.len() - 1 ==> #[trigger] l[k] > l[k + 1]) {
        assert forall|i: int| !es_swing_bajo(l, depth, lookback, i) by {
            if es_swing_bajo(l, depth, lookback, i) {
                assert(bajo_domina(l, i, 1));
                assert(i + 1 < l.len());
                assert(l[i - 1] > l[i] && l[i + 1] > l[i]);
                assert(false);
            }
        }
    }
}

fn es_pivote_alto(h: &[i64], depth: usize, lookback: usize, i: usize) -> (r: bool)
    requires
        depth + 1 <= i < fin_candidatos(h@.len() as int, depth as int, lookback as int),
    ensures
        r == es_swing_alto(h@, depth as int, lookback as int, i as int),
{
    if h[i] == 0 {
        return false;
    }
    let n = h.len();
    let mut j: usize = 1;
    while j <= depth
        invariant
            n == h@.len(),
            depth + 1 <= i < fin_candidatos(h@.len() as int, depth as int, lookback as int),
            1 <= j <= depth + 1,
            h@[i as int] != 0,
            forall|k: int| 1 <= k < j ==> #[trigger] alto_domina(h@, i as int, k),
        decreases depth + 1 - j,
    {
        let izq = h[i - j];
        let der = if i + j < n { h[i + j] } else { CLAVE_MENOS_INFINITO };
        if izq >= h[i] || der >= h[i] {
            assert(!alto_domina(h@, i as int, j as int));
            return false;
        }
        j = j + 1;
    }
    true
}

fn es_pivote_bajo(l: &[i64], depth: usize, lookback: usize, i: usize) -> (r: bool)
    requires
        depth + 1 <= i < fin_candidatos(l@.len() as int, depth as int, lookback as int),
    ensures
        r == es_swing_bajo(l@, depth as int, lookback as int, i as int),
{
    if l[i] == 0 {
        return false;
    }
    let n = l.len();
    let mut j: usize = 1;
    while j <= depth
        invariant
            n == l@.len(),
            depth + 1 <= i < fin_candidatos(l@.len() as int, depth as int, lookback as int),
            1 <= j <= depth + 1,
            l@[i as int] != 0,
            forall|k: int| 1 <= k < j ==> #[trigger] bajo_domina(l@, i as int, k),
        decreases depth + 1 - j,
    {
        let izq = l[i - j];
        let der = if i + j < n { l[i + j] } else { CLAVE_MAS_INFINITO };
        if izq <= l[i] || der <= l[i] {
            assert(!bajo_domina(l@, i as int, j as int));
            return false;
        }
        j = j + 1;
    }
    true
}

fn fin_de_candidatos(n: usize, depth: usize, lookback: usize) -> (fin: usize)
    requires
        depth < usize::MAX,
    ensures
        fin == fin_candidatos(n as int, depth as int, lookback as int),
        fin <= 50,
        fin <= n,
{
    if lookback > depth + 1 {
        let e = lookback - depth - 1;
        let e2 = if e < n { e } else { n };
        if e2 < 50 { e2 } else { 50 }
    } else {
        0
    }
}

fn pivotes_altos(h: &[i64], depth: usize, lookback: usize) -> (r: (i64, i64))
    requires
        depth < usize::MAX,
    ensures
        resultado_altos(h@, depth as int, lookback as int, r.0, r.1),
{
    let fin = fin_de_candidatos(h.len(), depth, lookback);
    let ghost hs = h@;
    let ghost d = depth as int;
    let ghost lb = lookback as int;
    let mut hay = false;
    let mut m: i64 = 0;
    let ghost mut wi: int = 0;
    let mut i: usize = depth + 1;
    while i < fin
        invariant
            hs == h@,
            d == depth as int,
            lb == lookback as int,
            fin == fin_candidatos(h@.len() as int, d, lb),
            depth + 1 <= i,
            hay ==> es_swing_alto(hs, d, lb, wi) && hs[wi] == m,
            forall|k: int| depth + 1 <= k < i && es_swing_alto(hs, d, lb, k) ==> hay && hs[k] <= m,
            forall|k: int| es_swing_alto(hs, d, lb, k) ==> depth + 1 <= k < fin,
        decreases fin - i,
    {
        if es_pivote_alto(h, depth, lookback, i) {
            if !hay || h[i] > m {
                m = h[i];
                hay = true;
                proof {
                    wi = i as int;
                }
            }
        }
        i = i + 1;
    }
    if !hay {
        assert(!exists|k: int| es_swing_alto(hs, d, lb, k));
        return (0, 0);
    }
    let mut s: i64 = 0;
    let ghost mut ws: int = 0;
    let mut i: usize = depth + 1;
    while i < fin
        invariant
            hs == h@,
            d == depth as int,
            lb == lookback as int,
            fin == fin_candidatos(h@.len() as int, d, lb),
            depth + 1 <= i,
            hay,
            es_swing_alto(hs, d, lb, wi) && hs[wi] == m,
            forall|k: int| es_swing_alto(hs, d, lb, k) ==> hs[k] <= m,
            forall|k: int| es_swing_alto(hs, d, lb, k) ==> depth + 1 <= k < fin,
            s == 0 || (es_swing_alto(hs, d, lb, ws) && hs[ws] == s && 0 < s < m),
            0 <= s,
            forall|k: int| depth + 1 <= k < i && es_swing_alto(hs, d, lb, k) && 0 < hs[k] < m ==> hs[k] <= s,
        decreases fin - i,
    {
        if es_pivote_alto(h, depth, lookback, i) {
            if h[i] < m && h[i] > s {
                s = h[i];
                proof {
                    ws = i as int;
                }
            }
        }
        i = i + 1;
    }
    (m, s)
}

fn pivotes_bajos(l: &[i64], depth: usize, lookback: usize) -> (r: (i64, i64))
    requires
        depth < usize::MAX,
    ensures
        resultado_bajos(l@, depth as int, lookback as int, r.0, r.1),
{
    let fin = fin_de_candidatos(l.len(), depth, lookback);
    let ghost ls = l@;
    let ghost d = depth as int;
    let ghost lb = lookback as int;
    let mut hay = false;
    let mut m: i64 = 0;
    let ghost mut wi: int = 0;
    let mut i: usize = depth + 1;
    while i < fin
        invariant
            ls == l@,
            d == depth as int,
            lb == lookback as int,
            fin == fin_candidatos(l@.len() as int, d, lb),
            depth + 1 <= i,
            hay ==> es_swing_bajo(ls, d, lb, wi) && ls[wi] == m,
            forall|k: int| depth + 1 <= k < i && es_swing_bajo(ls, d, lb, k) ==> hay && m <= ls[k],
            forall|k: int| es_swing_bajo(ls, d, lb, k) ==> depth + 1 <= k < fin,
        decreases fin - i,
    {
        if es_pivote_bajo(l, depth, lookback, i) {
            if !hay || l[i] < m {
                m = l[i];
                hay = true;
                proof {
                    wi = i as int;
                }
            }
        }
        i = i + 1;
    }
    if !hay {
        assert(!exists|k: int| es_swing_bajo(ls, d, lb, k));
        return (0, 0);
    }
    let mut s: i64 = CLAVE_TECHO_BAJOS;
    let ghost mut ws: int = 0;
    let mut i: usize = depth + 1;
    while i < fin
        invariant
            ls == l@,
            d == depth as int,
            lb == lookback as int,
            fin == fin_candidatos(l@.len() as int, d, lb),
            depth + 1 <= i,
            hay,
            es_swing_bajo(ls, d, lb, wi) && ls[wi] == m,
            forall|k: int| es_swing_bajo(ls, d, lb, k) ==> m <= ls[k],
            forall|k: int| es_swing_bajo(ls, d, lb, k) ==> depth + 1 <= k < fin,
            s == CLAVE_TECHO_BAJOS || (es_swing_bajo(ls, d, lb, ws) && ls[ws] == s && m < s < CLAVE_TECHO_BAJOS),
            s <= CLAVE_TECHO_BAJOS,
            forall|k: int| depth + 1 <= k < i && es_swing_bajo(ls, d, lb, k) && m < ls[k] < CLAVE_TECHO_BAJOS ==> s <= ls[k],
        decreases fin - i,
    {
        if es_pivote_bajo(l, depth, lookback, i) {
            if l[i] > m && l[i] < s {
                s = l[i];
                proof {
                    ws = i as int;
                }
            }
        }
        i = i + 1;
    }
    if s < CLAVE_TECHO_BAJOS {
        (m, s)
    } else {
        (m, 0)
    }
}

/// Swing highs and lows of depth `depth` among the last `lookback` H1 bars, given by the
/// order keys of the bars' highs and lows (index 0 = the bar in formation). Returns
/// `(swing_high, swing_low, swing_high_ant, swing_low_ant)` as keys, 0 where none.
pub fn detectar_pivots_h1(altos: &[i64], bajos: &[i64], depth: usize, lookback: usize) -> (r: (
    i64,
    i64,
    i64,
    i64,
))
    requires
        altos@.len() == bajos@.len(),
        depth < usize::MAX,
    ensures
        resultado_altos(altos@, depth as int, lookback as int, r.0, r.2),
        resultado_bajos(bajos@, depth as int, lookback as int, r.1, r.3),
{
    let (sh, sha) = pivotes_altos(altos, depth, lookback);
    let (sl, sla) = pivotes_bajos(bajos, depth, lookback);
    (sh, sl, sha, sla)
}

/// Structural direction from the swings: higher high and higher low is bullish, lower
/// (or equal) high and low is bearish, anything else, or a missing swing, neutral.
pub open spec fn direccion_de(sh: i64, sl: i64, sha: i64, sla: i64) -> Tendencia {
    if sh > 0 && sha > 0 && sl > 0 && sla > 0 {
        let hh = sh > sha;
        let hl = sl > sla;
        if hh && hl {
            Tendencia::Alcista
        } else if !hh && !hl {
            Tendencia::Bajista
        } else {
            Tendencia::Neutro
        }
    } else {
        Tendencia::Neutro
    }
}

/// Direction of the structure given the keys of its swings.
pub fn direccion_estructural(swing_high: i64, swing_low: i64, swing_high_ant: i64, swing_low_ant: i64) -> (r: Tendencia)
    ensures
        r == direccion_de(swing_high, swing_low, swing_high_ant, swing_low_ant),
{
    if swing_high > 0 && swing_high_ant > 0 && swing_low > 0 && swing_low_ant > 0 {
        let hh = swing_high > swing_high_ant;
        let hl = swing_low > swing_low_ant;
        if hh && hl {
            return Tendencia::Alcista;
        }
        if !hh && !hl {
            return Tendencia::Bajista;
        }
    }
    Tendencia::Neutro
}

/// Only a higher high together with a higher low is bullish, and only a high and a low that
/// are both lower or equal are bearish, each with all four swings present; a high and a low
/// that move in opposite directions, or a missing swing, give a neutral structure.
pub proof fn lema_direccion_requiere_ambos(sh: i64, sl: i64, sha: i64, sla: i64)
    ensures
        direccion_de(sh, sl, sha, sla) == Tendencia::Alcista <==> (sh > 0 && sl > 0 && sha > 0 && sla > 0 && sh > sha && sl > sla),
        direccion_de(sh, sl, sha, sla) == Tendencia::Bajista <==> (sh > 0 && sl > 0 && sha > 0 && sla > 0 && sh <= sha && sl <= sla),
        (sh > sha) != (sl > sla) ==> direccion_de(sh, sl, sha, sla) == Tendencia::Neutro,
        sh <= 0 || sl <= 0 || sha <= 0 || sla <= 0 ==> direccion_de(sh, sl, sha, sla) == Tendencia::Neutro,
{
}

/// Highest key of `s[a..b)` (`b > a`).
pub open spec fn max_tramo(s: Seq<i64>, a: int, b: int) -> i64
    decreases b - a,
{
    if b <= a + 1 {
        s[a]
    } else {
        max_clave(max_tramo(s, a, b - 1), s[b - 1])
    }
}

/// Lowest key of `s[a..b)` (`b > a`).
pub open spec fn min_tramo(s: Seq<i64>, a: int, b: int) -> i64
    decreases b - a,
{
    if b <= a + 1 {
        s[a]
    } else {
        min_clave(min_tramo(s, a, b - 1), s[b - 1])
    }
}

/// First position `k` in `desde..=hasta` at which the prior bars stop (past the series, or
/// a bar with a zero high or low); `hasta + 1` if they never do.
pub open spec fn fin_ventana(h: Seq<i64>, l: Seq<i64>, k: int, hasta: int) -> int
    decreases hasta + 1 - k,
{
    if k > hasta || k >= h.len() || h[k] == 0 || l[k] == 0 {
        k
    } else {
        fin_ventana(h, l, k + 1, hasta)
    }
}

/// The highest of `acc` and `s[a..e)`.
pub open spec fn max_ventana(s: Seq<i64>, acc: i64, a: int, e: int) -> i64
    decreases e - a,
{
    if e <= a {
        acc
    } else {
        max_clave(max_ventana(s, acc, a, e - 1), s[e - 1])
    }
}

/// The lowest of `acc` and `s[a..e)`.
pub open spec fn min_ventana(s: Seq<i64>, acc: i64, a: int, e: int) -> i64
    decreases e - a,
{
    if e <= a {
        acc
    } else {
        min_clave(min_ventana(s, acc, a, e - 1), s[e - 1])
    }
}

/// A window's highest value is at least its starting value, its lowest at most.
pub proof fn lema_ventana_acota(s: Seq<i64>, acc: i64, a: int, e: int)
    ensures
        max_ventana(s, acc, a, e) >= acc,
        min_ventana(s, acc, a, e) <= acc,
    decreases e - a,
{
    if e > a {
        lema_ventana_acota(s, acc, a, e - 1);
    }
}

/// The extremes a scan of bars `desde..=hasta` reaches: the highest high from `ini_alto`
/// and the lowest low from `ini_bajo`, up to the first bar without data.
pub open spec fn extremos_de_ventana(h: Seq<i64>, l: Seq<i64>, ini_alto: i64, ini_bajo: i64, desde: int, hasta: int) -> (i64, i64) {
    let e = fin_ventana(h, l, desde, hasta);
    (max_ventana(h, ini_alto, desde, e), min_ventana(l, ini_bajo, desde, e))
}

/// The prior-range scan the detectors share, on the keys of the highs and lows: starting
/// from `ini_alto` / `ini_bajo`, the highest high and lowest low of bars `desde..=hasta`,
/// stopping at the end of the series or at the first bar with a zero high or low.
pub fn extremos_ventana(altos: &[i64], bajos: &[i64], ini_alto: i64, ini_bajo: i64, desde: usize, hasta: usize) -> (r: (i64, i64))
    requires
        altos@.len() == bajos@.len(),
        hasta < usize::MAX,
    ensures
        r == extremos_de_ventana(altos@, bajos@, ini_alto, ini_bajo, desde as int, hasta as int),
{
    let n = altos.len();
    let mut ph = ini_alto;
    let mut pl = ini_bajo;
    let mut k = desde;
    while k <= hasta
        invariant
            n == altos@.len() == bajos@.len(),
            hasta < usize::MAX,
            desde <= k,
            k <= hasta + 1 || k == desde,
            fin_ventana(altos@, bajos@, desde as int, hasta as int) == fin_ventana(altos@, bajos@, k as int, hasta as int),
            ph == max_ventana(altos@, ini_alto, desde as int, k as int),
            pl == min_ventana(bajos@, ini_bajo, desde as int, k as int),
        ensures
            fin_ventana(altos@, bajos@, desde as int, hasta as int) == k,
            ph == max_ventana(altos@, ini_alto, desde as int, k as int),
            pl == min_ventana(bajos@, ini_bajo, desde as int, k as int),
        decreases hasta + 1 - k,
    {
        if k >= n {
            break;
        }
        if altos[k] == 0 || bajos[k] == 0 {
            break;
        }
        if altos[k] > ph {
            ph = altos[k];
        }
        if bajos[k] < pl {
            pl = bajos[k];
        }
        k = k + 1;
    }
    (ph, pl)
}

/// The M15 range used to place a level in the premium or discount half: the highest high
/// and lowest low of bars `1..=50` up to the first bar without data, when that range is
/// a proper one (both ends above 0, the high above the low).
pub open spec fn rango_premium_discount(h: Seq<i64>, l: Seq<i64>) -> Option<(i64, i64)> {
    let (max_high, min_low) = extremos_de_ventana(h, l, 0, CLAVE_TECHO_BAJOS, 1, 50);
    if max_high > 0 && min_low > 0 && max_high > min_low {
        Some((max_high, min_low))
    } else {
        None
    }
}

/// EsZonaPremiumDiscount's range scan on the keys of the M15 highs and lows.
pub fn rango_m15(altos: &[i64], bajos: &[i64]) -> (r: Option<(i64, i64)>)
    requires
        altos@.len() == bajos@.len(),
    ensures
        r == rango_premium_discount(altos@, bajos@),
{
    let (max_high, min_low) = extremos_ventana(altos, bajos, 0, CLAVE_TECHO_BAJOS, 1, 50);
    if max_high > 0 && min_low > 0 && max_high > min_low {
        Some((max_high, min_low))
    } else {
        None
    }
}

/// The market structure shift seen at H4 bar `i` with the (capped) lookback `lb`: the
/// close of bar `i` above the highest high of the bars before it (bullish, at that high)
/// or below their lowest low (bearish, at that low).
pub open spec fn mss_en(h: Seq<i64>, l: Seq<i64>, c: Seq<i64>, lb: int, i: int) -> Option<(Tendencia, i64)> {
    if i >= c.len() || c[i] == 0 || i + 1 >= c.len() {
        None
    } else {
        let hasta = if i + lb < 50 { i + lb } else { 50 };
        let e = fin_ventana(h, l, i + 1, hasta);
        let w = if e > i + 1 { e } else { i + 2 };
        let ph = max_tramo(h, i + 1, w);
        let pl = min_tramo(l, i + 1, w);
        if c[i] > ph {
            Some((Tendencia::Alcista, ph))
        } else if c[i] < pl {
            Some((Tendencia::Bajista, pl))
        } else {
            None
        }
    }
}

/// The lookback after the cap of 50 bars.
pub open spec fn lookback_mss(lookback: int) -> int {
    if lookback < 50 { lookback } else { 50 }
}

/// The last bar examined for a shift.
pub open spec fn tope_mss(lookback: int) -> int {
    if lookback < 49 { lookback } else { 49 }
}

/// The most recent shift among bars `i..=tope`.
pub open spec fn primera_mss(h: Seq<i64>, l: Seq<i64>, c: Seq<i64>, lb: int, i: int, tope: int) -> Option<(i32, Tendencia, i64)>
    decreases tope + 1 - i,
{
    if i > tope {
        None
    } else {
        match mss_en(h, l, c, lb, i) {
            Some((t, v)) => Some((i as i32, t, v)),
            None => primera_mss(h, l, c, lb, i + 1, tope),
        }
    }
}

/// What `detect_mss_h4` gives.
pub open spec fn mss_mas_reciente(h: Seq<i64>, l: Seq<i64>, c: Seq<i64>, lookback: int) -> Option<(i32, Tendencia, i64)> {
    primera_mss(h, l, c, lookback_mss(lookback), 1, tope_mss(lookback))
}

/// The scan of prior bars stops on bars that agree in both pairs of series at the same place.
pub proof fn lema_fin_ventana_local(h1: Seq<i64>, l1: Seq<i64>, h2: Seq<i64>, l2: Seq<i64>, k: int, hasta: int)
    requires
        h1.len() == h2.len(),
        0 <= k,
        forall|j: int| k <= j <= hasta && j < h1.len() ==> h1[j] == h2[j] && l1[j] == l2[j],
    ensures
        fin_ventana(h1, l1, k, hasta) == fin_ventana(h2, l2, k, hasta),
        k <= fin_ventana(h1, l1, k, hasta) <= if hasta + 1 > k { hasta + 1 } else { k },
    decreases hasta + 1 - k,
{
    if !(k > hasta || k >= h1.len() || h1[k] == 0 || l1[k] == 0) {
        lema_fin_ventana_local(h1, l1, h2, l2, k + 1, hasta);
    }
}

/// The scan of prior bars stops within the series and within `hasta + 1`, unless it stops
/// where it starts.
pub proof fn lema_fin_ventana_acotado(h: Seq<i64>, l: Seq<i64>, k: int, hasta: int)
    ensures
        fin_ventana(h, l, k, hasta) <= h.len() || fin_ventana(h, l, k, hasta) == k,
        fin_ventana(h, l, k, hasta) <= hasta + 1 || fin_ventana(h, l, k, hasta) == k,
    decreases hasta + 1 - k,
{
    if !(k > hasta || k >= h.len() || h[k] == 0 || l[k] == 0) {
        lema_fin_ventana_acotado(h, l, k + 1, hasta);
    }
}

proof fn lema_fin_ventana_completa(h: Seq<i64>, l: Seq<i64>, k: int, hasta: int)
    requires
        0 <= k <= hasta + 1,
        hasta < h.len(),
        h.len() == l.len(),
        forall|j: int| k <= j <= hasta ==> h[j] != 0 && l[j] != 0,
    ensures
        fin_ventana(h, l, k, hasta) == hasta + 1,
    decreases hasta + 1 - k,
{
    if k <= hasta {
        lema_fin_ventana_completa(h, l, k + 1, hasta);
    }
}

proof fn lema_tramo_extremos(s: Seq<i64>, a: int, b: int)
    requires
        0 <= a < b <= s.len(),
    ensures
        forall|k: int| a <= k < b ==> s[k] <= max_tramo(s, a, b) && min_tramo(s, a, b) <= s[k],
        exists|k: int| a <= k < b && s[k] == max_tramo(s, a, b),
        exists|k: int| a <= k < b && s[k] == min_tramo(s, a, b),
    decreases b - a,
{
    if b > a + 1 {
        lema_tramo_extremos(s, a, b - 1);
        let km = choose|k: int| a <= k < b - 1 && s[k] == max_tramo(s, a, b - 1);
        let kn = choose|k: int| a <= k < b - 1 && s[k] == min_tramo(s, a, b - 1);
        if max_tramo(s, a, b) == s[b - 1] {
            assert(s[b - 1] == max_tramo(s, a, b));
        } else {
            assert(s[km] == max_tramo(s, a, b));
        }
        if min_tramo(s, a, b) == s[b - 1] {
            assert(s[b - 1] == min_tramo(s, a, b));
        } else {
            assert(s[kn] == min_tramo(s, a, b));
        }
    } else {
        assert(s[a] == max_tramo(s, a, b));
        assert(s[a] == min_tramo(s, a, b));
    }
}

proof fn lema_tramo_local(s1: Seq<i64>, s2: Seq<i64>, a: int, b: int)
    requires
        forall|k: int| a <= k < b ==> s1[k] == s2[k],
        a < b,
    ensures
        max_tramo(s1, a, b) == max_tramo(s2, a, b),
        min_tramo(s1, a, b) == min_tramo(s2, a, b),
    decreases b - a,
{
    if b > a + 1 {
        lema_tramo_local(s1, s2, a, b - 1);
    }
}

/// The shift seen at bar `i` depends only on the close of bar `i` and on the highs and lows
/// of the `lb` bars before it (`i + 1 ..= i + lb`, at most up to bar 50): bars further back
/// never change it.
pub proof fn lema_mss_solo_mira_su_ventana(
    h1: Seq<i64>,
    l1: Seq<i64>,
    h2: Seq<i64>,
    l2: Seq<i64>,
    c: Seq<i64>,
    lb: int,
    i: int,
)
    requires
        h1.len() == l1.len() == h2.len() == l2.len() == c.len(),
        1 <= i <= 49,
        1 <= lb,
        forall|k: int| i + 1 <= k <= i + lb && k <= 50 && k < c.len() ==> h1[k] == h2[k] && l1[k] == l2[k],
    ensures
        mss_en(h1, l1, c, lb, i) == mss_en(h2, l2, c, lb, i),
{
    if !(i >= c.len() || c[i] == 0 || i + 1 >= c.len()) {
        let hasta = if i + lb < 50 { i + lb } else { 50 };
        lema_fin_ventana_local(h1, l1, h2, l2, i + 1, hasta);
        lema_fin_ventana_acotado(h1, l1, i + 1, hasta);
        let e = fin_ventana(h1, l1, i + 1, hasta);
        let w = if e > i + 1 { e } else { i + 2 };
        lema_tramo_local(h1, h2, i + 1, w);
        lema_tramo_local(l1, l2, i + 1, w);
    }
}

/// A bar whose close lies above every high of the `lb` bars before it (all with data, within
/// the series and the 50-bar cap) shifts the structure up, at the highest of those highs.
pub proof fn lema_mss_alcista_sobre_su_ventana(h: Seq<i64>, l: Seq<i64>, c: Seq<i64>, lb: int, i: int)
    requires
        h.len() == l.len() == c.len(),
        1 <= i,
        1 <= lb,
        i + lb <= 50,
        i + lb < c.len(),
        c[i] != 0,
        forall|k: int| i + 1 <= k <= i + lb ==> h[k] != 0 && l[k] != 0 && h[k] < c[i],
    ensures
        exists|v: i64|
            mss_en(h, l, c, lb, i) == Some((Tendencia::Alcista, v))
            && (exists|k: int| i + 1 <= k <= i + lb && h[k] == v)
            && (forall|k: int| i + 1 <= k <= i + lb ==> h[k] <= v),
{
    lema_fin_ventana_completa(h, l, i + 1, i + lb);
    lema_tramo_extremos(h, i + 1, i + lb + 1);
    let v = max_tramo(h, i + 1, i + lb + 1);
    let k = choose|k: int| i + 1 <= k < i + lb + 1 && h[k] == v;
    assert(h[k] < c[i]);
    assert(mss_en(h, l, c, lb, i) == Some((Tendencia::Alcista, v)));
}

/// A bar whose close lies below every low of the `lb` bars before it (all with data, each
/// high at or above its low, within the series and the 50-bar cap) shifts the structure
/// down, at the lowest of those lows.
pub proof fn lema_mss_bajista_bajo_su_ventana(h: Seq<i64>, l: Seq<i64>, c: Seq<i64>, lb: int, i: int)
    requires
        h.len() == l.len() == c.len(),
        1 <= i,
        1 <= lb,
        i + lb <= 50,
        i + lb < c.len(),
        c[i] != 0,
        forall|k: int| i + 1 <= k <= i + lb ==> h[k] != 0 && l[k] != 0 && l[k] <= h[k] && c[i] < l[k],
    ensures
        exists|v: i64|
            mss_en(h, l, c, lb, i) == Some((Tendencia::Bajista, v))
            && (exists|k: int| i + 1 <= k <= i + lb && l[k] == v)
            && (forall|k: int| i + 1 <= k <= i + lb ==> v <= l[k]),
{
    lema_fin_ventana_completa(h, l, i + 1, i + lb);
    lema_tramo_extremos(h, i + 1, i + lb + 1);
    lema_tramo_extremos(l, i + 1, i + lb + 1);
    let v = min_tramo(l, i + 1, i + lb + 1);
    let k = choose|k: int| i + 1 <= k < i + lb + 1 && l[k] == v;
    assert(c[i] < l[k]);
    assert(c[i] < h[i + 1]);
    assert(mss_en(h, l, c, lb, i) == Some((Tendencia::Bajista, v)));
}

/// When the close of bar 1 lies above every high of the `lookback` bars before it (all with
/// data, `lookback` under the cap), the most recent shift is bar 1's, bullish, at the highest
/// of those highs.
pub proof fn lema_mss_reciente_en_barra_uno(h: Seq<i64>, l: Seq<i64>, c: Seq<i64>, lookback: int)
    requires
        h.len() == l.len() == c.len(),
        1 <= lookback,
        lookback + 1 <= 50,
        lookback + 1 < c.len(),
        c[1] != 0,
        forall|k: int| 2 <= k <= lookback + 1 ==> h[k] != 0 && l[k] != 0 && h[k] < c[1],
    ensures
        exists|v: i64|
            mss_mas_reciente(h, l, c, lookback) == Some((1i32, Tendencia::Alcista, v))
            && (exists|k: int| 2 <= k <= lookback + 1 && h[k] == v)
            && (forall|k: int| 2 <= k <= lookback + 1 ==> h[k] <= v),
{
    lema_mss_alcista_sobre_su_ventana(h, l, c, lookback, 1);
    let v = choose|v: i64|
        mss_en(h, l, c, lookback, 1) == Some((Tendencia::Alcista, v))
        && (exists|k: int| 2 <= k <= lookback + 1 && h[k] == v)
        && (forall|k: int| 2 <= k <= lookback + 1 ==> h[k] <= v);
    assert(lookback_mss(lookback) == lookback);
    assert(tope_mss(lookback) >= 1);
    assert(mss_mas_reciente(h, l, c, lookback) == Some((1i32, Tendencia::Alcista, v)));
}

fn mss_en_barra(h: &[i64], l: &[i64], c: &[i64], lb: usize, i: usize) -> (r: Option<(Tendencia, i64)>)
    requires
        h@.len() == l@.len() == c@.len(),
        1 <= i <= 49,
        i <= lb <= 50,
    ensures
        r == mss_en(h@, l@, c@, lb as int, i as int),
{
    let n = c.len();
    if i >= n || c[i] == 0 || i + 1 >= n {
        return None;
    }
    let hasta = if i + lb < 50 { i + lb } else { 50 };
    let mut ph = h[i + 1];
    let mut pl = l[i + 1];
    let mut k = i + 1;
    while k <= hasta
        invariant
            h@.len() == l@.len() == c@.len(),
            n == c@.len(),
            i + 1 < n,
            hasta <= 50,
            i + 1 <= hasta,
            i + 1 <= k <= hasta + 1,
            fin_ventana(h@, l@, i as int + 1, hasta as int) == fin_ventana(h@, l@, k as int, hasta as int),
            ph == max_tramo(h@, i as int + 1, if k > i + 1 { k as int } else { i as int + 2 }),
            pl == min_tramo(l@, i as int + 1, if k > i + 1 { k as int } else { i as int + 2 }),
        ensures
            fin_ventana(h@, l@, i as int + 1, hasta as int) == k,
            ph == max_tramo(h@, i as int + 1, if k > i + 1 { k as int } else { i as int + 2 }),
            pl == min_tramo(l@, i as int + 1, if k > i + 1 { k as int } else { i as int + 2 }),
        decreases hasta + 1 - k,
    {
        if k >= n {
            break;
        }
        if h[k] == 0 || l[k] == 0 {
            break;
        }
        if h[k] > ph {
            ph = h[k];
        }
        if l[k] < pl {
            pl = l[k];
        }
        k = k + 1;
    }
    if c[i] > ph {
        return Some((Tendencia::Alcista, ph));
    }
    if c[i] < pl {
        return Some((Tendencia::Bajista, pl));
    }
    None
}

/// DetectMSS_H4 on the keys of the H4 highs, lows and closes (index 0 = the bar in
/// formation): the most recent bar `1..=min(lookback, 49)` that shifts the structure, with
/// its age in bars, its direction and the key of the level it broke.
pub fn detect_mss_h4(altos: &[i64], bajos: &[i64], cierres: &[i64], lookback: usize) -> (r: Option<(i32, Tendencia, i64)>)
    requires
        altos@.len() == bajos@.len() == cierres@.len(),
    ensures
        r == mss_mas_reciente(altos@, bajos@, cierres@, lookback as int),
        r matches Some((b, t, v)) ==> {
            &&& 1 <= b <= tope_mss(lookback as int)
            &&& mss_en(altos@, bajos@, cierres@, lookback_mss(lookback as int), b as int) == Some((t, v))
            &&& forall|i: int| 1 <= i < b ==> #[trigger] mss_en(altos@, bajos@, cierres@, lookback_mss(lookback as int), i) is None
        },
        r is None ==> forall|i: int| 1 <= i <= tope_mss(lookback as int) ==> #[trigger] mss_en(altos@, bajos@, cierres@, lookback_mss(lookback as int), i) is None,
{
    let lb = if lookback < 50 { lookback } else { 50 };
    let tope = if lb < 49 { lb } else { 49 };
    let mut i: usize = 1;
    while i <= tope
        invariant
            altos@.len() == bajos@.len() == cierres@.len(),
            lb as int == lookback_mss(lookback as int),
            tope as int == tope_mss(lookback as int),
            tope <= lb,
            tope <= 49,
            1 <= i <= tope + 1,
            mss_mas_reciente(altos@, bajos@, cierres@, lookback as int)
                == primera_mss(altos@, bajos@, cierres@, lb as int, i as int, tope as int),
            forall|k: int| 1 <= k < i ==> #[trigger] mss_en(altos@, bajos@, cierres@, lb as int, k) is None,
        decreases tope + 1 - i,
    {
        match mss_en_barra(altos, bajos, cierres, lb, i) {
            Some((t, v)) => {
                return Some((i as i32, t, v));
            },
            None => {},
        }
        i = i + 1;
    }
    None
}

} // verus!
