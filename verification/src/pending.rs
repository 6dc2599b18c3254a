use vstd::prelude::*;
use std::collections::VecDeque;

use crate::indicators::{bar_shift_by_time, desplazamiento, diferencia_representable};
use crate::structure::{
    fin_ventana, lema_fin_ventana_acotado, lema_fin_ventana_local, lema_ventana_acota, max_ventana, min_ventana,
};
use crate::texto::str_eq;

verus! {

/// Most pending signals the engine keeps; the oldest leaves when a new one arrives.
pub const MAX_PENDING: usize = 500;

/// Tolerance in seconds when a pending signal's entry bar is looked up again (one M15 bar).
pub const TOLERANCIA_ENTRADA: i64 = 900;

/// The bookkeeping of a pending signal: what the engine needs to follow it bar by bar
/// until its four post-entry bars have been measured.
#[derive(Clone, Debug)]
pub struct Seguimiento {
    pub id: u64,
    pub detector: String,
    pub direction: i32,
    pub entry_time: i64,
    /// Bars between the entry bar and the bar in formation; negative when unknown.
    pub entry_bar_shift: i32,
    pub signal_age_bars: i32,
    /// Which of the four post-entry bars have been measured.
    pub measured: [bool; 4],
    pub completada: bool,
}

/// What a measurement pass asks of the caller for one pending signal.
#[derive(Clone, Copy, Debug, PartialEq, Eq, Structural)]
pub enum Medicion {
    /// Nothing to measure on this pass.
    Ninguna,
    /// Measure the signal on the bar `shift` bars after its entry bar, into slot `idx`
    /// (`idx == shift - 1`).
    Medir { shift: i32, idx: usize },
}

/// The entry shift a pass works with: the bar found again by time, else the one known.
pub open spec fn shift_resuelto(antes: Seguimiento, encontrado: int) -> int {
    if encontrado >= 0 { encontrado } else { antes.entry_bar_shift as int }
}

/// The measurement owed at entry shift `sh`: the post-entry bar `sh` (1..=4), when its
/// slot is still open and the bar has a valid close.
pub open spec fn medicion_debida(measured: Seq<bool>, sh: int, cierre_valido: Seq<bool>) -> Medicion {
    if 1 <= sh <= 4 && !measured[sh - 1] && sh < cierre_valido.len() && cierre_valido[sh] {
        Medicion::Medir { shift: sh as i32, idx: (sh - 1) as usize }
    } else {
        Medicion::Ninguna
    }
}

/// One measurement pass over a pending signal, given the bar times of the M15 series
/// and which of its bars have a valid (non-zero) close.
pub open spec fn paso_valido(
    antes: Seguimiento,
    despues: Seguimiento,
    r: Medicion,
    times: Seq<i64>,
    cierre_valido: Seq<bool>,
) -> bool {
    &&& despues.id == antes.id
    &&& despues.detector == antes.detector
    &&& despues.direction == antes.direction
    &&& despues.entry_time == antes.entry_time
    &&& if antes.completada {
        &&& despues.entry_bar_shift == antes.entry_bar_shift
        &&& despues.signal_age_bars == antes.signal_age_bars
        &&& despues.measured@ == antes.measured@
        &&& despues.completada
        &&& r == Medicion::Ninguna
    } else {
        let encontrado = desplazamiento(times, antes.entry_time, TOLERANCIA_ENTRADA);
        let sh = shift_resuelto(antes, encontrado);
        &&& despues.entry_bar_shift == sh
        &&& r == medicion_debida(antes.measured@, sh, cierre_valido)
        &&& despues.completada == (sh > 4 || (r != Medicion::Ninguna && sh == 4))
        &&& match r {
            Medicion::Medir { shift, idx } => {
                &&& despues.measured@ == antes.measured@.update(idx as int, true)
                &&& despues.signal_age_bars == shift
            },
            Medicion::Ninguna => {
                &&& despues.measured@ == antes.measured@
                &&& despues.signal_age_bars == antes.signal_age_bars
            },
        }
    }
}

/// The bar times of the series can all be compared with `time` without overflow up to the
/// first exact match.
pub open spec fn tiempos_comparables(times: Seq<i64>, time: i64) -> bool {
    forall|i: int|
        0 <= i < times.len() && (forall|k: int| 0 <= k < i ==> times[k] != time)
            ==> diferencia_representable(times, time, i)
}

/// MeasureReturns for one pending signal: finds its entry bar again by time (±900 s),
/// closes it once it is more than four bars old, and tells which post-entry bar is due
/// for measurement. The entry bar itself is never measured.
pub fn paso_medicion(seg: &mut Seguimiento, times: &[i64], cierre_valido: &[bool]) -> (r: Medicion)
    requires
        times@.len() <= i32::MAX,
        tiempos_comparables(times@, old(seg).entry_time),
    ensures
        paso_valido(*old(seg), *final(seg), r, times@, cierre_valido@),
{
    if seg.completada {
        return Medicion::Ninguna;
    }
    let nuevo = bar_shift_by_time(times, seg.entry_time, TOLERANCIA_ENTRADA);
    let mut shift = seg.entry_bar_shift;
    if nuevo >= 0 {
        shift = nuevo;
        seg.entry_bar_shift = nuevo;
    } else if shift < 0 {
        return Medicion::Ninguna;
    }
    if shift <= 0 {
        return Medicion::Ninguna;
    }
    if shift > 4 {
        seg.completada = true;
        return Medicion::Ninguna;
    }
    let idx = (shift - 1) as usize;
    if seg.measured[idx] {
        return Medicion::Ninguna;
    }
    let su = shift as usize;
    if su >= cierre_valido.len() || !cierre_valido[su] {
        return Medicion::Ninguna;
    }
    seg.measured[idx] = true;
    seg.signal_age_bars = shift;
    if idx == 3 {
        seg.completada = true;
    }
    Medicion::Medir { shift, idx }
}

/// A pass leaves a completed signal as it is.
pub proof fn lema_completada_es_final(antes: Seguimiento, despues: Seguimiento, r: Medicion, times: Seq<i64>, v: Seq<bool>)
    requires
        paso_valido(antes, despues, r, times, v),
        antes.completada,
    ensures
        despues.completada,
        r == Medicion::Ninguna,
        despues.measured@ == antes.measured@,
{
}

/// A pass never forgets a measurement, measures at most one slot, never measures the
/// entry bar (shift 0), and the fourth post-entry bar completes the signal.
pub proof fn lema_medicion_monotona(antes: Seguimiento, despues: Seguimiento, r: Medicion, times: Seq<i64>, v: Seq<bool>)
    requires
        paso_valido(antes, despues, r, times, v),
        antes.measured@.len() == 4,
    ensures
        forall|k: int| 0 <= k < 4 && antes.measured@[k] ==> despues.measured@[k],
        forall|k: int| 0 <= k < 4 && !antes.measured@[k] && despues.measured@[k] ==> r == (Medicion::Medir { shift: (k + 1) as i32, idx: k as usize }),
        r matches Medicion::Medir { shift, idx } ==> 1 <= shift <= 4 && idx == shift - 1 && !antes.measured@[idx as int],
        r matches Medicion::Medir { shift, idx } ==> (despues.completada <==> shift == 4),
        antes.completada ==> despues.completada,
{
}

/// Most favourable and most adverse excursion from the entry over the bars after the
/// entry bar (`0..shift`), stopping at the first bar without data.
pub open spec fn extremos(h: Seq<i64>, l: Seq<i64>, entrada: i64, shift: int, direction: i32) -> (i64, i64) {
    let e = fin_ventana(h, l, 0, shift - 1);
    if direction == 1 {
        (max_ventana(h, entrada, 0, e), min_ventana(l, entrada, 0, e))
    } else {
        (min_ventana(l, entrada, 0, e), max_ventana(h, entrada, 0, e))
    }
}

/// MeasureReturns' excursion scan on the keys of the M15 highs and lows: the key of the
/// most favourable price (MFE) and of the most adverse one (MAE) reached after the entry
/// bar, the entry bar itself excluded. Long signals (`direction == 1`) gain upwards,
/// the others downwards.
pub fn extremos_medicion(altos: &[i64], bajos: &[i64], entrada: i64, shift: i32, direction: i32) -> (r: (i64, i64))
    requires
        altos@.len() == bajos@.len(),
    ensures
        r == extremos(altos@, bajos@, entrada, shift as int, direction),
{
    let n = altos.len();
    let mut mfe = entrada;
    let mut mae = entrada;
    let mut b: usize = 0;
    let tope: usize = if shift > 0 { shift as usize } else { 0 };
    while b < tope
        invariant
            n == altos@.len() == bajos@.len(),
            tope as int == if shift > 0 { shift as int } else { 0 },
            0 <= b <= tope,
            fin_ventana(altos@, bajos@, 0, shift - 1) == fin_ventana(altos@, bajos@, b as int, shift - 1),
            direction == 1 ==> mfe == max_ventana(altos@, entrada, 0, b as int) && mae == min_ventana(bajos@, entrada, 0, b as int),
            direction != 1 ==> mfe == min_ventana(bajos@, entrada, 0, b as int) && mae == max_ventana(altos@, entrada, 0, b as int),
        ensures
            fin_ventana(altos@, bajos@, 0, shift - 1) == b,
            direction == 1 ==> mfe == max_ventana(altos@, entrada, 0, b as int) && mae == min_ventana(bajos@, entrada, 0, b as int),
            direction != 1 ==> mfe == min_ventana(bajos@, entrada, 0, b as int) && mae == max_ventana(altos@, entrada, 0, b as int),
        decreases tope - b,
    {
        if b >= n {
            break;
        }
        let h = altos[b];
        let l = bajos[b];
        if h == 0 || l == 0 {
            break;
        }
        if direction == 1 {
            if h > mfe {
                mfe = h;
            }
            if l < mae {
                mae = l;
            }
        } else {
            if l < mfe {
                mfe = l;
            }
            if h > mae {
                mae = h;
            }
        }
        b = b + 1;
    }
    (mfe, mae)
}

/// The most favourable excursion is never against the signal and the most adverse never
/// in its favour: for a long signal MFE >= entry >= MAE, for a short one MFE <= entry <= MAE.
pub proof fn lema_extremos_orientados(h: Seq<i64>, l: Seq<i64>, entrada: i64, shift: int, direction: i32)
    ensures
        direction == 1 ==> extremos(h, l, entrada, shift, direction).0 >= entrada
            && extremos(h, l, entrada, shift, direction).1 <= entrada,
        direction != 1 ==> extremos(h, l, entrada, shift, direction).0 <= entrada
            && extremos(h, l, entrada, shift, direction).1 >= entrada,
{
    let e = fin_ventana(h, l, 0, shift - 1);
    lema_ventana_acota(h, entrada, 0, e);
    lema_ventana_acota(l, entrada, 0, e);
}

proof fn lema_ventanas_locales(s1: Seq<i64>, s2: Seq<i64>, acc: i64, e: int)
    requires
        forall|k: int| 0 <= k < e ==> s1[k] == s2[k],
    ensures
        max_ventana(s1, acc, 0, e) == max_ventana(s2, acc, 0, e),
        min_ventana(s1, acc, 0, e) == min_ventana(s2, acc, 0, e),
    decreases e,
{
    if e > 0 {
        lema_ventanas_locales(s1, s2, acc, e - 1);
    }
}

/// The excursions of a signal depend only on the bars after its entry bar: bars from the
/// entry bar on (`shift..`) never change them.
pub proof fn lema_extremos_excluyen_entrada(
    h1: Seq<i64>,
    l1: Seq<i64>,
    h2: Seq<i64>,
    l2: Seq<i64>,
    entrada: i64,
    shift: int,
    direction: i32,
)
    requires
        h1.len() == h2.len(),
        forall|j: int| 0 <= j < shift && j < h1.len() ==> h1[j] == h2[j] && l1[j] == l2[j],
    ensures
        extremos(h1, l1, entrada, shift, direction) == extremos(h2, l2, entrada, shift, direction),
{
    lema_fin_ventana_local(h1, l1, h2, l2, 0, shift - 1);
    let e = fin_ventana(h1, l1, 0, shift - 1);
    assert forall|k: int| 0 <= k < e implies h1[k] == h2[k] && l1[k] == l2[k] by {
        lema_fin_ventana_acotado(h1, l1, 0, shift - 1);
    }
    lema_ventanas_locales(h1, h2, entrada, e);
    lema_ventanas_locales(l1, l2, entrada, e);
}

/// IsDuplicate: some pending signal already has identifier `id`.
pub fn is_duplicate(pendientes: &[Seguimiento], id: u64) -> (r: bool)
    ensures
        r == exists|k: int| 0 <= k < pendientes@.len() && #[trigger] pendientes@[k].id == id,
{
    let mut i: usize = 0;
    while i < pendientes.len()
        invariant
            0 <= i <= pendientes@.len(),
            forall|k: int| 0 <= k < i ==> #[trigger] pendientes@[k].id != id,
        decreases pendientes@.len() - i,
    {
        if pendientes[i].id == id {
            return true;
        }
        i = i + 1;
    }
    false
}

/// Pending signal `s` was fired by detector `det` in direction `dir` within the last
/// `n_velas` bars.
pub open spec fn senal_reciente(s: Seguimiento, det: Seq<char>, dir: i32, n_velas: i32) -> bool {
    &&& s.detector@ == det
    &&& s.direction == dir
    &&& s.entry_bar_shift >= 0
    &&& s.entry_bar_shift <= n_velas
}

/// HuboSenalRecienteEnDireccion: some pending signal of detector `det` in direction `dir`
/// entered at most `n_velas` bars ago.
pub fn hubo_senal_reciente(pendientes: &[Seguimiento], det: &str, dir: i32, n_velas: i32) -> (r: bool)
    ensures
        r == exists|k: int| 0 <= k < pendientes@.len() && #[trigger] senal_reciente(pendientes@[k], det@, dir, n_velas),
{
    let mut i: usize = 0;
    while i < pendientes.len()
        invariant
            0 <= i <= pendientes@.len(),
            forall|k: int| 0 <= k < i ==> !#[trigger] senal_reciente(pendientes@[k], det@, dir, n_velas),
        decreases pendientes@.len() - i,
    {
        let s = &pendientes[i];
        if str_eq(s.detector.as_str(), det) && s.direction == dir && s.entry_bar_shift >= 0
            && s.entry_bar_shift <= n_velas {
            assert(senal_reciente(pendientes@[i as int], det@, dir, n_velas));
            return true;
        }
        i = i + 1;
    }
    false
}

/// The pending list after a new signal is routed into it.
pub open spec fn tras_registrar<T>(antes: Seq<T>, x: T) -> Seq<T> {
    if antes.len() >= MAX_PENDING {
        antes.drop_first().push(x)
    } else {
        antes.push(x)
    }
}

/// RouteSignal's bookkeeping: the signal joins the end of the pending list; when the list
/// is full the oldest signal leaves it first, so a list within the cap stays within it.
pub fn registrar<T>(pendientes: &mut VecDeque<T>, x: T)
    ensures
        final(pendientes)@ == tras_registrar(old(pendientes)@, x),
        old(pendientes)@.len() <= MAX_PENDING ==> final(pendientes)@.len() <= MAX_PENDING,
{
    if pendientes.len() >= MAX_PENDING {
        let _ = pendientes.pop_front();
    }
    pendientes.push_back(x);
}

} // verus!
