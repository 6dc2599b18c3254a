use vstd::prelude::*;

use crate::structure::{detect_mss_h4, mss_mas_reciente};
use crate::types::Tendencia;

verus! {

/// The bar times at which the engine last refreshed its per-bar gauges and its H1
/// structure.
pub struct Relojes {
    pub last_g_calc_bar: i64,
    pub estructura_timestamp: i64,
    pub last_struct_update: i64,
}

/// Which caches a pass of the engine has to rebuild.
#[derive(Clone, Copy, Debug, PartialEq, Eq, Structural)]
pub struct Refresco {
    pub gauges: bool,
    pub estructura: bool,
}

/// One pass of the engine's refresh plan.
pub open spec fn plan(antes: Relojes, despues: Relojes, r: Refresco, current_bar: i64, h1_time: Option<i64>) -> bool {
    let h1 = match h1_time {
        Some(t) => t,
        None => current_bar,
    };
    &&& r.gauges == (current_bar != antes.last_g_calc_bar)
    &&& despues.last_g_calc_bar == current_bar
    &&& r.estructura == (h1 != antes.last_struct_update || antes.estructura_timestamp == 0)
    &&& r.estructura ==> despues.last_struct_update == h1 && despues.estructura_timestamp == current_bar
    &&& !r.estructura ==> despues.last_struct_update == antes.last_struct_update
        && despues.estructura_timestamp == antes.estructura_timestamp
}

impl Relojes {
    pub fn new() -> (r: Relojes)
        ensures
            r.last_g_calc_bar == 0,
            r.estructura_timestamp == 0,
            r.last_struct_update == 0,
    {
        Relojes { last_g_calc_bar: 0, estructura_timestamp: 0, last_struct_update: 0 }
    }

    /// The engine's per-pass plan: the gauges are rebuilt when a new M15 bar opens, the
    /// structure when a new H1 bar opens (the M15 bar standing for a missing H1 series)
    /// or when it was never built.
    pub fn planificar(&mut self, current_bar: i64, h1_time: Option<i64>) -> (r: Refresco)
        ensures
            plan(*old(self), *final(self), r, current_bar, h1_time),
    {
        let gauges = current_bar != self.last_g_calc_bar;
        if gauges {
            self.last_g_calc_bar = current_bar;
        }
        let h1 = match h1_time {
            Some(t) => t,
            None => current_bar,
        };
        let estructura = h1 != self.last_struct_update || self.estructura_timestamp == 0;
        if estructura {
            self.last_struct_update = h1;
            self.estructura_timestamp = current_bar;
        }
        Refresco { gauges, estructura }
    }
}

/// A second pass on the same bars asks for no refresh, unless the current M15 bar time is
/// 0, which keeps the structure from ever counting as built.
pub proof fn lema_plan_idempotente(
    r0: Relojes,
    r1: Relojes,
    r2: Relojes,
    p1: Refresco,
    p2: Refresco,
    current_bar: i64,
    h1_time: Option<i64>,
)
    requires
        plan(r0, r1, p1, current_bar, h1_time),
        plan(r1, r2, p2, current_bar, h1_time),
        current_bar != 0,
    ensures
        !p2.gauges,
        !p2.estructura,
{
}

/// The last market structure shift found on H4, valid for one H4 bar.
pub struct CacheMss {
    pub valido: bool,
    pub time: i64,
    pub resultado: (i32, Tendencia, i64),
}

/// One query of the shift cache at H4 bar time `h4_time` on the given H4 keys.
pub open spec fn consulta_mss(
    antes: CacheMss,
    despues: CacheMss,
    r: Option<(i32, Tendencia, i64)>,
    h4_time: Option<i64>,
    altos: Seq<i64>,
    bajos: Seq<i64>,
    cierres: Seq<i64>,
    lookback: int,
) -> bool {
    let t = match h4_time {
        Some(t) => t,
        None => 0,
    };
    if antes.valido && antes.time == t {
        &&& r == Some(antes.resultado)
        &&& despues.valido == antes.valido
        &&& despues.time == antes.time
        &&& despues.resultado == antes.resultado
    } else {
        &&& r == mss_mas_reciente(altos, bajos, cierres, lookback)
        &&& despues.valido == r is Some
        &&& r matches Some(v) ==> despues.time == t && despues.resultado == v
    }
}

/// Within one H4 bar a shift, once found, is the answer of every later query.
pub proof fn lema_mss_estable(
    c0: CacheMss,
    c1: CacheMss,
    c2: CacheMss,
    r1: Option<(i32, Tendencia, i64)>,
    r2: Option<(i32, Tendencia, i64)>,
    t: Option<i64>,
    a1: Seq<i64>,
    b1: Seq<i64>,
    k1: Seq<i64>,
    a2: Seq<i64>,
    b2: Seq<i64>,
    k2: Seq<i64>,
    lookback: int,
)
    requires
        consulta_mss(c0, c1, r1, t, a1, b1, k1, lookback),
        consulta_mss(c1, c2, r2, t, a2, b2, k2, lookback),
        r1 is Some,
    ensures
        r2 == r1,
{
}

impl CacheMss {
    pub fn new() -> (r: CacheMss)
        ensures
            !r.valido,
            r.time == 0,
            r.resultado == (0i32, Tendencia::Neutro, 0i64),
    {
        CacheMss { valido: false, time: 0, resultado: (0, Tendencia::Neutro, 0) }
    }

    /// Drops the cached shift once the H4 bar it belongs to is no longer the current one.
    pub fn invalidar_si_cambia(&mut self, current_h4: i64)
        ensures
            final(self).valido == (old(self).valido && old(self).time == current_h4),
            final(self).time == old(self).time,
            final(self).resultado == old(self).resultado,
    {
        if self.time != current_h4 {
            self.valido = false;
        }
    }

    /// DetectMSS_H4 through the cache: the cached shift while the H4 bar in formation is
    /// the one it was found on, else a fresh detection, which is cached when it finds one.
    pub fn detect_mss_cached(
        &mut self,
        h4_time: Option<i64>,
        altos: &[i64],
        bajos: &[i64],
        cierres: &[i64],
        lookback: usize,
    ) -> (r: Option<(i32, Tendencia, i64)>)
        requires
            altos@.len() == bajos@.len() == cierres@.len(),
        ensures
            consulta_mss(*old(self), *final(self), r, h4_time, altos@, bajos@, cierres@, lookback as int),
    {
        let t = match h4_time {
            Some(t) => t,
            None => 0,
        };
        if self.valido && self.time == t {
            return Some(self.resultado);
        }
        let r = detect_mss_h4(altos, bajos, cierres, lookback);
        match r {
            Some(v) => {
                self.valido = true;
                self.time = t;
                self.resultado = v;
            },
            None => {
                self.valido = false;
            },
        }
        r
    }
}

/// The last volume ratio computed, with the bar time, shift and window it belongs to.
pub struct CacheVolumen<V> {
    pub time: i64,
    pub shift: i32,
    pub n: i32,
    pub valor: V,
}

impl<V: Copy> CacheVolumen<V> {
    /// An empty cache; the value is the one reported for an empty window.
    pub fn new(inicial: V) -> (r: CacheVolumen<V>)
        ensures
            r.time == 0,
            r.shift == -1,
            r.n == -1,
            r.valor == inicial,
    {
        CacheVolumen { time: 0, shift: -1, n: -1, valor: inicial }
    }

    /// The cached ratio, when it was computed for this bar time, shift and window.
    pub fn consultar(&self, time: i64, shift: i32, n: i32) -> (r: Option<V>)
        ensures
            r == if self.time == time && self.shift == shift && self.n == n {
                Some(self.valor)
            } else {
                None
            },
    {
        if self.time == time && self.shift == shift && self.n == n {
            Some(self.valor)
        } else {
            None
        }
    }

    /// Keeps a freshly computed ratio.
    pub fn guardar(&mut self, time: i64, shift: i32, n: i32, valor: V)
        ensures
            final(self).time == time,
            final(self).shift == shift,
            final(self).n == n,
            final(self).valor == valor,
    {
        self.time = time;
        self.shift = shift;
        self.n = n;
        self.valor = valor;
    }
}

} // verus!
