use vstd::prelude::*;

verus! {

/// Number of bars in `a..e` that closed above their open.
pub open spec fn alcistas(o: Seq<i64>, c: Seq<i64>, a: int, e: int) -> int
    decreases e - a,
{
    if e <= a {
        0
    } else {
        alcistas(o, c, a, e - 1) + if c[e - 1] > o[e - 1] { 1int } else { 0int }
    }
}

proof fn lema_alcistas_acotadas(o: Seq<i64>, c: Seq<i64>, a: int, e: int)
    ensures
        e >= a ==> 0 <= alcistas(o, c, a, e) <= e - a,
    decreases e - a,
{
    if e > a {
        lema_alcistas_acotadas(o, c, a, e - 1);
    }
}

/// The last closed bar a window of `ventana` closed bars reaches in a series of `n` bars.
pub open spec fn fin_conteo(n: int, ventana: int) -> int {
    if n < ventana + 1 { if n > 1 { n } else { 1 } } else { ventana + 1 }
}

/// CalcularG2_Persistencia's count on the keys of the M15 opens and closes (index 0 = the
/// bar in formation): bullish and non-bullish bars among the last 10 and the last 20
/// closed bars, as `(up10, down10, up20, down20)`.
pub fn conteo_persistencia(aperturas: &[i64], cierres: &[i64]) -> (r: (i32, i32, i32, i32))
    requires
        aperturas@.len() == cierres@.len(),
    ensures
        ({
            let n = cierres@.len() as int;
            let e10 = fin_conteo(n, 10);
            let e20 = fin_conteo(n, 20);
            &&& r.0 == alcistas(aperturas@, cierres@, 1, e10)
            &&& r.1 == (e10 - 1) - alcistas(aperturas@, cierres@, 1, e10)
            &&& r.2 == alcistas(aperturas@, cierres@, 1, e20)
            &&& r.3 == (e20 - 1) - alcistas(aperturas@, cierres@, 1, e20)
        }),
{
    let n = cierres.len();
    let mut up10: i32 = 0;
    let mut down10: i32 = 0;
    let mut up20: i32 = 0;
    let mut down20: i32 = 0;
    let mut i: usize = 1;
    proof {
        lema_alcistas_acotadas(aperturas@, cierres@, 1, 1);
    }
    while i <= 20
        invariant
            n == cierres@.len() == aperturas@.len(),
            1 <= i <= 21,
            (i as int) <= fin_conteo(n as int, 20) || i == 1,
            up20 == alcistas(aperturas@, cierres@, 1, i as int),
            down20 == (i - 1) - alcistas(aperturas@, cierres@, 1, i as int),
            i <= 11 ==> up10 == up20 && down10 == down20,
            i > 11 ==> up10 == alcistas(aperturas@, cierres@, 1, 11) && down10 == 10 - alcistas(aperturas@, cierres@, 1, 11),
        ensures
            i == fin_conteo(n as int, 20),
            up20 == alcistas(aperturas@, cierres@, 1, i as int),
            down20 == (i - 1) - alcistas(aperturas@, cierres@, 1, i as int),
            i <= 11 ==> up10 == up20 && down10 == down20,
            i > 11 ==> up10 == alcistas(aperturas@, cierres@, 1, 11) && down10 == 10 - alcistas(aperturas@, cierres@, 1, 11),
        decreases 21 - i,
    {
        if i >= n {
            break;
        }
        proof {
            lema_alcistas_acotadas(aperturas@, cierres@, 1, i as int);
        }
        let up = cierres[i] > aperturas[i];
        if i <= 10 {
            if up {
                up10 = up10 + 1;
            } else {
                down10 = down10 + 1;
            }
        }
        if up {
            up20 = up20 + 1;
        } else {
            down20 = down20 + 1;
        }
        i = i + 1;
    }
    (up10, down10, up20, down20)
}

} // verus!
