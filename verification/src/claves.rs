use vstd::prelude::*;

verus! {

// Prices reach the library as order keys: integers that compare exactly as the prices
// they stand for (`a < b` iff `clave(a) < clave(b)`, `a == b` iff `clave(a) == clave(b)`).
// The key of 0.0 is 0, positive prices have positive keys and negative prices negative
// ones. The analyses of this library only compare prices, so they work on keys and give
// keys back.

/// Order key of minus infinity: no price has a smaller key.
pub const CLAVE_MENOS_INFINITO: i64 = -0x7FF0_0000_0000_0000;

/// Order key of plus infinity: no price has a greater key.
pub const CLAVE_MAS_INFINITO: i64 = 0x7FF0_0000_0000_0000;

/// Order key of 999 999.0, the ceiling from which the second-lowest swing is searched.
pub const CLAVE_TECHO_BAJOS: i64 = 0x412E_847E_0000_0000;

/// The larger of two keys.
pub open spec fn max_clave(a: i64, b: i64) -> i64 {
    if a >= b { a } else { b }
}

/// The smaller of two keys.
pub open spec fn min_clave(a: i64, b: i64) -> i64 {
    if a <= b { a } else { b }
}

} // verus!
