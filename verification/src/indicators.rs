use vstd::prelude::*;

verus! {

/// Seconds since the broker's local midnight of Unix time `time` shifted by
/// `offset_hours` hours.
pub open spec fn segundos_del_dia(time: int, offset_hours: int) -> int {
    (time + offset_hours * 3600) % 86400
}

/// Broker-local (hour, minute) of a Unix time.
pub open spec fn hora_local(time: int, offset_hours: int) -> (int, int) {
    let s = segundos_del_dia(time, offset_hours);
    (s / 3600, (s % 3600) / 60)
}

/// Broker-local hour and minute of Unix time `time` with a fixed offset of
/// `offset_hours` hours.
pub fn local_hour_min(time: i64, offset_hours: i32) -> (r: (i32, i32))
    requires
        i64::MIN <= time + offset_hours * 3600 <= i64::MAX,
    ensures
        r.0 == hora_local(time as int, offset_hours as int).0,
        r.1 == hora_local(time as int, offset_hours as int).1,
        0 <= r.0 < 24,
        0 <= r.1 < 60,
{
    let shifted = time + (offset_hours as i64) * 3600;
    let secs = match shifted.checked_rem_euclid(86400) {
        Some(s) => s,
        None => 0,
    };
    assert(secs == segundos_del_dia(time as int, offset_hours as int));
    assert(0 <= secs < 86400);
    let h = secs / 3600;
    let m = (secs % 3600) / 60;
    assert(0 <= h < 24) by (nonlinear_arith)
        requires
            0 <= secs < 86400,
            h == secs / 3600,
    ;
    assert(0 <= m < 60) by (nonlinear_arith)
        requires
            0 <= secs,
            m == (secs % 3600) / 60,
    ;
    (h as i32, m as i32)
}

/// The broker-local clock repeats every day.
pub proof fn lema_hora_local_periodica(time: int, offset_hours: int)
    ensures
        hora_local(time + 86400, offset_hours) == hora_local(time, offset_hours),
{
    assert((time + 86400 + offset_hours * 3600) % 86400 == (time + offset_hours * 3600) % 86400) by {
        vstd::arithmetic::div_mod::lemma_mod_add_multiples_vanish(time + offset_hours * 3600, 86400);
    }
}

/// The trading session of a broker-local hour.
pub open spec fn nombre_sesion(hour: int) -> Seq<char> {
    if 0 <= hour <= 6 {
        "ASIA"@
    } else if 7 <= hour <= 12 {
        "LONDON"@
    } else if 13 <= hour <= 14 {
        "NY_OPEN"@
    } else if hour == 15 {
        "LONDON_CLOSE"@
    } else if 16 <= hour <= 20 {
        "NY"@
    } else {
        "OUT"@
    }
}

/// GetSession: the session of a broker-local hour.
pub fn session(hour: i32) -> (s: &'static str)
    ensures
        s@ == nombre_sesion(hour as int),
{
    if 0 <= hour && hour <= 6 {
        "ASIA"
    } else if 7 <= hour && hour <= 12 {
        "LONDON"
    } else if 13 <= hour && hour <= 14 {
        "NY_OPEN"
    } else if hour == 15 {
        "LONDON_CLOSE"
    } else if 16 <= hour && hour <= 20 {
        "NY"
    } else {
        "OUT"
    }
}

/// The kill zone of a broker-local time.
pub open spec fn nombre_kill_zone(hour: int, minute: int) -> Seq<char> {
    if hour == 7 || hour == 8 {
        "LONDON_OPEN_KILL"@
    } else if hour == 13 || (hour == 14 && minute <= 30) {
        "NY_OPEN_KILL"@
    } else if hour >= 13 && hour < 15 {
        "LONDON_NY_OVERLAP"@
    } else {
        "NONE"@
    }
}

/// GetKillZone: the kill zone of a broker-local hour and minute.
pub fn kill_zone(hour: i32, minute: i32) -> (s: &'static str)
    ensures
        s@ == nombre_kill_zone(hour as int, minute as int),
{
    if hour == 7 || hour == 8 {
        return "LONDON_OPEN_KILL";
    }
    if hour == 13 || (hour == 14 && minute <= 30) {
        return "NY_OPEN_KILL";
    }
    if hour >= 13 && hour < 15 {
        return "LONDON_NY_OVERLAP";
    }
    "NONE"
}

/// Distance in seconds between two times.
pub open spec fn distancia(t: i64, time: i64) -> int {
    if t - time < 0 { time - t } else { t - time }
}

/// Bar `i` lies within the tolerance and can be chosen as the nearest bar.
pub open spec fn elegible(times: Seq<i64>, time: i64, tolerancia: i64, i: int) -> bool {
    &&& 0 <= i < times.len()
    &&& distancia(times[i], time) <= tolerancia
    &&& distancia(times[i], time) < i64::MAX
}

/// The difference between bar `i`'s time and `time` can be taken without overflow.
pub open spec fn diferencia_representable(times: Seq<i64>, time: i64, i: int) -> bool {
    i64::MIN < times[i] - time <= i64::MAX
}

/// The scan of `bar_shift_by_time` from bar `i` on, with the best candidate so far.
pub open spec fn buscar_barra(times: Seq<i64>, time: i64, tolerancia: i64, i: int, mejor: int, mejor_dif: int) -> int
    decreases times.len() - i,
{
    if i >= times.len() || i < 0 {
        mejor
    } else if distancia(times[i], time) == 0 {
        i
    } else if distancia(times[i], time) < mejor_dif && distancia(times[i], time) <= tolerancia {
        buscar_barra(times, time, tolerancia, i + 1, i, distancia(times[i], time))
    } else {
        buscar_barra(times, time, tolerancia, i + 1, mejor, mejor_dif)
    }
}

/// The index `bar_shift_by_time` gives.
pub open spec fn desplazamiento(times: Seq<i64>, time: i64, tolerancia: i64) -> int {
    buscar_barra(times, time, tolerancia, 0, -1, i64::MAX as int)
}

/// Index of the bar whose time is `time`, or else of the nearest one within
/// ±`tolerancia_seg` seconds (the earliest on a tie); -1 if there is none.
pub fn bar_shift_by_time(times: &[i64], time: i64, tolerancia_seg: i64) -> (r: i32)
    requires
        times@.len() <= i32::MAX,
        forall|i: int|
            0 <= i < times@.len() && (forall|k: int| 0 <= k < i ==> times@[k] != time)
                ==> diferencia_representable(times@, time, i),
    ensures
        r == desplazamiento(times@, time, tolerancia_seg),
        (exists|i: int| 0 <= i < times@.len() && times@[i] == time) ==> {
            &&& 0 <= r < times@.len()
            &&& times@[r as int] == time
            &&& forall|k: int| 0 <= k < r ==> times@[k] != time
        },
        !(exists|i: int| 0 <= i < times@.len() && times@[i] == time) ==> {
            &&& r == -1 <==> !exists|i: int| elegible(times@, time, tolerancia_seg, i)
            &&& r != -1 ==> {
                &&& elegible(times@, time, tolerancia_seg, r as int)
                &&& forall|k: int| #[trigger]
                    elegible(times@, time, tolerancia_seg, k) ==> distancia(times@[r as int], time)
                        <= distancia(times@[k], time)
                &&& forall|k: int| 0 <= k < r && #[trigger] elegible(times@, time, tolerancia_seg, k)
                    ==> distancia(times@[r as int], time) < distancia(times@[k], time)
            }
        },
{
    let mut best_idx: i32 = -1;
    let mut best_diff: i64 = i64::MAX;
    let mut i: usize = 0;
    while i < times.len()
        invariant
            times@.len() <= i32::MAX,
            forall|i: int|
                0 <= i < times@.len() && (forall|k: int| 0 <= k < i ==> times@[k] != time)
                    ==> diferencia_representable(times@, time, i),
            0 <= i <= times@.len(),
            desplazamiento(times@, time, tolerancia_seg)
                == buscar_barra(times@, time, tolerancia_seg, i as int, best_idx as int, best_diff as int),
            forall|k: int| 0 <= k < i ==> times@[k] != time,
            best_idx == -1 ==> best_diff == i64::MAX && forall|k: int| 0 <= k < i ==> !elegible(times@, time, tolerancia_seg, k),
            best_idx != -1 ==> {
                &&& 0 <= best_idx < i
                &&& elegible(times@, time, tolerancia_seg, best_idx as int)
                &&& best_diff == distancia(times@[best_idx as int], time)
                &&& forall|k: int| 0 <= k < i && elegible(times@, time, tolerancia_seg, k) ==> best_diff <= distancia(times@[k], time)
                &&& forall|k: int| 0 <= k < best_idx && elegible(times@, time, tolerancia_seg, k) ==> best_diff < distancia(times@[k], time)
            },
        decreases times@.len() - i,
    {
        assert(diferencia_representable(times@, time, i as int));
        let d = times[i] - time;
        let diff = if d < 0 { -d } else { d };
        if diff == 0 {
            return i as i32;
        }
        if diff < best_diff && diff <= tolerancia_seg {
            best_diff = diff;
            best_idx = i as i32;
        }
        i = i + 1;
    }
    best_idx
}

/// Direction of the alignment of two series at index `i`: 1, -1 or 0.
pub open spec fn alineacion(a: Seq<i64>, b: Seq<i64>, i: int) -> int {
    if a[i] > b[i] {
        1
    } else if a[i] < b[i] {
        -1
    } else {
        0
    }
}

/// Bars from `i` up to `lim` aligned in direction `dir`, skipping unaligned bars and
/// stopping at the first bar aligned the other way.
pub open spec fn velas_alineadas(a: Seq<i64>, b: Seq<i64>, dir: int, i: int, lim: int) -> int
    decreases lim - i,
{
    if i >= lim {
        0
    } else if alineacion(a, b, i) == 0 {
        velas_alineadas(a, b, dir, i + 1, lim)
    } else if alineacion(a, b, i) != dir {
        0
    } else {
        1 + velas_alineadas(a, b, dir, i + 1, lim)
    }
}

proof fn lema_velas_alineadas_acotadas(a: Seq<i64>, b: Seq<i64>, dir: int, i: int, lim: int)
    ensures
        0 <= velas_alineadas(a, b, dir, i, lim) <= if lim - i > 0 { lim - i } else { 0 },
    decreases lim - i,
{
    if i < lim {
        lema_velas_alineadas_acotadas(a, b, dir, i + 1, lim);
    }
}

/// Length of the current trend in bars.
pub open spec fn tendencia_en_velas(a: Seq<i64>, b: Seq<i64>, max_i: int) -> int {
    if a.len() < 2 || b.len() < 2 || alineacion(a, b, 1) == 0 {
        0
    } else {
        let lim = if max_i < a.len() { max_i } else { a.len() as int };
        let lim2 = if lim < b.len() { lim } else { b.len() as int };
        velas_alineadas(a, b, alineacion(a, b, 1), 1, lim2)
    }
}

proof fn lema_velas_cortadas(a: Seq<i64>, b: Seq<i64>, dir: int, i: int, lim: int, k: int)
    requires
        dir == 1 || dir == -1,
        i <= k < lim,
        alineacion(a, b, k) == -dir,
    ensures
        velas_alineadas(a, b, dir, i, lim) == velas_alineadas(a, b, dir, i, k + 1),
        velas_alineadas(a, b, dir, i, lim) <= k - i,
    decreases k - i,
{
    if i < k {
        lema_velas_cortadas(a, b, dir, i + 1, lim, k);
    }
}

/// The trend count stops at the first bar aligned against bar 1: where some bar `k` after
/// bar 1 (within `max_i` and both series) has its EMA21 and EMA50 crossed the other way, the
/// count is at most `k - 1`, and the bars from `k` on never add to it (it equals the count
/// of a scan that ends at bar `k`).
pub proof fn lema_tendencia_se_corta(a: Seq<i64>, b: Seq<i64>, max_i: int, k: int)
    requires
        1 < k < max_i,
        k < a.len(),
        k < b.len(),
        (a[1] > b[1] && a[k] < b[k]) || (a[1] < b[1] && a[k] > b[k]),
    ensures
        0 <= tendencia_en_velas(a, b, max_i) <= k - 1,
        tendencia_en_velas(a, b, max_i) == tendencia_en_velas(a, b, k + 1),
{
    let dir = alineacion(a, b, 1);
    let lim = if max_i < a.len() { max_i } else { a.len() as int };
    let lim2 = if lim < b.len() { lim } else { b.len() as int };
    lema_velas_cortadas(a, b, dir, 1, lim2, k);
    lema_velas_alineadas_acotadas(a, b, dir, 1, lim2);
}

proof fn lema_velas_seguidas(a: Seq<i64>, b: Seq<i64>, dir: int, i: int, lim: int, m: int)
    requires
        dir == 1 || dir == -1,
        i <= m <= lim,
        forall|k: int| i <= k < m ==> #[trigger] alineacion(a, b, k) == dir,
    ensures
        velas_alineadas(a, b, dir, i, lim) >= m - i,
    decreases m - i,
{
    if i < m {
        lema_velas_seguidas(a, b, dir, i + 1, lim, m);
        assert(alineacion(a, b, i) == dir);
    } else {
        lema_velas_alineadas_acotadas(a, b, dir, i, lim);
    }
}

/// Bars aligned as bar 1 without a break all count: where bars `1..m` (within `max_i` and
/// both series) all have EMA21 above EMA50, or all below, the count is at least `m - 1`;
/// it is never more than the number of bars scanned.
pub proof fn lema_tendencia_cuenta_las_alineadas(a: Seq<i64>, b: Seq<i64>, max_i: int, m: int)
    requires
        2 <= m <= max_i,
        m <= a.len(),
        m <= b.len(),
        (forall|k: int| 1 <= k < m ==> #[trigger] a[k] > b[k]) || (forall|k: int| 1 <= k < m ==> #[trigger] a[k] < b[k]),
    ensures
        m - 1 <= tendencia_en_velas(a, b, max_i),
        tendencia_en_velas(a, b, max_i) <= (if max_i < a.len() { max_i } else { a.len() as int }) - 1,
{
    let dir = alineacion(a, b, 1);
    assert(a[1] > b[1] || a[1] < b[1]);
    let lim = if max_i < a.len() { max_i } else { a.len() as int };
    let lim2 = if lim < b.len() { lim } else { b.len() as int };
    assert forall|k: int| 1 <= k < m implies #[trigger] alineacion(a, b, k) == dir by {
        assert(a[k] > b[k] || a[k] < b[k]);
    }
    lema_velas_seguidas(a, b, dir, 1, lim2, m);
    lema_velas_alineadas_acotadas(a, b, dir, 1, lim2);
}

/// GetTrendVelas on the order keys of EMA21 and EMA50 (index 0 = the bar in formation):
/// consecutive closed bars with the two averages aligned as at bar 1.
pub fn trend_velas(ema21: &[i64], ema50: &[i64], max_i: usize) -> (r: i32)
    requires
        ema21@.len() <= i32::MAX,
    ensures
        r == tendencia_en_velas(ema21@, ema50@, max_i as int),
{
    if ema21.len() < 2 || ema50.len() < 2 {
        return 0;
    }
    let up = ema21[1] > ema50[1];
    let down = ema21[1] < ema50[1];
    if !up && !down {
        return 0;
    }
    let ghost dir = alineacion(ema21@, ema50@, 1);
    let mut lim = if max_i < ema21.len() { max_i } else { ema21.len() };
    if ema50.len() < lim {
        lim = ema50.len();
    }
    let mut count: i32 = 0;
    let mut i: usize = 1;
    if lim < 1 {
        return 0;
    }
    proof {
        lema_velas_alineadas_acotadas(ema21@, ema50@, dir, 1, lim as int);
    }
    while i < lim
        invariant
            lim <= ema21@.len(),
            lim <= ema50@.len(),
            ema21@.len() <= i32::MAX,
            1 <= i <= lim,
            dir == alineacion(ema21@, ema50@, 1),
            dir == 1 || dir == -1,
            up == (dir == 1),
            down == (dir == -1),
            0 <= count <= i,
            count + velas_alineadas(ema21@, ema50@, dir, i as int, lim as int)
                == velas_alineadas(ema21@, ema50@, dir, 1, lim as int),
        ensures
            count == velas_alineadas(ema21@, ema50@, dir, 1, lim as int),
        decreases lim - i,
    {
        let u = ema21[i] > ema50[i];
        let d = ema21[i] < ema50[i];
        if !u && !d {
            i = i + 1;
            continue;
        }
        if up && !u {
            break;
        }
        if down && !d {
            break;
        }
        count = count + 1;
        i = i + 1;
    }
    count
}

/// One step of the identifier hash: `h * 31 + v`, wrapping in 64 bits.
pub open spec fn mezclar(h: u64, v: u64) -> u64 {
    vstd::wrapping::u64_specs::wrapping_add(vstd::wrapping::u64_specs::wrapping_mul(h, 31), v)
}

/// The identifier hash folded over bytes.
pub open spec fn hash_bytes(h: u64, bytes: Seq<u8>) -> u64
    decreases bytes.len(),
{
    if bytes.len() == 0 {
        h
    } else {
        mezclar(hash_bytes(h, bytes.drop_last()), bytes.last() as u64)
    }
}

/// The signal identifier of a detection.
pub open spec fn id_senal(time: i64, detector: Seq<u8>, direction: i32, nivel_escalado: u64) -> u64 {
    mezclar(
        mezclar(hash_bytes(time as u64, detector), (direction + 2) as u64),
        nivel_escalado,
    )
}

/// BuildSignalId: a 64-bit wrapping hash of the bar time, the detector name, the
/// direction and the signal level, the level given already rounded to the symbol's
/// digits and scaled by 100 000 (`nivel_escalado`).
pub fn build_signal_id(time: i64, detector: &str, direction: i32, nivel_escalado: u64) -> (r: u64)
    requires
        direction + 2 <= i32::MAX,
    ensures
        r == id_senal(time, vstd::string::StringSliceAdditionalSpecFns::spec_bytes(detector), direction, nivel_escalado),
{
    let bytes = detector.as_bytes();
    let mut hash: u64 = time as u64;
    let mut i: usize = 0;
    while i < bytes.len()
        invariant
            0 <= i <= bytes@.len(),
            bytes@ == vstd::string::StringSliceAdditionalSpecFns::spec_bytes(detector),
            hash == hash_bytes(time as u64, bytes@.subrange(0, i as int)),
        decreases bytes@.len() - i,
    {
        assert(bytes@.subrange(0, i as int + 1).drop_last() =~= bytes@.subrange(0, i as int));
        hash = hash.wrapping_mul(31).wrapping_add(bytes[i] as u64);
        i = i + 1;
    }
    assert(bytes@.subrange(0, bytes@.len() as int) =~= bytes@);
    hash = hash.wrapping_mul(31).wrapping_add((direction + 2) as u64);
    hash = hash.wrapping_mul(31).wrapping_add(nivel_escalado);
    hash
}

/// Slot of the ring buffer holding the value `ago` places before the most recent one,
/// which sits at `head`.
pub open spec fn pos_anillo(head: int, ago: int) -> int {
    (head + 20 - ago) % 20
}

/// The value `ago` places before the most recent one (at `head`) in a ring buffer of 20.
pub fn atr_history_at<V: Copy>(history: &[V; 20], head: usize, ago: usize) -> (r: V)
    requires
        ago <= head + 20,
        head + 20 <= usize::MAX,
    ensures
        r == history@[pos_anillo(head as int, ago as int)],
{
    history[(head + 20 - ago) % 20]
}

/// Moves the head of the ring buffer one slot on and stores the newest value there.
pub fn update_atr_history<V: Copy>(history: &mut [V; 20], head: &mut usize, valor: V)
    requires
        *old(head) < 20,
    ensures
        *final(head) == (*old(head) + 1) % 20,
        final(history)@ == old(history)@.update(*final(head) as int, valor),
{
    let h = (*head + 1) % 20;
    *head = h;
    history[h] = valor;
}

/// After a push the newest value is 0 places back and every older value moves one place
/// further back, up to the capacity of the ring.
pub proof fn lema_anillo<V>(antes: Seq<V>, despues: Seq<V>, head: int, nuevo_head: int, valor: V)
    requires
        antes.len() == 20,
        0 <= head < 20,
        nuevo_head == (head + 1) % 20,
        despues == antes.update(nuevo_head, valor),
    ensures
        despues[pos_anillo(nuevo_head, 0)] == valor,
        forall|k: int| 0 <= k < 19 ==> despues[#[trigger] pos_anillo(nuevo_head, k + 1)] == antes[pos_anillo(head, k)],
{
    assert forall|k: int| 0 <= k < 19 implies despues[#[trigger] pos_anillo(nuevo_head, k + 1)] == antes[pos_anillo(head, k)] by {
        assert(pos_anillo(nuevo_head, k + 1) == pos_anillo(head, k));
        assert(pos_anillo(nuevo_head, k + 1) != nuevo_head);
    }
}

} // verus!
