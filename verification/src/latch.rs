use vstd::prelude::*;

use crate::types::{lema_latch_inyectivo, Detector};

verus! {

/// The latch of one detector: whether it fired, on which bar and in which direction.
///
/// A slot only ever holds the pattern of its own detector, so the pattern it fired on is
/// told apart by the direction alone.
#[derive(Clone, Copy, Debug, PartialEq, Eq, Structural)]
pub struct Latch {
    pub last_bar: i64,
    pub direction: i32,
    pub fired: bool,
}

/// One latch per detector that has one; keeps a detector from firing twice in the same
/// direction on the same bar.
pub struct Latches {
    ranuras: [Latch; 6],
}

impl View for Latches {
    type V = Seq<Latch>;

    closed spec fn view(&self) -> Seq<Latch> {
        self.ranuras@
    }
}

/// Detector `det` already fired in direction `direction` on bar `current_bar`.
pub open spec fn disparado(ls: Seq<Latch>, det: Detector, direction: i32, current_bar: i64) -> bool {
    match det.indice_latch() {
        None => false,
        Some(i) => ls[i as int].last_bar == current_bar && ls[i as int].fired && ls[i as int].direction == direction,
    }
}

/// The latches after detector `det` fires in direction `direction` on bar `current_bar`.
pub open spec fn marcar(ls: Seq<Latch>, det: Detector, direction: i32, current_bar: i64) -> Seq<Latch> {
    match det.indice_latch() {
        None => ls,
        Some(i) => ls.update(i as int, Latch { last_bar: current_bar, direction, fired: true }),
    }
}

impl Latches {
    /// All latches unfired.
    pub fn new() -> (r: Latches)
        ensures
            r@.len() == 6,
            forall|i: int| 0 <= i < 6 ==> !#[trigger] r@[i].fired,
    {
        let v = Latch { last_bar: 0, direction: 0, fired: false };
        Latches { ranuras: [v, v, v, v, v, v] }
    }

    /// Detector `det` already fired in `direction` on `current_bar`.
    pub fn latch_fired(&self, det: Detector, direction: i32, current_bar: i64) -> (r: bool)
        requires
            self@.len() == 6,
        ensures
            r == disparado(self@, det, direction, current_bar),
    {
        let idx = match det.latch_index() {
            Some(i) => i,
            None => {
                return false;
            },
        };
        proof {
            lema_latch_inyectivo(det, det);
        }
        let l = self.ranuras[idx];
        if l.last_bar != current_bar {
            return false;
        }
        l.fired && l.direction == direction
    }

    /// Records that detector `det` fired in `direction` on `current_bar`.
    pub fn mark_latch(&mut self, det: Detector, direction: i32, current_bar: i64)
        requires
            old(self)@.len() == 6,
        ensures
            final(self)@ == marcar(old(self)@, det, direction, current_bar),
            final(self)@.len() == 6,
    {
        let idx = match det.latch_index() {
            Some(i) => i,
            None => {
                return;
            },
        };
        proof {
            lema_latch_inyectivo(det, det);
        }
        self.ranuras[idx] = Latch { last_bar: current_bar, direction, fired: true };
    }
}

/// After detector `det` fires on a bar, it counts as fired there in that direction (if it
/// has a latch), and the latches of the other detectors are as they were.
pub proof fn lema_marcar_y_consultar(ls: Seq<Latch>, det: Detector, direction: i32, bar: i64, otro: Detector, d2: i32, b2: i64)
    requires
        ls.len() == 6,
    ensures
        disparado(marcar(ls, det, direction, bar), det, direction, bar) <==> det.indice_latch() is Some,
        otro != det ==> disparado(marcar(ls, det, direction, bar), otro, d2, b2) == disparado(ls, otro, d2, b2),
        b2 != bar ==> !disparado(marcar(ls, det, direction, bar), det, d2, b2),
{
    lema_latch_inyectivo(det, otro);
    lema_latch_inyectivo(otro, det);
}

} // verus!
