use vstd::prelude::*;

use crate::texto::str_eq;

verus! {

/// Base probability of each detector's hypothesis, calibrated per asset.
#[derive(Clone, Copy, Debug, PartialEq, Eq, Structural)]
pub struct ProbBase {
    pub prob_d1: i32,
    pub prob_d2: i32,
    pub prob_d3: i32,
    pub prob_d4: i32,
    pub prob_d5: i32,
}

impl ProbBase {
    /// The EURUSD reference calibration.
    pub fn new() -> (r: ProbBase)
        ensures
            r == (ProbBase { prob_d1: 65, prob_d2: 70, prob_d3: 65, prob_d4: 65, prob_d5: 75 }),
    {
        ProbBase { prob_d1: 65, prob_d2: 70, prob_d3: 65, prob_d4: 65, prob_d5: 75 }
    }

    /// The base probability for the detector named `det`.
    pub open spec fn prob_para(self, det: Seq<char>) -> i32 {
        if det == "D1"@ {
            self.prob_d1
        } else if det == "D2"@ || det == "D2_ANTICIPACION"@ {
            self.prob_d2
        } else if det == "D3"@ || det == "D3_DEF"@ {
            self.prob_d3
        } else if det == "D4"@ {
            self.prob_d4
        } else if det == "D5"@ {
            self.prob_d5
        } else {
            55
        }
    }

    /// Base probability by detector name; 55 for a name that is no detector's.
    pub fn prob_base_for(&self, det: &str) -> (r: i32)
        ensures
            r == self.prob_para(det@),
    {
        if str_eq(det, "D1") {
            self.prob_d1
        } else if str_eq(det, "D2") || str_eq(det, "D2_ANTICIPACION") {
            self.prob_d2
        } else if str_eq(det, "D3") || str_eq(det, "D3_DEF") {
            self.prob_d3
        } else if str_eq(det, "D4") {
            self.prob_d4
        } else if str_eq(det, "D5") {
            self.prob_d5
        } else {
            55
        }
    }
}

} // verus!
