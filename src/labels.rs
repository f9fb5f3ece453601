//! Choosing a label from a model's output vector.
//!
//! The inference engine produces 32-bit IEEE-754 scores. The library receives
//! them as their bit patterns and orders them through `score_key`: for two
//! scores that are not NaN, the float order is the order of their keys, and
//! `+0.0` and `-0.0` share the key 0.
use vstd::prelude::*;

use crate::error::ModelError;

verus! {

/// Bit pattern of the score `1.0`.
pub const ONE_BITS: u32 = 0x3F80_0000;

/// Bit pattern of the score `+0.0`.
pub const ZERO_BITS: u32 = 0;

/// Largest magnitude (sign bit cleared) that is not a NaN: that of infinity.
pub const INFINITY_MAGNITUDE: u32 = 0x7F80_0000;

/// Sign bit of a 32-bit float.
pub const SIGN_BIT: u32 = 0x8000_0000;

/// Magnitude part of a score's bit pattern.
pub open spec fn magnitude(bits: u32) -> int {
    if bits >= SIGN_BIT {
        bits - SIGN_BIT
    } else {
        bits as int
    }
}

/// Whether the bit pattern is a NaN.
pub open spec fn is_nan(bits: u32) -> bool {
    magnitude(bits) > INFINITY_MAGNITUDE
}

/// Sign-magnitude reading of a bit pattern, which orders non-NaN floats.
pub open spec fn score_key(bits: u32) -> int {
    if bits >= SIGN_BIT {
        -magnitude(bits)
    } else {
        bits as int
    }
}

/// A score that lies in `[0.0, 1.0]`.
pub open spec fn is_unit(bits: u32) -> bool {
    !is_nan(bits) && 0 <= score_key(bits) <= score_key(ONE_BITS)
}

/// The score clamped into `[0.0, 1.0]`; both zeros become `+0.0`.
pub open spec fn clamp_unit(bits: u32) -> u32 {
    if score_key(bits) <= 0 {
        ZERO_BITS
    } else if score_key(bits) > score_key(ONE_BITS) {
        ONE_BITS
    } else {
        bits
    }
}

/// `i` is the first position of a largest score of `scores`.
pub open spec fn is_first_max(scores: Seq<u32>, i: int) -> bool {
    &&& 0 <= i < scores.len()
    &&& forall|j: int| 0 <= j < scores.len() ==> score_key(#[trigger] scores[j]) <= score_key(scores[i])
    &&& forall|j: int| 0 <= j < i ==> score_key(#[trigger] scores[j]) < score_key(scores[i])
}

/// Label of output position `i`, or `unknown` past the end of the list.
pub open spec fn label_at(labels: Seq<String>, i: int) -> Seq<char> {
    if 0 <= i < labels.len() {
        labels[i]@
    } else {
        UNKNOWN_LABEL@
    }
}

/// Label given to an output position that the label list does not name.
pub const UNKNOWN_LABEL: &'static str = "unknown";

/// What one image was classified as.
#[derive(Debug)]
pub struct Prediction {
    /// Position of the chosen output.
    pub index: usize,
    /// Label of that position.
    pub label: String,
    /// Its score clamped into `[0.0, 1.0]`, as a bit pattern.
    pub confidence_bits: u32,
}

fn score_key_exec(bits: u32) -> (r: i64)
    ensures
        r == score_key(bits),
{
    if bits >= SIGN_BIT {
        -((bits - SIGN_BIT) as i64)
    } else {
        bits as i64
    }
}

/// Picks the first largest score and maps its position through `labels`.
///
/// An empty output, or one holding a NaN, is a `Processing` error.
pub fn select_label(scores: &Vec<u32>, labels: &Vec<String>) -> (r: Result<Prediction, ModelError>)
    ensures
        (scores@.len() == 0 || exists|j: int| 0 <= j < scores@.len() && is_nan(#[trigger] scores@[j]))
            <==> r is Err,
        r is Err ==> r->Err_0 is Processing,
        r matches Ok(p) ==> {
            &&& is_first_max(scores@, p.index as int)
            &&& p.label@ == label_at(labels@, p.index as int)
            &&& p.confidence_bits == clamp_unit(scores@[p.index as int])
            &&& is_unit(p.confidence_bits)
        },
{
    if scores.len() == 0 {
        return Err(ModelError::Processing(String::from_str("model produced no output")));
    }
    let mut best: usize = 0;
    let mut i: usize = 0;
    while i < scores.len()
        invariant
            0 < scores@.len(),
            i <= scores@.len(),
            best < scores@.len(),
            best <= i || (i == 0 && best == 0),
            forall|j: int| 0 <= j < i ==> !is_nan(#[trigger] scores@[j]),
            i > 0 ==> forall|j: int| 0 <= j < i ==> score_key(#[trigger] scores@[j]) <= score_key(scores@[best as int]),
            i > 0 ==> best < i,
            forall|j: int| 0 <= j < best ==> score_key(#[trigger] scores@[j]) < score_key(scores@[best as int]),
        decreases scores@.len() - i,
    {
        let s = scores[i];
        let m = if s >= SIGN_BIT { s - SIGN_BIT } else { s };
        if m > INFINITY_MAGNITUDE {
            return Err(ModelError::Processing(String::from_str("model output holds a NaN")));
        }
        if score_key_exec(s) > score_key_exec(scores[best]) {
            best = i;
        }
        i = i + 1;
    }
    let label = if best < labels.len() {
        labels[best].clone()
    } else {
        String::from_str(UNKNOWN_LABEL)
    };
    let raw = scores[best];
    let confidence_bits = if score_key_exec(raw) <= 0 {
        ZERO_BITS
    } else if score_key_exec(raw) > score_key_exec(ONE_BITS) {
        ONE_BITS
    } else {
        raw
    };
    Ok(Prediction { index: best, label, confidence_bits })
}

} // verus!
