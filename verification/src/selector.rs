//! Prediction selection: from a raw per-class score vector to the winning
//! class label and its score.
//!
//! The model emits one IEEE-754 single-precision score per class. Floating
//! point cannot be reasoned about directly here, so a score travels through
//! this module as its 32-bit pattern, and scores are compared through
//! [`key_of`], an order-preserving embedding of IEEE-754 bit patterns into
//! unsigned integers: a NaN pattern gets the lowest key of all, and
//! otherwise all bits of a negative value are flipped, only the sign bit of
//! a non-negative one. On non-NaN scores the key order is exactly the
//! numeric order (with the one harmless exception that the key of -0.0 sits
//! just below the key of +0.0, and neither can ever win: see [`select`]),
//! and a NaN score sits below everything, so it is never selected — a
//! strictly-greater-than comparison against any accumulator is false for
//! NaN.
//!
//! Selection starts from a zero accumulator (label 0, score +0.0) and takes
//! a later class only on a strictly greater score, so the first index
//! reaching the maximum wins and a score vector with no positive score
//! yields label 0 with score +0.0.

use vstd::prelude::*;

verus! {

/// Whether `bits` is the pattern of an IEEE-754 single-precision NaN: an
/// all-ones exponent with a nonzero mantissa, of either sign.
pub open spec fn is_nan_bits(bits: u32) -> bool {
    bits & 0x7f80_0000 == 0x7f80_0000 && bits & 0x007f_ffff != 0
}

/// The order-preserving key of an IEEE-754 bit pattern: bit patterns of
/// greater non-NaN floats get greater keys, and every NaN pattern gets the
/// lowest key of all, so that a NaN score can never win a comparison — just
/// as a strict float comparison against it is never true.
pub open spec fn key_of(bits: u32) -> u32 {
    if is_nan_bits(bits) {
        0u32
    } else if bits < 0x8000_0000 {
        (bits + 0x8000_0000) as u32
    } else {
        !bits
    }
}

/// The key of +0.0 (bit pattern 0), the selector's starting accumulator:
/// only a score with a strictly greater key is ever selected.
pub open spec fn zero_key() -> u32 {
    key_of(0u32)
}

/// The key of `bits`, computed.
fn score_key(bits: u32) -> (k: u32)
    ensures
        k == key_of(bits),
{
    if bits & 0x7f80_0000 == 0x7f80_0000 && bits & 0x007f_ffff != 0 {
        0
    } else if bits < 0x8000_0000 {
        bits + 0x8000_0000
    } else {
        !bits
    }
}

/// The selected class: its label and its score's bit pattern.
#[derive(Debug, Clone, Copy, PartialEq, Eq, Structural)]
pub struct MnistPrediction {
    /// Index of the winning class in the score vector.
    pub label: u8,
    /// IEEE-754 bit pattern of the winning score; the bit pattern of +0.0
    /// when no score beats the zero accumulator.
    pub confidence_bits: u32,
}

/// What `select` returns on `scores`: if some score's key beats the key of
/// +0.0, the winner is the score with the greatest key, at the lowest index
/// reaching it; otherwise the zero accumulator is returned unchanged.
pub open spec fn selected(scores: Seq<u32>, label: int, conf_bits: u32) -> bool {
    if exists|i: int| 0 <= i < scores.len() && key_of(scores[i]) > zero_key() {
        &&& 0 <= label < scores.len()
        &&& scores[label] == conf_bits
        &&& key_of(conf_bits) > zero_key()
        &&& forall|i: int| 0 <= i < scores.len() ==> key_of(scores[i]) <= key_of(conf_bits)
        &&& forall|i: int| 0 <= i < label ==> key_of(scores[i]) < key_of(conf_bits)
    } else {
        label == 0 && conf_bits == 0u32
    }
}

/// Scan the score vector and return the winning class: the lowest index
/// whose score has the maximum key, provided that maximum beats the zero
/// accumulator; label 0 with score +0.0 otherwise (also on an empty vector).
pub fn select(scores: &Vec<u32>) -> (r: MnistPrediction)
    requires
        scores@.len() <= 256,
    ensures
        selected(scores@, r.label as int, r.confidence_bits),
{
    let mut label: usize = 0;
    let mut best_bits: u32 = 0;
    let mut best_key: u32 = score_key(0);
    let mut i: usize = 0;
    while i < scores.len()
        invariant
            scores@.len() <= 256,
            i <= scores@.len(),
            best_key == key_of(best_bits),
            best_key >= zero_key(),
            forall|j: int| 0 <= j < i ==> key_of(scores@[j]) <= best_key,
            best_key > zero_key() ==> {
                &&& label < i
                &&& scores@[label as int] == best_bits
                &&& forall|j: int| 0 <= j < label ==> key_of(scores@[j]) < best_key
            },
            best_key == zero_key() ==> best_bits == 0 && label == 0,
        decreases scores@.len() - i,
    {
        let k = score_key(scores[i]);
        if k > best_key {
            best_key = k;
            best_bits = scores[i];
            label = i;
        }
        i = i + 1;
    }
    proof {
        if best_key > zero_key() {
            assert(0 <= label < scores@.len() && key_of(scores@[label as int]) > zero_key());
        }
    }
    MnistPrediction { label: label as u8, confidence_bits: best_bits }
}

/// A score vector with a unique maximum selects exactly that index and that
/// score: if the score at `m` beats the zero accumulator and, by key order,
/// strictly beats every other score, the selected label is `m` and the
/// selected score is the score at `m`.
pub proof fn lemma_select_unique_max(scores: Seq<u32>, label: int, conf_bits: u32, m: int)
    requires
        selected(scores, label, conf_bits),
        0 <= m < scores.len(),
        key_of(scores[m]) > zero_key(),
        forall|j: int| 0 <= j < scores.len() && j != m ==> key_of(scores[j]) < key_of(scores[m]),
    ensures
        label == m,
        conf_bits == scores[m],
{
}

/// When several scores share the maximum key and that maximum beats the zero
/// accumulator, the lowest index among them is selected, carrying that
/// maximum score's key.
pub proof fn lemma_select_tie_lowest_index(scores: Seq<u32>, label: int, conf_bits: u32, m: int)
    requires
        selected(scores, label, conf_bits),
        0 <= m < scores.len(),
        key_of(scores[m]) > zero_key(),
        forall|j: int| 0 <= j < scores.len() ==> key_of(scores[j]) <= key_of(scores[m]),
    ensures
        0 <= label <= m,
        key_of(conf_bits) == key_of(scores[m]),
        forall|j: int| 0 <= j < label ==> key_of(scores[j]) < key_of(conf_bits),
{
}

/// The selected confidence is never a NaN pattern: a NaN score has the
/// lowest key of all, so it can never beat the zero accumulator, and the
/// accumulator's own +0.0 is not a NaN.
pub proof fn lemma_select_confidence_not_nan(scores: Seq<u32>, label: int, conf_bits: u32)
    requires
        selected(scores, label, conf_bits),
    ensures
        !is_nan_bits(conf_bits),
{
    assert(0u32 & 0x7f80_0000 == 0) by (bit_vector);
    if exists|i: int| 0 <= i < scores.len() && key_of(scores[i]) > zero_key() {
        assert(key_of(conf_bits) > zero_key());
    }
}

} // verus!
