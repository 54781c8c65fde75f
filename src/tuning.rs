use vstd::prelude::*;

use crate::camelot::{camelot_letter, camelot_num};
use crate::harmonic_analyzer::{
    analyze_track, best_index, max_frames, score, valid_frame_keys,
};
use crate::types::Key;

verus! {

/// Number of tuning candidates in the sweep.
pub const NUM_TUNINGS: usize = 11;

/// Offset in cents from A4 = 440 Hz of tuning candidate `t`: from -50 up to
/// +50 in steps of ten.
pub open spec fn tuning_offset(t: int) -> int {
    -50 + 10 * t
}

/// The score of the winning global key of a frame-key sequence.
pub open spec fn track_score(keys: Seq<usize>) -> int {
    score(keys, best_index(keys))
}

/// The tuning candidate chosen among the first `n`: sequences with no frames
/// are skipped, and a later candidate replaces the chosen one only with a
/// strictly greater score.
pub open spec fn best_tuning(seqs: Seq<Seq<usize>>, n: int) -> Option<int>
    decreases n,
{
    if n <= 0 {
        None
    } else {
        let prev = best_tuning(seqs, n - 1);
        if seqs[n - 1].len() == 0 {
            prev
        } else {
            match prev {
                None => Some(n - 1),
                Some(p) => if track_score(seqs[n - 1]) > track_score(seqs[p]) {
                    Some(n - 1)
                } else {
                    prev
                },
            }
        }
    }
}

/// The outcome of a tuning sweep.
#[derive(Debug, Clone, Copy, PartialEq, Eq, Structural)]
pub struct KeyEstimate {
    /// The estimated key.
    pub key: Key,
    /// Raw score of the key under the chosen tuning.
    pub score: u64,
    /// Offset in cents from A4 = 440 Hz of the chosen tuning.
    pub tuning_cents: i32,
}

/// Offset in cents of tuning candidate `index`.
pub fn tuning_cents(index: usize) -> (r: i32)
    requires
        index < NUM_TUNINGS,
    ensures
        r as int == tuning_offset(index as int),
{
    -50 + 10 * (index as i32)
}

/// Chooses the key over a tuning sweep, given the frame keys found under
/// each tuning candidate in order. `None` when no candidate has any frame.
pub fn find_key_from_frame_keys(frame_keys_per_tuning: &Vec<Vec<usize>>) -> (r: Option<
    KeyEstimate,
>)
    requires
        frame_keys_per_tuning@.len() == NUM_TUNINGS,
        forall|t: int|
            0 <= t < NUM_TUNINGS ==> valid_frame_keys(#[trigger] frame_keys_per_tuning@[t]@)
                && frame_keys_per_tuning@[t]@.len() <= max_frames(),
    ensures
        ({
            let seqs = frame_keys_per_tuning.deep_view();
            match best_tuning(seqs, NUM_TUNINGS as int) {
                None => r is None,
                Some(t) => r is Some && r->Some_0.key@ == (
                    camelot_num(best_index(seqs[t])),
                    camelot_letter(best_index(seqs[t])),
                ) && r->Some_0.score as int == track_score(seqs[t])
                    && r->Some_0.tuning_cents as int == tuning_offset(t),
            }
        }),
{
    let ghost seqs = frame_keys_per_tuning.deep_view();
    let mut best: Option<KeyEstimate> = None;
    let ghost mut best_t: int = 0;
    let mut t: usize = 0;
    while t < NUM_TUNINGS
        invariant
            t <= NUM_TUNINGS,
            seqs == frame_keys_per_tuning.deep_view(),
            frame_keys_per_tuning@.len() == NUM_TUNINGS,
            forall|u: int|
                0 <= u < NUM_TUNINGS ==> valid_frame_keys(#[trigger] frame_keys_per_tuning@[u]@)
                    && frame_keys_per_tuning@[u]@.len() <= max_frames(),
            match best_tuning(seqs, t as int) {
                None => best is None,
                Some(b) => best is Some && b == best_t && 0 <= b < t && best->Some_0.key@ == (
                    camelot_num(best_index(seqs[b])),
                    camelot_letter(best_index(seqs[b])),
                ) && best->Some_0.score as int == track_score(seqs[b])
                    && best->Some_0.tuning_cents as int == tuning_offset(b),
            },
        decreases NUM_TUNINGS - t,
    {
        let keys = &frame_keys_per_tuning[t];
        assert(seqs[t as int] == keys@);
        if keys.len() > 0 {
            let (key, key_score) = analyze_track(keys);
            match key {
                Some(k) => {
                    let better = match best {
                        None => true,
                        Some(e) => key_score > e.score,
                    };
                    if better {
                        best = Some(KeyEstimate { key: k, score: key_score, tuning_cents: tuning_cents(t) });
                        proof {
                            best_t = t as int;
                        }
                    }
                },
                None => {},
            }
        }
        t = t + 1;
    }
    best
}

} // verus!
