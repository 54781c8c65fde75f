use vstd::prelude::*;

use crate::camelot::{camelot_letter, camelot_num, key_for_index, NUM_KEYS};
use crate::types::Key;

verus! {

/// Largest number of frame keys a sequence can hold: a `Vec<usize>` of more
/// elements would exceed the address space.
pub open spec fn max_frames() -> int {
    0x1000_0000_0000_0000
}

/// Weight of the evidence that a frame classified as key `from`, followed by
/// a frame classified as key `to`, gives to global key `to`.
///
/// A key follows itself with weight one. A major tonic `r` is reached from its
/// dominant major with weight five, from its dominant minor with weight four
/// and from its subdominant major with weight two. A minor tonic is reached
/// from its dominant minor and dominant major with weight five and from its
/// subdominant minor with weight two. Every other transition weighs nothing.
pub open spec fn transition_weight(from: int, to: int) -> int {
    if from == to {
        1
    } else if to < 12 {
        if from == (to + 7) % 12 {
            5
        } else if from == (to + 7) % 12 + 12 {
            4
        } else if from == (to + 5) % 12 {
            2
        } else {
            0
        }
    } else {
        let r = to - 12;
        if from == (r + 7) % 12 + 12 {
            5
        } else if from == (r + 7) % 12 {
            5
        } else if from == (r + 5) % 12 + 12 {
            2
        } else {
            0
        }
    }
}

/// Whether every frame key is a candidate index.
pub open spec fn valid_frame_keys(keys: Seq<usize>) -> bool {
    forall|i: int| 0 <= i < keys.len() ==> keys[i] < 24
}

/// Score of global key `g` over the first `n` frame keys: one if the first
/// frame is `g`, then the weight of each later transition that lands on `g`.
pub open spec fn score_prefix(keys: Seq<usize>, g: int, n: int) -> int
    decreases n,
{
    if n <= 0 {
        0
    } else if n == 1 {
        if keys[0] == g {
            1
        } else {
            0
        }
    } else {
        score_prefix(keys, g, n - 1) + if keys[n - 1] == g {
            transition_weight(keys[n - 2] as int, keys[n - 1] as int)
        } else {
            0
        }
    }
}

/// Score of global key `g` over the whole frame-key sequence.
pub open spec fn score(keys: Seq<usize>, g: int) -> int {
    score_prefix(keys, g, keys.len() as int)
}

/// The scores of the twenty-four candidate global keys.
pub open spec fn candidate_scores(keys: Seq<usize>) -> Seq<int> {
    Seq::new(24, |g: int| score(keys, g))
}

/// Index of the first greatest value among `s[0..n]`.
pub open spec fn first_max(s: Seq<int>, n: int) -> int
    decreases n,
{
    if n <= 1 {
        0
    } else {
        let b = first_max(s, n - 1);
        if s[n - 1] > s[b] {
            n - 1
        } else {
            b
        }
    }
}

/// The winning global key of a frame-key sequence: greatest score, lowest
/// index among equals.
pub open spec fn best_index(keys: Seq<usize>) -> int {
    first_max(candidate_scores(keys), 24)
}

/// `first_max` picks a greatest value, and no earlier value equals it.
pub proof fn lemma_first_max(s: Seq<int>, n: int)
    requires
        1 <= n <= s.len(),
    ensures
        0 <= first_max(s, n) < n,
        forall|g: int| 0 <= g < n ==> #[trigger] s[g] <= s[first_max(s, n)],
        forall|g: int| 0 <= g < first_max(s, n) ==> #[trigger] s[g] < s[first_max(s, n)],
    decreases n,
{
    if n > 1 {
        lemma_first_max(s, n - 1);
    }
}

/// The pitch class a fifth above `r`.
pub open spec fn dominant(r: int) -> int {
    (r + 7) % 12
}

/// The transition matrix has weight one on its whole diagonal, and it is not
/// symmetric: a minor tonic gets weight five from its dominant minor and from
/// its dominant major, while the reverse step from a minor tonic to its
/// dominant minor does not weigh five.
pub proof fn lemma_transition_matrix_shape()
    ensures
        forall|i: int| 0 <= i < 24 ==> #[trigger] transition_weight(i, i) == 1,
        forall|r: int|
            0 <= r < 12 ==> transition_weight(#[trigger] dominant(r) + 12, r + 12) == 5
                && transition_weight(dominant(r), r + 12) == 5
                && transition_weight(r + 12, dominant(r) + 12) != 5,
{
    assert forall|r: int| 0 <= r < 12 implies transition_weight(
        r + 12,
        #[trigger] dominant(r) + 12,
    ) != 5 by {
        let t = dominant(r);
        assert((t + 7) % 12 + 12 != r + 12);
        assert((t + 7) % 12 != r + 12);
    }
}

/// The weight of one transition.
fn weight(from: usize, to: usize) -> (r: u64)
    requires
        from < NUM_KEYS,
        to < NUM_KEYS,
    ensures
        r as int == transition_weight(from as int, to as int),
        r <= 5,
{
    if from == to {
        1
    } else if to < 12 {
        if from == (to + 7) % 12 {
            5
        } else if from == (to + 7) % 12 + 12 {
            4
        } else if from == (to + 5) % 12 {
            2
        } else {
            0
        }
    } else {
        let r = to - 12;
        if from == (r + 7) % 12 + 12 {
            5
        } else if from == (r + 7) % 12 {
            5
        } else if from == (r + 5) % 12 + 12 {
            2
        } else {
            0
        }
    }
}

/// The 24 by 24 transition matrix, indexed `[from][to]`.
pub fn transition_matrix() -> (m: Vec<Vec<u64>>)
    ensures
        m@.len() == 24,
        forall|f: int| 0 <= f < 24 ==> #[trigger] m@[f]@.len() == 24,
        forall|f: int, t: int|
            0 <= f < 24 && 0 <= t < 24 ==> m@[f]@[t] as int == transition_weight(f, t),
{
    let mut m: Vec<Vec<u64>> = Vec::new();
    let mut f: usize = 0;
    while f < NUM_KEYS
        invariant
            f <= NUM_KEYS,
            m@.len() == f,
            forall|i: int| 0 <= i < f ==> #[trigger] m@[i]@.len() == 24,
            forall|i: int, t: int|
                0 <= i < f && 0 <= t < 24 ==> m@[i]@[t] as int == transition_weight(i, t),
        decreases NUM_KEYS - f,
    {
        let mut row: Vec<u64> = Vec::new();
        let mut t: usize = 0;
        while t < NUM_KEYS
            invariant
                f < NUM_KEYS,
                t <= NUM_KEYS,
                row@.len() == t,
                forall|j: int| 0 <= j < t ==> row@[j] as int == transition_weight(f as int, j),
            decreases NUM_KEYS - t,
        {
            row.push(weight(f, t));
            t = t + 1;
        }
        m.push(row);
        f = f + 1;
    }
    m
}

/// The scores of all candidate global keys, through the given matrix.
fn score_candidates(frame_keys: &Vec<usize>, matrix: &Vec<Vec<u64>>) -> (r: Vec<u64>)
    requires
        frame_keys@.len() >= 1,
        frame_keys@.len() <= max_frames(),
        valid_frame_keys(frame_keys@),
        matrix@.len() == 24,
        forall|f: int| 0 <= f < 24 ==> #[trigger] matrix@[f]@.len() == 24,
        forall|f: int, t: int|
            0 <= f < 24 && 0 <= t < 24 ==> matrix@[f]@[t] as int == transition_weight(f, t),
    ensures
        r@.map_values(|v: u64| v as int) =~= candidate_scores(frame_keys@),
{
    let n = frame_keys.len();
    let mut scores: Vec<u64> = Vec::new();
    let mut g: usize = 0;
    while g < NUM_KEYS
        invariant
            g <= NUM_KEYS,
            n == frame_keys@.len(),
            1 <= n <= max_frames(),
            valid_frame_keys(frame_keys@),
            matrix@.len() == 24,
            forall|f: int| 0 <= f < 24 ==> #[trigger] matrix@[f]@.len() == 24,
            forall|f: int, t: int|
                0 <= f < 24 && 0 <= t < 24 ==> matrix@[f]@[t] as int == transition_weight(f, t),
            scores@.len() == g,
            forall|j: int| 0 <= j < g ==> scores@[j] as int == score(frame_keys@, j),
        decreases NUM_KEYS - g,
    {
        let mut cur: u64 = if frame_keys[0] == g {
            1
        } else {
            0
        };
        let mut i: usize = 1;
        while i < n
            invariant
                1 <= i <= n,
                n == frame_keys@.len(),
                n <= max_frames(),
                g < NUM_KEYS,
                valid_frame_keys(frame_keys@),
                matrix@.len() == 24,
                forall|f: int| 0 <= f < 24 ==> #[trigger] matrix@[f]@.len() == 24,
                forall|f: int, t: int|
                    0 <= f < 24 && 0 <= t < 24 ==> matrix@[f]@[t] as int == transition_weight(
                        f,
                        t,
                    ),
                cur as int == score_prefix(frame_keys@, g as int, i as int),
                cur <= 5 * i,
            decreases n - i,
        {
            let to = frame_keys[i];
            if to == g {
                let from = frame_keys[i - 1];
                assert(frame_keys@[i - 1] < 24 && frame_keys@[i as int] < 24);
                assert(transition_weight(from as int, to as int) <= 5);
                assert(matrix@[from as int]@[to as int] <= 5);
                cur = cur + matrix[from][to];
            }
            i = i + 1;
        }
        scores.push(cur);
        g = g + 1;
    }
    scores
}

/// Index of the first greatest score.
fn first_max_index(scores: &Vec<u64>) -> (r: usize)
    requires
        scores@.len() >= 1,
    ensures
        r as int == first_max(scores@.map_values(|v: u64| v as int), scores@.len() as int),
{
    let ghost s = scores@.map_values(|v: u64| v as int);
    let mut best: usize = 0;
    let mut i: usize = 1;
    while i < scores.len()
        invariant
            1 <= i <= scores@.len(),
            s == scores@.map_values(|v: u64| v as int),
            best as int == first_max(s, i as int),
            best < i,
        decreases scores@.len() - i,
    {
        if scores[i] > scores[best] {
            best = i;
        }
        i = i + 1;
    }
    best
}

/// Scores a frame-key sequence and returns the winning global key index with
/// its raw score: the greatest score, the lowest index among equals.
pub fn score_sequence(frame_keys: &Vec<usize>) -> (r: (usize, u64))
    requires
        frame_keys@.len() >= 1,
        frame_keys@.len() <= max_frames(),
        valid_frame_keys(frame_keys@),
    ensures
        r.0 as int == best_index(frame_keys@),
        r.1 as int == score(frame_keys@, r.0 as int),
        r.0 < NUM_KEYS,
        forall|g: int| 0 <= g < 24 ==> #[trigger] score(frame_keys@, g) <= r.1,
        forall|g: int| 0 <= g < r.0 ==> #[trigger] score(frame_keys@, g) < r.1,
{
    let matrix = transition_matrix();
    let scores = score_candidates(frame_keys, &matrix);
    let best = first_max_index(&scores);
    proof {
        let s = candidate_scores(frame_keys@);
        lemma_first_max(s, 24);
        assert forall|g: int| 0 <= g < 24 implies #[trigger] score(frame_keys@, g) <= s[best as int] by {
            assert(s[g] == score(frame_keys@, g));
        }
        assert forall|g: int| 0 <= g < best implies #[trigger] score(frame_keys@, g) < s[best as int] by {
            assert(s[g] == score(frame_keys@, g));
        }
    }
    (best, scores[best])
}

/// The global key of a frame-key sequence, with its raw score; no key and a
/// score of zero for an empty sequence.
pub fn analyze_track(frame_keys: &Vec<usize>) -> (r: (Option<Key>, u64))
    requires
        frame_keys@.len() <= max_frames(),
        valid_frame_keys(frame_keys@),
    ensures
        frame_keys@.len() == 0 ==> r.0 is None && r.1 == 0,
        frame_keys@.len() > 0 ==> r.0 is Some && r.0->Some_0@ == (
            camelot_num(best_index(frame_keys@)),
            camelot_letter(best_index(frame_keys@)),
        ) && r.1 as int == score(frame_keys@, best_index(frame_keys@)),
{
    if frame_keys.len() == 0 {
        return (None, 0);
    }
    let (best, best_score) = score_sequence(frame_keys);
    (Some(key_for_index(best)), best_score)
}

} // verus!
