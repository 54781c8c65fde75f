use musickeyfinder::harmonic_analyzer::{analyze_track, score_sequence, transition_matrix};
use musickeyfinder::tuning::{find_key_from_frame_keys, tuning_cents, KeyEstimate};
use musickeyfinder::types::Key;

#[test]
fn matrix_diagonal_is_one() {
    let m = transition_matrix();
    assert_eq!(m.len(), 24);
    let mut nonzero = 0;
    for i in 0..24 {
        assert_eq!(m[i].len(), 24);
        assert_eq!(m[i][i], 1);
        if m[i][i] != 0 {
            nonzero += 1;
        }
    }
    assert_eq!(nonzero, 24);
}

#[test]
fn matrix_major_tonic_weights() {
    let m = transition_matrix();
    // C major (0) from G major (7), G minor (19) and F major (5).
    assert_eq!(m[7][0], 5);
    assert_eq!(m[19][0], 4);
    assert_eq!(m[5][0], 2);
    assert_eq!(m[2][0], 0);
    assert_eq!(m[17][0], 0);
}

#[test]
fn matrix_minor_tonic_weights() {
    let m = transition_matrix();
    // C minor (12) from G minor (19), G major (7) and F minor (17).
    assert_eq!(m[19][12], 5);
    assert_eq!(m[7][12], 5);
    assert_eq!(m[17][12], 2);
    assert_eq!(m[5][12], 0);
}

#[test]
fn matrix_is_not_symmetric() {
    let m = transition_matrix();
    assert_eq!(m[19][12], 5);
    assert_ne!(m[12][19], 5);
    assert_eq!(m[12][19], 2);
    let mut asymmetric = false;
    for f in 0..24 {
        for t in 0..24 {
            if m[f][t] != m[t][f] {
                asymmetric = true;
            }
        }
    }
    assert!(asymmetric);
}

#[test]
fn score_single_frame() {
    assert_eq!(score_sequence(&vec![0]), (0, 1));
    assert_eq!(score_sequence(&vec![23]), (23, 1));
}

#[test]
fn score_dominant_to_tonic() {
    // G major then C major: C major scores 5, G major scores 1.
    assert_eq!(score_sequence(&vec![7, 0]), (0, 5));
}

#[test]
fn score_accumulates_over_sequence() {
    // G major, C major, C major, G minor, C minor.
    // C major: 5 + 1 = 6; C minor: 5; G major: 1; G minor: 0.
    assert_eq!(score_sequence(&vec![7, 0, 0, 19, 12]), (0, 6));
}

#[test]
fn score_ties_go_to_lowest_index() {
    // F# major scores 1 from the first frame, C major 0 + 1.
    assert_eq!(score_sequence(&vec![6, 0, 0]), (0, 1));
    // E minor scores 1 from the first frame, C major 0 + 1.
    assert_eq!(score_sequence(&vec![16, 0, 0]), (0, 1));
}

#[test]
fn analyze_empty_track() {
    assert_eq!(analyze_track(&vec![]), (None, 0));
}

#[test]
fn analyze_track_reports_camelot_key() {
    let (key, score) = analyze_track(&vec![7, 0, 0]);
    assert_eq!(key.unwrap().to_string(), "8B");
    assert_eq!(score, 6);
    let (key, score) = analyze_track(&vec![16, 21, 21]);
    // E minor is the dominant minor of A minor.
    assert_eq!(key.unwrap().to_string(), "8A");
    assert_eq!(score, 6);
}

#[test]
fn tuning_offsets_span_fifty_cents() {
    assert_eq!(tuning_cents(0), -50);
    assert_eq!(tuning_cents(5), 0);
    assert_eq!(tuning_cents(10), 50);
}

#[test]
fn sweep_with_no_frames_finds_no_key() {
    let seqs: Vec<Vec<usize>> = vec![Vec::new(); 11];
    assert_eq!(find_key_from_frame_keys(&seqs), None);
}

#[test]
fn sweep_skips_empty_candidates() {
    let mut seqs: Vec<Vec<usize>> = vec![Vec::new(); 11];
    seqs[5] = vec![7, 0];
    let estimate = find_key_from_frame_keys(&seqs).unwrap();
    assert_eq!(estimate.key.to_string(), "8B");
    assert_eq!(estimate.score, 5);
    assert_eq!(estimate.tuning_cents, 0);
}

#[test]
fn sweep_keeps_first_of_equal_scores() {
    let mut seqs: Vec<Vec<usize>> = vec![Vec::new(); 11];
    seqs[2] = vec![0, 0];
    seqs[6] = vec![21, 21];
    let estimate = find_key_from_frame_keys(&seqs).unwrap();
    assert_eq!(
        estimate,
        KeyEstimate { key: Key::new_force(8, 'B'), score: 2, tuning_cents: -30 }
    );
}

#[test]
fn sweep_takes_strictly_greater_score() {
    let mut seqs: Vec<Vec<usize>> = vec![Vec::new(); 11];
    seqs[0] = vec![0, 0];
    seqs[9] = vec![19, 12, 12];
    let estimate = find_key_from_frame_keys(&seqs).unwrap();
    assert_eq!(estimate.key.to_string(), "5A");
    assert_eq!(estimate.score, 6);
    assert_eq!(estimate.tuning_cents, 40);
}

#[test]
fn sweep_is_deterministic() {
    let seqs: Vec<Vec<usize>> = (0..11).map(|t| vec![t % 24, (t + 5) % 24, t % 24]).collect();
    let first = find_key_from_frame_keys(&seqs);
    let second = find_key_from_frame_keys(&seqs);
    assert_eq!(first, second);
    assert!(first.is_some());
}
