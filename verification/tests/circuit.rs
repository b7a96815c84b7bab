use arcbio::circuit::is_authenticated;
use arcbio::circuit::match_score;
use arcbio::circuit::secret_eq;
use arcbio::circuit::secret_ge;
use arcbio::circuit::select;
use arcbio::circuit::verify_biometric;
use arcbio::circuit::AuthResult;
use arcbio::circuit::BioData;

fn count_matches(a: &[u64], b: &[u64]) -> u64 {
    let mut n = 0;
    for i in 0..a.len() {
        if a[i] == b[i] {
            n += 1;
        }
    }
    n
}

#[test]
fn three_of_four_matching_segments_authenticate() {
    let template = BioData { features: [1, 2, 3, 4] };
    let attempt = BioData { features: [1, 2, 3, 9] };
    let r: AuthResult = verify_biometric(&template, &attempt);
    assert_eq!(r.match_score, 3);
    assert_eq!(r.is_authenticated, 1);
}

#[test]
fn two_of_four_matching_segments_are_rejected() {
    let template = BioData { features: [1, 2, 3, 4] };
    let attempt = BioData { features: [9, 9, 3, 4] };
    let r = verify_biometric(&template, &attempt);
    assert_eq!(r.match_score, 2);
    assert_eq!(r.is_authenticated, 0);
}

#[test]
fn identical_vectors_score_full_length_and_authenticate() {
    let template = BioData { features: [7, 0, u64::MAX, 42] };
    let r = verify_biometric(&template, &BioData { features: [7, 0, u64::MAX, 42] });
    assert_eq!(r.match_score, 4);
    assert_eq!(r.is_authenticated, 1);
}

#[test]
fn fully_different_vectors_score_zero_and_are_rejected() {
    let template = BioData { features: [1, 2, 3, 4] };
    let attempt = BioData { features: [5, 6, 7, 8] };
    let r = verify_biometric(&template, &attempt);
    assert_eq!(r.match_score, 0);
    assert_eq!(r.is_authenticated, 0);
}

#[test]
fn threshold_boundary_is_exact() {
    // Threshold for four segments is ceil(0.75 * 4) = 3: a score exactly at
    // the threshold authenticates, one below does not.
    let at = verify_biometric(
        &BioData { features: [10, 20, 30, 40] },
        &BioData { features: [10, 20, 30, 0] },
    );
    assert_eq!(at.match_score, 3);
    assert_eq!(at.is_authenticated, 1);

    let below = verify_biometric(
        &BioData { features: [10, 20, 30, 40] },
        &BioData { features: [10, 20, 0, 0] },
    );
    assert_eq!(below.match_score, 2);
    assert_eq!(below.is_authenticated, 0);
}

#[test]
fn match_score_counts_agreeing_positions_and_is_symmetric() {
    let samples: [([u64; 4], [u64; 4]); 4] = [
        ([1, 2, 3, 4], [1, 2, 3, 9]),
        ([0, 0, 0, 0], [0, 1, 0, 1]),
        ([u64::MAX, 5, 6, 7], [u64::MAX, 5, 9, 7]),
        ([8, 8, 8, 8], [8, 8, 8, 8]),
    ];
    for (a, b) in samples.iter() {
        let forward = match_score(a, b);
        let backward = match_score(b, a);
        assert_eq!(forward, count_matches(a, b));
        assert_eq!(forward, backward);
        assert_eq!(is_authenticated(a, b), forward >= 3);
        assert_eq!(is_authenticated(a, b), is_authenticated(b, a));
    }
}

#[test]
fn minimal_single_segment_variant() {
    // With one segment the threshold is ceil(0.75 * 1) = 1: only the exact
    // match authenticates.
    assert!(is_authenticated(&[5], &[5]));
    assert!(!is_authenticated(&[5], &[6]));
    assert_eq!(match_score(&[5], &[5]), 1);
    assert_eq!(match_score(&[5], &[6]), 0);
}

#[test]
fn empty_and_longer_vectors() {
    assert_eq!(match_score(&[], &[]), 0);
    let a: Vec<u64> = (0..100).collect();
    let mut b = a.clone();
    b[10] = 1000;
    b[20] = 2000;
    assert_eq!(match_score(&a, &b), 98);
    // Threshold for 100 segments is 75.
    assert!(is_authenticated(&a, &b));
    let c: Vec<u64> = (1000..1100).collect();
    assert!(!is_authenticated(&a, &c));
}

#[test]
fn oblivious_primitives_behave_like_their_plain_forms() {
    assert_eq!(secret_eq(5, 5), 1);
    assert_eq!(secret_eq(5, 6), 0);
    assert_eq!(secret_eq(0, u64::MAX), 0);
    assert_eq!(secret_eq(u64::MAX, u64::MAX), 1);

    assert_eq!(select(1, 10, 20), 10);
    assert_eq!(select(0, 10, 20), 20);

    assert_eq!(secret_ge(3, 3), 1);
    assert_eq!(secret_ge(4, 3), 1);
    assert_eq!(secret_ge(2, 3), 0);
    assert_eq!(secret_ge(0, 0), 1);
}
