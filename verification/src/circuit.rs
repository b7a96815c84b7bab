//! The fuzzy-matching circuit.
//!
//! Two feature vectors match segment-wise; the score is the number of agreeing
//! segments, and authentication requires at least 75% of them (rounded up) to
//! agree. Inside the computation network the vectors are secret-shared, so no
//! branch may depend on their values: every conditional over a segment is an
//! oblivious selection, and the threshold comparison is an oblivious
//! comparison. The functions here keep that shape.

use vstd::prelude::*;

verus! {

/// Number of feature segments in a biometric vector.
pub const FEATURE_COUNT: usize = 4;

/// Segments that must agree for authentication: ceil(0.75 * FEATURE_COUNT).
pub const MATCH_THRESHOLD: u64 = 3;

/// A quantized biometric feature vector, fixed-width by design: the wire
/// format of the computation network (one ciphertext per segment) is
/// shape-dependent and cannot vary at run time.
pub struct BioData {
    pub features: [u64; FEATURE_COUNT],
}

/// The circuit's decision: the count of matching segments, and whether that
/// count reached the threshold (1 for pass, 0 for reject; the network
/// returns booleans as 0/1 integers).
pub struct AuthResult {
    pub match_score: u64,
    pub is_authenticated: u64,
}

/// Count of positions at which the two vectors agree.
pub open spec fn spec_match_score(a: Seq<u64>, b: Seq<u64>) -> nat
    decreases a.len(),
{
    if a.len() == 0 {
        0
    } else {
        spec_match_score(a.drop_last(), b.drop_last()) + if a.last() == b.last() {
            1nat
        } else {
            0nat
        }
    }
}

/// The authentication threshold for vectors of length `n`: ceil(3n/4).
pub open spec fn spec_threshold(n: nat) -> nat {
    (3 * n + 3) / 4
}

/// Whether two vectors of equal length authenticate against each other.
pub open spec fn spec_is_authenticated(a: Seq<u64>, b: Seq<u64>) -> bool {
    spec_match_score(a, b) >= spec_threshold(a.len())
}

/// Folds every bit of `d` into bit 0: the result is 1 exactly when `d` is
/// nonzero, computed with bitwise operations alone.
pub open spec fn spec_nonzero_bit(d: u64) -> u64 {
    let a = d | (d >> 32);
    let b = a | (a >> 16);
    let c = b | (b >> 8);
    let e = c | (c >> 4);
    let f = e | (e >> 2);
    let g = f | (f >> 1);
    g & 1
}

proof fn lemma_nonzero_bit(d: u64)
    by (bit_vector)
    ensures
        spec_nonzero_bit(d) == if d == 0 {
            0u64
        } else {
            1u64
        },
{
}

/// Oblivious equality test: 1 when `x == y`, else 0. The bits of `x ^ y` are
/// folded together instead of branching on the comparison, so the code path
/// does not depend on the (secret) values.
pub fn secret_eq(x: u64, y: u64) -> (r: u64)
    ensures
        r == if x == y {
            1u64
        } else {
            0u64
        },
{
    let d: u64 = x ^ y;
    let a: u64 = d | (d >> 32);
    let b: u64 = a | (a >> 16);
    let c: u64 = b | (b >> 8);
    let e: u64 = c | (c >> 4);
    let f: u64 = e | (e >> 2);
    let g: u64 = f | (f >> 1);
    let ne: u64 = g & 1;
    proof {
        assert(ne == spec_nonzero_bit(x ^ y));
        lemma_nonzero_bit(x ^ y);
        assert((x ^ y == 0) == (x == y)) by (bit_vector);
    }
    1 - ne
}

/// Oblivious selection (multiplexer): evaluates both alternatives and picks
/// one by arithmetic over the 0/1 flag, never by a branch on it.
pub fn select(flag: u64, on_one: u64, on_zero: u64) -> (r: u64)
    requires
        flag <= 1,
    ensures
        r == if flag == 1 {
            on_one
        } else {
            on_zero
        },
{
    proof {
        assert(flag * on_one == if flag == 1 {
            on_one as int
        } else {
            0int
        }) by (nonlinear_arith)
            requires
                flag <= 1,
        ;
        assert((1 - flag) * on_zero == if flag == 1 {
            0int
        } else {
            on_zero as int
        }) by (nonlinear_arith)
            requires
                flag <= 1,
        ;
    }
    flag * on_one + (1 - flag) * on_zero
}

/// Oblivious comparison: 1 when `a >= b`, else 0, read off the sign bit of an
/// offset difference instead of a branch. Restricted to values below 2^63 so
/// the offset has headroom; scores and thresholds are far below that.
pub fn secret_ge(a: u64, b: u64) -> (r: u64)
    requires
        a < 0x8000_0000_0000_0000,
        b < 0x8000_0000_0000_0000,
    ensures
        r == if a >= b {
            1u64
        } else {
            0u64
        },
{
    let shifted: u64 = a + 0x8000_0000_0000_0000;
    let diff: u64 = shifted - b;
    proof {
        assert((((a + 0x8000_0000_0000_0000) - b) as u64) >> 63 == (if a >= b {
            1u64
        } else {
            0u64
        })) by (bit_vector)
            requires
                a < 0x8000_0000_0000_0000u64 && b < 0x8000_0000_0000_0000u64,
        ;
    }
    diff >> 63
}

/// A match score never exceeds the vector length.
pub proof fn lemma_match_score_le_len(a: Seq<u64>, b: Seq<u64>)
    ensures
        spec_match_score(a, b) <= a.len(),
    decreases a.len(),
{
    if a.len() > 0 {
        lemma_match_score_le_len(a.drop_last(), b.drop_last());
    }
}

/// The indices at which two vectors agree.
pub open spec fn spec_matching_indices(a: Seq<u64>, b: Seq<u64>) -> Set<int> {
    Set::new(|i: int| 0 <= i < a.len() && a[i] == b[i])
}

/// The match score literally counts the agreeing positions: it equals the
/// cardinality of the set of indices at which the two vectors agree.
pub proof fn lemma_match_score_counts_matching_indices(a: Seq<u64>, b: Seq<u64>)
    requires
        a.len() == b.len(),
    ensures
        spec_matching_indices(a, b).finite(),
        spec_match_score(a, b) == spec_matching_indices(a, b).len(),
    decreases a.len(),
{
    let s = spec_matching_indices(a, b);
    if a.len() == 0 {
        assert(s =~= Set::<int>::empty());
    } else {
        let n = a.len() - 1;
        let s0 = spec_matching_indices(a.drop_last(), b.drop_last());
        lemma_match_score_counts_matching_indices(a.drop_last(), b.drop_last());
        if a.last() == b.last() {
            assert(s =~= s0.insert(n));
            assert(!s0.contains(n));
        } else {
            assert(s =~= s0);
        }
    }
}

/// Segment-wise scoring: the score of two equal-length vectors is the number
/// of indices at which they agree, so it is symmetric in its arguments, and so
/// is the authentication decision.
pub proof fn lemma_match_score_symmetric(a: Seq<u64>, b: Seq<u64>)
    requires
        a.len() == b.len(),
    ensures
        spec_match_score(a, b) == spec_match_score(b, a),
        spec_is_authenticated(a, b) == spec_is_authenticated(b, a),
    decreases a.len(),
{
    if a.len() > 0 {
        lemma_match_score_symmetric(a.drop_last(), b.drop_last());
    }
}

/// Identical vectors score their full length, and always authenticate: the
/// threshold ceil(3n/4) never exceeds n.
pub proof fn lemma_identical_vectors_authenticate(a: Seq<u64>)
    ensures
        spec_match_score(a, a) == a.len(),
        spec_is_authenticated(a, a),
    decreases a.len(),
{
    if a.len() > 0 {
        lemma_identical_vectors_authenticate(a.drop_last());
    }
}

/// Vectors that disagree in every segment score zero, and (for nonempty
/// vectors) never authenticate: the threshold ceil(3n/4) is positive when n
/// is.
pub proof fn lemma_disjoint_vectors_rejected(a: Seq<u64>, b: Seq<u64>)
    requires
        a.len() == b.len(),
        a.len() > 0,
        forall|i: int| 0 <= i < a.len() ==> a[i] != b[i],
    ensures
        spec_match_score(a, b) == 0,
        !spec_is_authenticated(a, b),
{
    lemma_all_differ_scores_zero(a, b);
}

proof fn lemma_all_differ_scores_zero(a: Seq<u64>, b: Seq<u64>)
    requires
        a.len() == b.len(),
        forall|i: int| 0 <= i < a.len() ==> a[i] != b[i],
    ensures
        spec_match_score(a, b) == 0,
    decreases a.len(),
{
    if a.len() > 0 {
        assert(a[a.len() - 1] != b[a.len() - 1]);
        lemma_all_differ_scores_zero(a.drop_last(), b.drop_last());
    }
}

/// The threshold is exactly the least score at or above three quarters of the
/// length: a score equal to ceil(3n/4) reaches 75% of n, and any lower score
/// does not. So the boundary score authenticates and the one below it never
/// does.
pub proof fn lemma_threshold_is_exact_boundary(n: nat)
    ensures
        4 * spec_threshold(n) >= 3 * n,
        spec_threshold(n) >= 1 ==> 4 * (spec_threshold(n) - 1) < 3 * n,
        spec_threshold(n) <= n,
        n >= 1 ==> spec_threshold(n) >= 1,
{
}

/// Segment-wise score of two equal-length vectors, oblivious throughout: the
/// per-segment equality tests and the running accumulation branch on no
/// secret value.
pub fn match_score(a: &[u64], b: &[u64]) -> (score: u64)
    requires
        a@.len() == b@.len(),
    ensures
        score == spec_match_score(a@, b@),
        score <= a@.len(),
{
    let n: usize = a.len();
    let mut score: u64 = 0;
    for i in 0..n
        invariant
            n == a@.len(),
            a@.len() == b@.len(),
            score <= i,
            score == spec_match_score(a@.take(i as int), b@.take(i as int)),
    {
        let is_segment_match: u64 = secret_eq(a[i], b[i]);
        score = select(is_segment_match, score + 1, score);
        proof {
            assert(a@.take(i + 1).drop_last() =~= a@.take(i as int));
            assert(b@.take(i + 1).drop_last() =~= b@.take(i as int));
            assert(a@.take(i + 1).last() == a@[i as int]);
            assert(b@.take(i + 1).last() == b@[i as int]);
        }
    }
    proof {
        assert(a@.take(n as int) =~= a@);
        assert(b@.take(n as int) =~= b@);
    }
    score
}

/// Whether two equal-length vectors authenticate: their score reaches
/// ceil(0.75 * n). The comparison itself is oblivious. The length bound is a
/// machine limit (a Rust slice never exceeds it), required so the oblivious
/// comparison's sign trick has headroom.
pub fn is_authenticated(a: &[u64], b: &[u64]) -> (r: bool)
    requires
        a@.len() == b@.len(),
        a@.len() < 0x8000_0000_0000_0000,
    ensures
        r == spec_is_authenticated(a@, b@),
{
    let score: u64 = match_score(a, b);
    let n: u64 = a.len() as u64;
    let threshold: u64 = ((3 * (n as u128) + 3) / 4) as u64;
    proof {
        lemma_threshold_is_exact_boundary(a@.len() as nat);
        assert(threshold == spec_threshold(a@.len() as nat));
    }
    let passed: u64 = secret_ge(score, threshold);
    passed == 1
}

/// The circuit: compare a registered template against a fresh attempt, both
/// of the fixed circuit shape, and return the score together with the 0/1
/// threshold decision. Pure and total: malformed inputs cannot reach it, the
/// vector shape is fixed by the types.
pub fn verify_biometric(template: &BioData, attempt: &BioData) -> (r: AuthResult)
    ensures
        r.match_score == spec_match_score(template.features@, attempt.features@),
        r.is_authenticated == if spec_is_authenticated(template.features@, attempt.features@) {
            1u64
        } else {
            0u64
        },
        r.is_authenticated <= 1,
{
    let t: &[u64] = template.features.as_slice();
    let a: &[u64] = attempt.features.as_slice();
    let score: u64 = match_score(t, a);
    let passed: u64 = secret_ge(score, MATCH_THRESHOLD);
    proof {
        assert(spec_threshold(4) == 3);
    }
    AuthResult { match_score: score, is_authenticated: passed }
}

} // verus!
