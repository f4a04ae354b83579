//! Indexing of a harmonic series (harmonic `n` is 1-based, `1` is the
//! fundamental) and selection of the harmonic nearest to a frequency.
use vstd::prelude::*;

verus! {

/// Harmonic `n` of a series that tracks `harmonics` harmonics exists exactly
/// when `1 <= n <= harmonics`.
pub open spec fn is_valid_harmonic(harmonics: nat, n: nat) -> bool {
    1 <= n <= harmonics
}

/// The storage slot of harmonic `n` of a series with `harmonics` harmonics:
/// `Some(n - 1)` for a valid harmonic, `None` for `n == 0` or `n > harmonics`.
pub fn harmonic_slot(harmonics: usize, n: usize) -> (slot: Option<usize>)
    ensures
        slot is Some <==> is_valid_harmonic(harmonics as nat, n as nat),
        slot matches Some(k) ==> k + 1 == n && k < harmonics,
{
    if n == 0 || n > harmonics {
        None
    } else {
        Some(n - 1)
    }
}

/// `best` (a 1-based harmonic) is the first harmonic whose distance key is the
/// smallest of `keys`, where `keys[k]` orders the distance of harmonic `k + 1`.
/// With no keys at all the answer is the fundamental, `1`.
pub open spec fn is_first_nearest(keys: Seq<u64>, best: int) -> bool {
    if keys.len() == 0 {
        best == 1
    } else {
        &&& 1 <= best <= keys.len()
        &&& forall|k: int| 0 <= k < keys.len() ==> keys[best - 1] <= #[trigger] keys[k]
        &&& forall|k: int| 0 <= k < best - 1 ==> keys[best - 1] < #[trigger] keys[k]
    }
}

/// The nearest harmonic of a non-empty series is one of its harmonics.
pub proof fn lemma_nearest_is_valid_harmonic(keys: Seq<u64>, best: int)
    requires
        keys.len() > 0,
        is_first_nearest(keys, best),
    ensures
        is_valid_harmonic(keys.len(), best as nat),
{
}

/// Of equally near harmonics the lowest is chosen, so the nearest harmonic is
/// determined by the distance keys alone.
pub proof fn lemma_first_nearest_unique(keys: Seq<u64>, a: int, b: int)
    requires
        is_first_nearest(keys, a),
        is_first_nearest(keys, b),
    ensures
        a == b,
{
    if keys.len() > 0 {
        assert(keys[a - 1] <= keys[b - 1]);
        assert(keys[b - 1] <= keys[a - 1]);
        if a < b {
            assert(keys[b - 1] < keys[a - 1]);
        } else if b < a {
            assert(keys[a - 1] < keys[b - 1]);
        }
    }
}

/// Picks the harmonic nearest to a frequency. `keys[k]` is a key that orders
/// the distance of harmonic `k + 1` from the frequency (smaller is nearer).
/// The scan starts at the fundamental and moves to a later harmonic only when
/// it is strictly nearer, so of equally near harmonics the lowest one wins.
pub fn nearest_harmonic(keys: &Vec<u64>) -> (best: usize)
    ensures
        is_first_nearest(keys@, best as int),
{
    if keys.len() == 0 {
        return 1;
    }
    let mut best: usize = 1;
    let mut best_key: u64 = keys[0];
    let mut i: usize = 1;
    while i < keys.len()
        invariant
            1 <= i <= keys.len(),
            1 <= best <= i,
            best_key == keys@[best - 1],
            forall|k: int| 0 <= k < i ==> best_key <= #[trigger] keys@[k],
            forall|k: int| 0 <= k < best - 1 ==> best_key < #[trigger] keys@[k],
        decreases keys.len() - i,
    {
        let key = keys[i];
        if key < best_key {
            best_key = key;
            best = i + 1;
        }
        i = i + 1;
    }
    best
}

} // verus!
