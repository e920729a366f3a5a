//! Nearest-hit query over a scene.
//!
//! Each sphere's intersection distance arrives as an order key: a `u64` whose
//! order is the order of the distances. Intersection distances are positive
//! (a root above the self-intersection epsilon, or the miss sentinel), and
//! positive IEEE-754 doubles order exactly as their bit patterns do, so a
//! caller holding `f64` distances passes `to_bits()` of each.

use vstd::prelude::*;

verus! {

/// Sphere `i` is hit: its key lies below the miss sentinel.
pub open spec fn is_hit(keys: Seq<u64>, no_hit: u64, i: int) -> bool {
    0 <= i < keys.len() && keys[i] < no_hit
}

/// The ray hits no sphere of the scene.
pub open spec fn misses_all(keys: Seq<u64>, no_hit: u64) -> bool {
    forall|j: int| 0 <= j < keys.len() ==> !is_hit(keys, no_hit, j)
}

/// Sphere `i` is the one the query reports: it is hit, no sphere is nearer,
/// and every sphere declared before it is strictly farther.
pub open spec fn is_nearest(keys: Seq<u64>, no_hit: u64, i: int) -> bool {
    &&& is_hit(keys, no_hit, i)
    &&& forall|j: int| 0 <= j < keys.len() ==> keys[i] <= #[trigger] keys[j]
    &&& forall|j: int| 0 <= j < i ==> keys[i] < #[trigger] keys[j]
}

/// At most one sphere is the nearest: the query's answer is determined by
/// the distances alone.
pub proof fn lemma_nearest_unique(keys: Seq<u64>, no_hit: u64, a: int, b: int)
    requires
        is_nearest(keys, no_hit, a),
        is_nearest(keys, no_hit, b),
    ensures
        a == b,
{
    if a < b {
        assert(keys[b] < keys[a]);
        assert(keys[b] <= keys[a]);
    } else if b < a {
        assert(keys[a] < keys[b]);
        assert(keys[a] <= keys[b]);
    }
}

/// Two spheres hit at the same least distance: the later declared one is
/// never reported, and the earlier one is, unless a sphere declared before
/// it ties as well.
pub proof fn lemma_tie_goes_to_earlier(keys: Seq<u64>, no_hit: u64, i: int, j: int)
    requires
        0 <= i < j < keys.len(),
        keys[i] == keys[j],
        keys[i] < no_hit,
        forall|k: int| 0 <= k < keys.len() ==> keys[i] <= #[trigger] keys[k],
    ensures
        !is_nearest(keys, no_hit, j),
        (forall|k: int| 0 <= k < i ==> keys[k] != keys[i]) ==> is_nearest(keys, no_hit, i),
{
    if (forall|k: int| 0 <= k < i ==> keys[k] != keys[i]) {
        assert forall|k: int| 0 <= k < i implies keys[i] < #[trigger] keys[k] by {
            assert(keys[i] <= keys[k]);
        }
    }
}

/// Finds the sphere that a ray meets first.
///
/// `keys[i]` is the order key of sphere `i`'s intersection distance and
/// `no_hit` that of the miss sentinel. Returns `None` when no sphere is hit;
/// otherwise the index of the nearest one, the earliest declared among equals.
pub fn nearest_hit(keys: &Vec<u64>, no_hit: u64) -> (r: Option<usize>)
    ensures
        r is None <==> misses_all(keys@, no_hit),
        r matches Some(i) ==> is_nearest(keys@, no_hit, i as int),
{
    let mut best: u64 = no_hit;
    let mut found: Option<usize> = None;
    let mut i: usize = keys.len();
    // Scanning from the last sphere to the first, a sphere replaces the best
    // so far when it is at least as near, so the earliest declared wins ties.
    while i > 0
        invariant
            i <= keys.len(),
            found is None ==> best == no_hit && forall|j: int|
                i <= j < keys.len() ==> no_hit <= #[trigger] keys[j],
            found matches Some(k) ==> {
                &&& i <= k < keys.len()
                &&& best == keys[k as int]
                &&& best < no_hit
                &&& forall|j: int| i <= j < keys.len() ==> best <= #[trigger] keys[j]
                &&& forall|j: int| i <= j < k ==> best < #[trigger] keys[j]
            },
        decreases i,
    {
        i = i - 1;
        let d = keys[i];
        if d < no_hit && d <= best {
            best = d;
            found = Some(i);
        }
    }
    if let Some(k) = found {
        assert(is_hit(keys@, no_hit, k as int));
    }
    found
}

} // verus!
