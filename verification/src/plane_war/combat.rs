//! Bullets against enemies: which enemy each bullet destroys and the points
//! it earns. An enemy dies to one hit and scores its value once.

use vstd::prelude::*;
use crate::plane_war::flow::Score;

verus! {

/// Enemy `k` is still there for this bullet: overlapped by it and not
/// already destroyed by an earlier bullet (`claimed`).
pub open spec fn free_target(row: Seq<bool>, claimed: Seq<Option<usize>>, k: int) -> bool {
    &&& 0 <= k < row.len()
    &&& row[k]
    &&& !claimed.contains(Some(k as usize))
}

/// `hit` is the first enemy (in the order of `row`) that the bullet overlaps
/// and that no earlier bullet destroyed, or `None` when there is none.
pub open spec fn is_first_free_hit(
    row: Seq<bool>,
    claimed: Seq<Option<usize>>,
    hit: Option<usize>,
) -> bool {
    match hit {
        Some(j) => {
            &&& free_target(row, claimed, j as int)
            &&& forall|k: int| 0 <= k < j ==> !#[trigger] free_target(row, claimed, k)
        },
        None => forall|k: int| 0 <= k < row.len() ==> !#[trigger] free_target(row, claimed, k),
    }
}

/// The hits of all bullets: bullet `i` destroys the first enemy it overlaps
/// among those that bullets `0..i` left standing.
pub open spec fn is_hit_assignment(overlaps: Seq<Vec<bool>>, hits: Seq<Option<usize>>) -> bool {
    &&& hits.len() == overlaps.len()
    &&& forall|i: int|
        0 <= i < overlaps.len() ==> is_first_free_hit(
            overlaps[i]@,
            hits.take(i),
            #[trigger] hits[i],
        )
}

proof fn lemma_first_free_hit_unique(
    row: Seq<bool>,
    claimed: Seq<Option<usize>>,
    h1: Option<usize>,
    h2: Option<usize>,
)
    requires
        is_first_free_hit(row, claimed, h1),
        is_first_free_hit(row, claimed, h2),
    ensures
        h1 == h2,
{
    match (h1, h2) {
        (Some(a), Some(b)) => {
            if a < b {
                assert(free_target(row, claimed, a as int));
            } else if b < a {
                assert(free_target(row, claimed, b as int));
            }
        },
        (Some(a), None) => {
            assert(free_target(row, claimed, a as int));
        },
        (None, Some(b)) => {
            assert(free_target(row, claimed, b as int));
        },
        (None, None) => {},
    }
}

proof fn lemma_hit_prefix_equal(
    overlaps: Seq<Vec<bool>>,
    a: Seq<Option<usize>>,
    b: Seq<Option<usize>>,
    i: int,
)
    requires
        is_hit_assignment(overlaps, a),
        is_hit_assignment(overlaps, b),
        0 <= i <= overlaps.len(),
    ensures
        a.take(i) == b.take(i),
    decreases i,
{
    if i > 0 {
        let p = i - 1;
        lemma_hit_prefix_equal(overlaps, a, b, p);
        assert(is_first_free_hit(overlaps[p]@, a.take(p), a[p]));
        assert(is_first_free_hit(overlaps[p]@, b.take(p), b[p]));
        lemma_first_free_hit_unique(overlaps[p]@, a.take(p), a[p], b[p]);
        assert(a.take(i) =~= a.take(p).push(a[p]));
        assert(b.take(i) =~= b.take(p).push(b[p]));
    }
}

/// The hits are determined by the overlaps: two hit assignments for the same
/// overlaps are equal.
pub proof fn lemma_hit_assignment_unique(
    overlaps: Seq<Vec<bool>>,
    a: Seq<Option<usize>>,
    b: Seq<Option<usize>>,
)
    requires
        is_hit_assignment(overlaps, a),
        is_hit_assignment(overlaps, b),
    ensures
        a == b,
{
    let n = overlaps.len() as int;
    lemma_hit_prefix_equal(overlaps, a, b, n);
    assert(a =~= a.take(n));
    assert(b =~= b.take(n));
}

/// Whether `Some(k)` occurs in `claimed`.
fn is_claimed(claimed: &Vec<Option<usize>>, k: usize) -> (r: bool)
    ensures
        r == claimed@.contains(Some(k)),
{
    let mut i: usize = 0;
    while i < claimed.len()
        invariant
            i <= claimed@.len(),
            forall|j: int| 0 <= j < i ==> claimed@[j] != Some(k),
        decreases claimed@.len() - i,
    {
        if let Some(c) = claimed[i] {
            if c == k {
                assert(claimed@[i as int] == Some(k));
                return true;
            }
        }
        i = i + 1;
    }
    false
}

/// For one bullet: the first enemy it overlaps that is not in `claimed`.
pub fn first_free_hit(row: &Vec<bool>, claimed: &Vec<Option<usize>>) -> (r: Option<usize>)
    ensures
        is_first_free_hit(row@, claimed@, r),
{
    let mut k: usize = 0;
    while k < row.len()
        invariant
            k <= row@.len(),
            forall|i: int| 0 <= i < k ==> !#[trigger] free_target(row@, claimed@, i),
        decreases row@.len() - k,
    {
        if row[k] && !is_claimed(claimed, k) {
            return Some(k);
        }
        k = k + 1;
    }
    None
}

/// For every bullet (row `i` of `overlaps`, one entry per enemy), the enemy
/// it destroys: the first one it overlaps that an earlier bullet did not
/// already destroy. No enemy is destroyed twice.
pub fn bullet_hits(overlaps: &Vec<Vec<bool>>) -> (r: Vec<Option<usize>>)
    ensures
        is_hit_assignment(overlaps@, r@),
        forall|i: int, j: int|
            0 <= i < j < r@.len() && r@[i] is Some ==> #[trigger] r@[i] != #[trigger] r@[j],
{
    let mut hits: Vec<Option<usize>> = Vec::new();
    let mut i: usize = 0;
    while i < overlaps.len()
        invariant
            i <= overlaps@.len(),
            hits@.len() == i,
            forall|j: int|
                0 <= j < i ==> is_first_free_hit(overlaps@[j]@, hits@.take(j), #[trigger] hits@[j]),
        decreases overlaps@.len() - i,
    {
        let h = first_free_hit(&overlaps[i], &hits);
        let ghost before = hits@;
        hits.push(h);
        assert(hits@.take(i as int) =~= before);
        assert forall|j: int| 0 <= j < i + 1 implies is_first_free_hit(
            overlaps@[j]@,
            hits@.take(j),
            #[trigger] hits@[j],
        ) by {
            if j < i {
                assert(hits@.take(j) =~= before.take(j));
            }
        }
        i = i + 1;
    }
    assert forall|a: int, b: int|
        0 <= a < b < hits@.len() && hits@[a] is Some implies #[trigger] hits@[a]
        != #[trigger] hits@[b] by {
        let prefix = hits@.take(b);
        assert(prefix[a] == hits@[a]);
        assert(prefix.contains(hits@[a]));
        assert(is_first_free_hit(overlaps@[b]@, prefix, hits@[b]));
    }
    hits
}

/// Points earned by the hits: each hit adds the value of the enemy it
/// destroyed.
pub open spec fn hit_points(hits: Seq<Option<usize>>, points: Seq<u32>) -> int
    decreases hits.len(),
{
    if hits.len() == 0 {
        0
    } else {
        hit_points(hits.drop_last(), points) + match hits.last() {
            Some(j) => points[j as int] as int,
            None => 0,
        }
    }
}

/// Every hit names an enemy of `points`.
pub open spec fn hits_in_range(hits: Seq<Option<usize>>, points: Seq<u32>) -> bool {
    forall|i: int|
        0 <= i < hits.len() ==> (#[trigger] hits[i] matches Some(j) ==> j < points.len())
}

proof fn lemma_hit_points_prefix(hits: Seq<Option<usize>>, points: Seq<u32>, n: int)
    requires
        0 <= n <= hits.len(),
    ensures
        0 <= hit_points(hits.take(n), points) <= hit_points(hits, points),
    decreases hits.len(),
{
    if n == hits.len() {
        assert(hits.take(n) =~= hits);
        lemma_hit_points_nonneg(hits, points);
    } else {
        lemma_hit_points_prefix(hits.drop_last(), points, n);
        assert(hits.drop_last().take(n) =~= hits.take(n));
    }
}

proof fn lemma_hit_points_nonneg(hits: Seq<Option<usize>>, points: Seq<u32>)
    ensures
        0 <= hit_points(hits, points),
    decreases hits.len(),
{
    if hits.len() > 0 {
        lemma_hit_points_nonneg(hits.drop_last(), points);
    }
}

/// Adds to the score the value of every enemy hit; `None` when the sum does
/// not fit in a `u32` (the score counter would overflow).
pub fn award_points(score: u32, hits: &Vec<Option<usize>>, points: &Vec<u32>) -> (r: Option<u32>)
    requires
        hits_in_range(hits@, points@),
    ensures
        r is None <==> score + hit_points(hits@, points@) > u32::MAX,
        r matches Some(v) ==> v == score + hit_points(hits@, points@),
{
    let mut total = score;
    let mut i: usize = 0;
    while i < hits.len()
        invariant
            i <= hits@.len(),
            hits_in_range(hits@, points@),
            total == score + hit_points(hits@.take(i as int), points@),
        decreases hits@.len() - i,
    {
        proof {
            lemma_hit_points_prefix(hits@, points@, i + 1);
            assert(hits@.take(i + 1).drop_last() =~= hits@.take(i as int));
        }
        match hits[i] {
            Some(j) => {
                match total.checked_add(points[j]) {
                    Some(t) => {
                        total = t;
                    },
                    None => {
                        return None;
                    },
                }
            },
            None => {},
        }
        i = i + 1;
    }
    proof {
        assert(hits@.take(hits@.len() as int) =~= hits@);
    }
    Some(total)
}

/// One step of bullet-against-enemy collisions (row `i` of `overlaps` has one
/// entry per enemy, in the order of `points`): the hits of `bullet_hits`,
/// each destroyed enemy once, and the score raised by the value of each
/// destroyed enemy. The score is `None` when it would overflow.
pub fn bullet_enemy_collision(score: Score, overlaps: &Vec<Vec<bool>>, points: &Vec<u32>) -> (r: (
    Vec<Option<usize>>,
    Option<Score>,
))
    requires
        forall|i: int| 0 <= i < overlaps@.len() ==> (#[trigger] overlaps@[i])@.len() == points@.len(),
    ensures
        is_hit_assignment(overlaps@, r.0@),
        forall|i: int, j: int|
            0 <= i < j < r.0@.len() && r.0@[i] is Some ==> #[trigger] r.0@[i] != #[trigger] r.0@[j],
        r.1 is None <==> score.0 + hit_points(r.0@, points@) > u32::MAX,
        r.1 matches Some(s) ==> s.0 == score.0 + hit_points(r.0@, points@),
{
    let hits = bullet_hits(overlaps);
    assert forall|i: int| 0 <= i < hits@.len() implies (#[trigger] hits@[i] matches Some(j) ==> j
        < points@.len()) by {
        assert(is_first_free_hit(overlaps@[i]@, hits@.take(i), hits@[i]));
    }
    let new_score = match award_points(score.0, &hits, points) {
        Some(total) => Some(Score(total)),
        None => None,
    };
    (hits, new_score)
}

/// The first free hit spelled out: the hit enemy is overlapped and not yet
/// destroyed, and every enemy before it (or every enemy, when there is no
/// hit) is either not overlapped or already destroyed.
pub proof fn lemma_first_free_hit_meaning(
    row: Seq<bool>,
    claimed: Seq<Option<usize>>,
    hit: Option<usize>,
)
    requires
        is_first_free_hit(row, claimed, hit),
    ensures
        hit matches Some(j) ==> j < row.len() && row[j as int] && !claimed.contains(Some(j)),
        hit matches Some(j) ==> forall|k: int|
            0 <= k < j && #[trigger] row[k] ==> claimed.contains(Some(k as usize)),
        hit is None ==> forall|k: int|
            0 <= k < row.len() && #[trigger] row[k] ==> claimed.contains(Some(k as usize)),
{
    match hit {
        Some(j) => {
            assert forall|k: int| 0 <= k < j && #[trigger] row[k] implies claimed.contains(
                Some(k as usize),
            ) by {
                assert(!free_target(row, claimed, k));
            }
        },
        None => {
            assert forall|k: int| 0 <= k < row.len() && #[trigger] row[k] implies claimed.contains(
                Some(k as usize),
            ) by {
                assert(!free_target(row, claimed, k));
            }
        },
    }
}

/// No hits earn nothing; each further hit adds the value of the enemy it
/// destroyed, a miss adds nothing.
pub proof fn lemma_hit_points_steps(hits: Seq<Option<usize>>, points: Seq<u32>, j: usize)
    ensures
        hit_points(Seq::empty(), points) == 0,
        hit_points(hits.push(Some(j)), points) == hit_points(hits, points) + points[j as int],
        hit_points(hits.push(None), points) == hit_points(hits, points),
{
    assert(hits.push(Some(j)).drop_last() =~= hits);
    assert(hits.push(None).drop_last() =~= hits);
}

} // verus!
