use vstd::prelude::*;

use crate::components::{max_level, GameState, POINTS_PER_HIT};

verus! {

/// Index of the first `true` in `row`, or `row.len()` if there is none.
pub open spec fn first_hit(row: Seq<bool>) -> nat
    decreases row.len(),
{
    if row.len() == 0 {
        0
    } else if row[0] {
        0
    } else {
        1 + first_hit(row.drop_first())
    }
}

/// Whether `row` holds a `true` at all.
pub open spec fn has_hit(row: Seq<bool>) -> bool {
    first_hit(row) < row.len()
}

/// The (bullet, asteroid) pairs that collide in one frame, given for each
/// bullet the row of asteroids it overlaps: every bullet that overlaps some
/// asteroid, in order, with the first asteroid it overlaps.
pub open spec fn hit_pairs(hits: Seq<Seq<bool>>) -> Seq<(nat, nat)>
    decreases hits.len(),
{
    if hits.len() == 0 {
        Seq::empty()
    } else {
        let earlier = hit_pairs(hits.drop_last());
        if has_hit(hits.last()) {
            earlier.push(((hits.len() - 1) as nat, first_hit(hits.last())))
        } else {
            earlier
        }
    }
}

/// The first index whose predecessors are all `false` and which is itself
/// `true` (or the end of the row) is the first hit.
pub proof fn lemma_first_hit_at(row: Seq<bool>, j: int)
    requires
        0 <= j <= row.len(),
        forall|k: int| 0 <= k < j ==> !row[k],
        j < row.len() ==> row[j],
    ensures
        first_hit(row) == j,
    decreases j,
{
    if j > 0 {
        assert(!row[0]);
        let rest = row.drop_first();
        assert forall|k: int| 0 <= k < j - 1 implies !rest[k] by {
            assert(rest[k] == row[k + 1]);
        }
        if j - 1 < rest.len() {
            assert(rest[j - 1] == row[j]);
        }
        lemma_first_hit_at(rest, j - 1);
    }
}

/// The first hit never lies past the end of the row.
pub proof fn lemma_first_hit_bound(row: Seq<bool>)
    ensures
        first_hit(row) <= row.len(),
        has_hit(row) ==> row[first_hit(row) as int],
        forall|k: int| 0 <= k < first_hit(row) ==> !row[k],
    decreases row.len(),
{
    if row.len() > 0 && !row[0] {
        let rest = row.drop_first();
        lemma_first_hit_bound(rest);
        assert forall|k: int| 0 <= k < first_hit(row) implies !row[k] by {
            if k > 0 {
                assert(row[k] == rest[k - 1]);
            }
        }
    }
}

/// There are never more collisions than bullets, and every pair names a
/// bullet of the frame and an asteroid of that bullet's row.
pub proof fn lemma_hit_pairs_bounds(hits: Seq<Seq<bool>>)
    ensures
        hit_pairs(hits).len() <= hits.len(),
        forall|k: int|
            0 <= k < hit_pairs(hits).len() ==> {
                let (b, a) = #[trigger] hit_pairs(hits)[k];
                &&& b < hits.len()
                &&& a < hits[b as int].len()
                &&& hits[b as int][a as int]
            },
    decreases hits.len(),
{
    if hits.len() > 0 {
        let prefix = hits.drop_last();
        lemma_hit_pairs_bounds(prefix);
        lemma_first_hit_bound(hits.last());
        assert forall|k: int| 0 <= k < hit_pairs(hits).len() implies {
            let (b, a) = #[trigger] hit_pairs(hits)[k];
            &&& b < hits.len()
            &&& a < hits[b as int].len()
            &&& hits[b as int][a as int]
        } by {
            if k < hit_pairs(prefix).len() {
                assert(hit_pairs(hits)[k] == hit_pairs(prefix)[k]);
                let (b, a) = hit_pairs(prefix)[k];
                assert(hits[b as int] == prefix[b as int]);
            }
        }
    }
}

/// The pairs of a prefix of the frame are a prefix of the pairs of the frame.
pub proof fn lemma_hit_pairs_prefix(hits: Seq<Seq<bool>>, i: int)
    requires
        0 <= i <= hits.len(),
    ensures
        hit_pairs(hits.take(i)).len() <= hit_pairs(hits).len(),
    decreases hits.len() - i,
{
    if i < hits.len() {
        lemma_hit_pairs_prefix(hits, i + 1);
        assert(hits.take(i + 1).drop_last() =~= hits.take(i));
    } else {
        assert(hits.take(i) =~= hits);
    }
}

/// In one frame each bullet takes out at most one asteroid: the bullets of
/// the collision pairs come in strictly increasing order, so none is listed
/// twice; and a bullet is listed exactly when it overlaps some asteroid, with
/// the first asteroid it overlaps.
pub proof fn law_each_bullet_hits_once(hits: Seq<Seq<bool>>)
    ensures
        forall|k1: int, k2: int|
            0 <= k1 < k2 < hit_pairs(hits).len() ==> (#[trigger] hit_pairs(hits)[k1]).0
                < (#[trigger] hit_pairs(hits)[k2]).0,
        forall|b: int|
            0 <= b < hits.len() ==> (has_hit(#[trigger] hits[b]) <==> exists|k: int|
                0 <= k < hit_pairs(hits).len() && hit_pairs(hits)[k] == (
                b as nat,
                first_hit(hits[b]),
            )),
    decreases hits.len(),
{
    lemma_hit_pairs_bounds(hits);
    if hits.len() > 0 {
        let prefix = hits.drop_last();
        law_each_bullet_hits_once(prefix);
        lemma_hit_pairs_bounds(prefix);
        let p = hit_pairs(prefix);
        assert forall|k1: int, k2: int|
            0 <= k1 < k2 < hit_pairs(hits).len() implies (#[trigger] hit_pairs(hits)[k1]).0
                < (#[trigger] hit_pairs(hits)[k2]).0 by {
            assert(hit_pairs(hits)[k1] == p[k1]);
            if k2 < p.len() {
                assert(hit_pairs(hits)[k2] == p[k2]);
            }
        }
        assert forall|b: int| 0 <= b < hits.len() implies (has_hit(#[trigger] hits[b]) <==> exists|
            k: int,
        |
            0 <= k < hit_pairs(hits).len() && hit_pairs(hits)[k] == (
            b as nat,
            first_hit(hits[b]),
        )) by {
            if b < hits.len() - 1 {
                assert(hits[b] == prefix[b]);
                if has_hit(hits[b]) {
                    let k = choose|k: int|
                        0 <= k < p.len() && p[k] == (b as nat, first_hit(prefix[b]));
                    assert(hit_pairs(hits)[k] == p[k]);
                } else {
                    assert forall|k: int| 0 <= k < hit_pairs(hits).len() implies hit_pairs(hits)[k]
                        != (b as nat, first_hit(hits[b])) by {
                        if k < p.len() {
                            assert(hit_pairs(hits)[k] == p[k]);
                        }
                    }
                }
            } else {
                if has_hit(hits[b]) {
                    assert(hit_pairs(hits)[p.len() as int] == (b as nat, first_hit(hits[b])));
                } else {
                    assert forall|k: int| 0 <= k < hit_pairs(hits).len() implies hit_pairs(hits)[k]
                        != (b as nat, first_hit(hits[b])) by {
                        assert(hit_pairs(hits)[k] == p[k]);
                    }
                }
            }
        }
    }
}

/// Index of the first asteroid in `row` that the object overlaps, or the
/// length of the row if it overlaps none.
pub fn first_hit_index(row: &Vec<bool>) -> (idx: usize)
    ensures
        idx == first_hit(row@),
{
    let mut j: usize = 0;
    while j < row.len()
        invariant
            0 <= j <= row.len(),
            forall|k: int| 0 <= k < j ==> !row@[k],
        decreases row.len() - j,
    {
        if row[j] {
            proof {
                lemma_first_hit_at(row@, j as int);
            }
            return j;
        }
        j = j + 1;
    }
    proof {
        lemma_first_hit_at(row@, j as int);
    }
    j
}

/// What one frame of bullet collisions removes: `bullets[k]` and
/// `asteroids[k]` are the indices of the k-th bullet that hit and of the
/// asteroid it hit.
pub struct CollisionOutcome {
    pub bullets: Vec<usize>,
    pub asteroids: Vec<usize>,
}

/// Bullets against asteroids for one frame. `hits[b][a]` says whether
/// bullet `b` overlaps asteroid `a`. Each bullet takes out the first asteroid
/// it overlaps and is used up; every such hit scores `POINTS_PER_HIT` and may
/// raise the speed level. An asteroid overlapped by several bullets is listed
/// once for each of them, and each of those hits scores.
pub fn bullet_asteroid_collision(hits: &Vec<Vec<bool>>, game_state: &mut GameState) -> (out:
    CollisionOutcome)
    requires
        old(game_state).score + POINTS_PER_HIT * hit_pairs(hits.deep_view()).len() <= u32::MAX,
    ensures
        ({
            let pairs = hit_pairs(hits.deep_view());
            &&& out.bullets@.len() == pairs.len()
            &&& out.asteroids@.len() == pairs.len()
            &&& forall|k: int|
                0 <= k < pairs.len() ==> out.bullets@[k] == (#[trigger] pairs[k]).0
                    && out.asteroids@[k] == pairs[k].1
            &&& final(game_state).score == old(game_state).score + POINTS_PER_HIT * pairs.len()
            &&& final(game_state).speed_level == if pairs.len() == 0 {
                old(game_state).speed_level as int
            } else {
                max_level(
                    old(game_state).speed_level as int,
                    GameState::level_for(final(game_state).score as int),
                )
            }
        }),
        final(game_state).game_over == old(game_state).game_over,
        old(game_state).well_formed() ==> final(game_state).well_formed(),
{
    let ghost h = hits.deep_view();
    let ghost start = *game_state;
    let mut bullets: Vec<usize> = Vec::new();
    let mut asteroids: Vec<usize> = Vec::new();
    let mut b: usize = 0;
    proof {
        assert(h.take(0) =~= Seq::<Seq<bool>>::empty());
    }
    while b < hits.len()
        invariant
            b <= hits.len(),
            h == hits.deep_view(),
            h.len() == hits.len(),
            start == *old(game_state),
            start.score + POINTS_PER_HIT * hit_pairs(h).len() <= u32::MAX,
            bullets@.len() == hit_pairs(h.take(b as int)).len(),
            asteroids@.len() == hit_pairs(h.take(b as int)).len(),
            forall|k: int|
                0 <= k < hit_pairs(h.take(b as int)).len() ==> bullets@[k] == (#[trigger] hit_pairs(
                    h.take(b as int),
                )[k]).0 && asteroids@[k] == hit_pairs(h.take(b as int))[k].1,
            game_state.score == start.score + POINTS_PER_HIT * hit_pairs(h.take(b as int)).len(),
            game_state.speed_level == if hit_pairs(h.take(b as int)).len() == 0 {
                start.speed_level as int
            } else {
                max_level(start.speed_level as int, GameState::level_for(game_state.score as int))
            },
            game_state.game_over == start.game_over,
            start.well_formed() ==> game_state.well_formed(),
        decreases hits.len() - b,
    {
        let ghost prev = hit_pairs(h.take(b as int));
        proof {
            lemma_hit_pairs_prefix(h, b + 1);
            assert(h.take(b + 1).drop_last() =~= h.take(b as int));
            assert(h[b as int] =~= hits@[b as int]@);
            assert(h.take(b + 1).last() == h[b as int]);
        }
        let a = first_hit_index(&hits[b]);
        if a < hits[b].len() {
            bullets.push(b);
            asteroids.push(a);
            game_state.register_hit();
        }
        b = b + 1;
    }
    proof {
        assert(h.take(b as int) =~= h);
    }
    CollisionOutcome { bullets, asteroids }
}

/// The player against the asteroids for one frame. `hits[a]` says whether
/// the player overlaps asteroid `a`. The first overlapped asteroid, if any,
/// is returned (it is removed) and the run is over; the score and level are
/// left as they are.
pub fn player_asteroid_collision(hits: &Vec<bool>, game_state: &mut GameState) -> (hit: Option<
    usize,
>)
    ensures
        hit == (if has_hit(hits@) {
            Some(first_hit(hits@) as usize)
        } else {
            None
        }),
        final(game_state).game_over == (old(game_state).game_over || has_hit(hits@)),
        final(game_state).score == old(game_state).score,
        final(game_state).speed_level == old(game_state).speed_level,
        old(game_state).well_formed() ==> final(game_state).well_formed(),
{
    let a = first_hit_index(hits);
    if a < hits.len() {
        game_state.game_over = true;
        Some(a)
    } else {
        None
    }
}

/// Horizontal direction of the player's ship from the two arrow keys:
/// -1 for left, +1 for right, 0 for neither or both.
pub fn horizontal_direction(left_pressed: bool, right_pressed: bool) -> (dir: i8)
    ensures
        dir == (if right_pressed { 1int } else { 0int }) - (if left_pressed { 1int } else { 0int }),
{
    let mut dir: i8 = 0;
    if left_pressed {
        dir = dir - 1;
    }
    if right_pressed {
        dir = dir + 1;
    }
    dir
}

/// Whether the ship fires a bullet this frame: the fire key is held, the
/// cooldown since the last shot has run out and the ship is in play.
pub fn player_shoot(fire_pressed: bool, cooldown_finished: bool, player_present: bool) -> (fire:
    bool)
    ensures
        fire == (fire_pressed && cooldown_finished && player_present),
{
    if !fire_pressed || !cooldown_finished {
        return false;
    }
    player_present
}

} // verus!
