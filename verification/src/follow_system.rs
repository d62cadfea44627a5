use vstd::prelude::*;
use crate::component::{Follow, Position};
use crate::world::World;

verus! {

/// One follower update: if entity `i` has `Follow`, its target resolves to an
/// entity with a position, the follower has a position of its own, and the
/// target position plus offset fits the world's integer range, then the
/// follower's position becomes `target + offset`; otherwise it is unchanged.
pub open spec fn spec_follow_one(
    positions: Seq<Option<Position>>,
    follows: Seq<Option<Follow>>,
    i: int,
) -> Seq<Option<Position>> {
    if follows[i] is Some {
        let f = follows[i]->Some_0;
        if 0 <= f.target < positions.len() && positions[f.target as int] is Some && positions[i]
            is Some {
            let tp = positions[f.target as int]->Some_0;
            let nx = tp.x + f.offset_x;
            let ny = tp.y + f.offset_y;
            if i32::MIN <= nx <= i32::MAX && i32::MIN <= ny <= i32::MAX {
                positions.update(i, Some(Position { x: nx as i32, y: ny as i32 }))
            } else {
                positions
            }
        } else {
            positions
        }
    } else {
        positions
    }
}

/// The positions after the followers with index below `n` have run, in index
/// order: a follower processed later sees the updates of those before it.
pub open spec fn spec_follow_upto(
    positions: Seq<Option<Position>>,
    follows: Seq<Option<Follow>>,
    n: int,
) -> Seq<Option<Position>>
    decreases n,
{
    if n <= 0 {
        positions
    } else {
        spec_follow_one(spec_follow_upto(positions, follows, n - 1), follows, n - 1)
    }
}

/// The position arena after one full follow pass.
pub open spec fn spec_positions_after_follow(
    positions: Seq<Option<Position>>,
    follows: Seq<Option<Follow>>,
) -> Seq<Option<Position>> {
    spec_follow_upto(positions, follows, positions.len() as int)
}

pub proof fn lemma_follow_upto_len(
    positions: Seq<Option<Position>>,
    follows: Seq<Option<Follow>>,
    n: int,
)
    requires
        n <= positions.len(),
    ensures
        spec_follow_upto(positions, follows, n).len() == positions.len(),
    decreases n,
{
    if n > 0 {
        lemma_follow_upto_len(positions, follows, n - 1);
    }
}

/// Indices at or beyond `n` are untouched by the first `n` follower steps.
pub proof fn lemma_follow_upto_untouched(
    positions: Seq<Option<Position>>,
    follows: Seq<Option<Follow>>,
    n: int,
    idx: int,
)
    requires
        n <= idx < positions.len(),
    ensures
        spec_follow_upto(positions, follows, n)[idx] == positions[idx],
    decreases n,
{
    if n > 0 {
        lemma_follow_upto_untouched(positions, follows, n - 1, idx);
        lemma_follow_upto_len(positions, follows, n - 1);
    }
}

/// Once follower `idx` has been processed, later steps leave it unchanged.
pub proof fn lemma_follow_upto_stable(
    positions: Seq<Option<Position>>,
    follows: Seq<Option<Follow>>,
    n: int,
    idx: int,
)
    requires
        0 <= idx,
        idx + 1 <= n <= positions.len(),
    ensures
        spec_follow_upto(positions, follows, n)[idx] == spec_follow_upto(
            positions,
            follows,
            idx + 1,
        )[idx],
    decreases n,
{
    if n > idx + 1 {
        lemma_follow_upto_stable(positions, follows, n - 1, idx);
        lemma_follow_upto_len(positions, follows, n - 1);
    }
}

/// An entity without a `Follow` component never moves during the pass.
pub proof fn lemma_follow_upto_no_follow(
    positions: Seq<Option<Position>>,
    follows: Seq<Option<Follow>>,
    n: int,
    idx: int,
)
    requires
        0 <= idx < positions.len(),
        n <= positions.len(),
        follows[idx] is None,
    ensures
        spec_follow_upto(positions, follows, n)[idx] == positions[idx],
    decreases n,
{
    if n > 0 {
        lemma_follow_upto_no_follow(positions, follows, n - 1, idx);
        lemma_follow_upto_len(positions, follows, n - 1);
    }
}

/// System that moves each follower onto its target's position plus the
/// follow offset.
pub struct FollowSystem;

impl FollowSystem {
    /// One follow pass over the world, as `spec_positions_after_follow` says.
    /// Followers run in entity order; a follower whose target cannot be
    /// resolved is left unchanged.
    pub fn run(&self, world: &mut World)
        requires
            old(world).well_formed(),
        ensures
            final(world).well_formed(),
            final(world).positions@ == spec_positions_after_follow(
                old(world).positions@,
                old(world).follows@,
            ),
            final(world).appearances@ == old(world).appearances@,
            final(world).follows@ == old(world).follows@,
            final(world).cameras@ == old(world).cameras@,
            final(world).command_responses@ == old(world).command_responses@,
            final(world).collisions@ == old(world).collisions@,
            final(world).map == old(world).map,
            final(world).canvas == old(world).canvas,
            final(world).tick == old(world).tick,
    {
        let ghost pre = *world;
        let n = world.positions.len();
        let mut i: usize = 0;
        while i < n
            invariant
                i <= n,
                world.well_formed(),
                pre.well_formed(),
                n == world.positions@.len(),
                n == pre.positions@.len(),
                world.positions@ == spec_follow_upto(pre.positions@, pre.follows@, i as int),
                world.appearances@ == pre.appearances@,
                world.follows@ == pre.follows@,
                world.cameras@ == pre.cameras@,
                world.command_responses@ == pre.command_responses@,
                world.collisions@ == pre.collisions@,
                world.map == pre.map,
                world.canvas == pre.canvas,
                world.tick == pre.tick,
            decreases n - i,
        {
            let ghost p0 = world.positions@;
            if let Some(f) = world.follows[i] {
                if f.target < n {
                    if let Some(tp) = world.positions[f.target] {
                        if world.positions[i].is_some() {
                            let ox = tp.x.checked_add(f.offset_x);
                            let oy = tp.y.checked_add(f.offset_y);
                            match (ox, oy) {
                                (Some(nx), Some(ny)) => {
                                    world.positions.set(i, Some(Position { x: nx, y: ny }));
                                },
                                _ => {},
                            }
                        }
                    }
                }
            }
            proof {
                assert(world.positions@ =~= spec_follow_one(p0, pre.follows@, i as int));
                assert(spec_follow_upto(pre.positions@, pre.follows@, i + 1) == spec_follow_one(
                    p0,
                    pre.follows@,
                    i as int,
                ));
            }
            i = i + 1;
        }
    }
}

/// After the follow pass, a follower whose target resolves to a positioned
/// entity stands exactly at the target's post-pass position plus the follow
/// offset — the follower sees the target's new position, not a stale one —
/// provided the target is not itself follow-updated after the follower runs,
/// and the sum fits the world's integer range.
pub proof fn lemma_follow_tracks_target(
    positions: Seq<Option<Position>>,
    follows: Seq<Option<Follow>>,
    i: int,
)
    requires
        0 <= i < positions.len(),
        follows[i] matches Some(f),
        0 <= follows[i]->Some_0.target < positions.len(),
        positions[i] is Some,
        follows[follows[i]->Some_0.target as int] is None || follows[i]->Some_0.target < i,
        spec_positions_after_follow(positions, follows)[follows[i]->Some_0.target as int] is Some,
        ({
            let f = follows[i]->Some_0;
            let tp = spec_positions_after_follow(positions, follows)[f.target as int]->Some_0;
            i32::MIN <= tp.x + f.offset_x <= i32::MAX && i32::MIN <= tp.y + f.offset_y <= i32::MAX
        }),
    ensures
        ({
            let f = follows[i]->Some_0;
            let tp = spec_positions_after_follow(positions, follows)[f.target as int]->Some_0;
            spec_positions_after_follow(positions, follows)[i] == Some(
                Position { x: (tp.x + f.offset_x) as i32, y: (tp.y + f.offset_y) as i32 },
            )
        }),
{
    let f = follows[i]->Some_0;
    let t = f.target as int;
    let len = positions.len() as int;
    let fin = spec_positions_after_follow(positions, follows);
    let s_i = spec_follow_upto(positions, follows, i);
    lemma_follow_upto_len(positions, follows, i);
    // Before step `i`, the follower itself is untouched.
    lemma_follow_upto_untouched(positions, follows, i, i);
    // The target's value at step `i` is its final value.
    if follows[t] is None {
        lemma_follow_upto_no_follow(positions, follows, i, t);
        lemma_follow_upto_no_follow(positions, follows, len, t);
        assert(s_i[t] == fin[t]);
    } else {
        lemma_follow_upto_stable(positions, follows, i, t);
        lemma_follow_upto_stable(positions, follows, len, t);
        assert(s_i[t] == fin[t]);
    }
    // Step `i` applies the update, and later steps keep it.
    let s_i1 = spec_follow_upto(positions, follows, i + 1);
    assert(s_i1 == spec_follow_one(s_i, follows, i));
    lemma_follow_upto_stable(positions, follows, len, i);
    assert(fin[i] == s_i1[i]);
}

} // verus!
