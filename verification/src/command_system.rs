use vstd::prelude::*;
use crate::command::{Command, GameTick};
use crate::component::Position;
use crate::map::TileMap;
use crate::world::World;

verus! {

/// The x coordinate `command` moves an entity at `p` onto. Up and down move
/// along the x axis by convention.
pub open spec fn spec_target_x(p: Position, command: Command) -> int {
    match command {
        Command::Up => p.x - 1,
        Command::Down => p.x + 1,
        _ => p.x as int,
    }
}

/// The y coordinate `command` moves an entity at `p` onto. Left and right
/// move along the y axis by convention.
pub open spec fn spec_target_y(p: Position, command: Command) -> int {
    match command {
        Command::Left => p.y - 1,
        Command::Right => p.y + 1,
        _ => p.y as int,
    }
}

/// True if some entity with `Collision` and a position stands at `(x, y)`.
pub open spec fn spec_collider_at(
    positions: Seq<Option<Position>>,
    collisions: Seq<bool>,
    x: int,
    y: int,
) -> bool {
    exists|j: int|
        {
            &&& 0 <= j < positions.len()
            &&& collisions[j]
            &&& #[trigger] positions[j] matches Some(q)
            &&& q.x == x
            &&& q.y == y
        }
}

/// True if some entity among the first `upto` with `Collision` and a
/// position stands exactly at `p`.
pub open spec fn spec_collider_is(
    positions: Seq<Option<Position>>,
    collisions: Seq<bool>,
    upto: int,
    p: Position,
) -> bool {
    exists|m: int|
        {
            &&& 0 <= m < upto
            &&& collisions[m]
            &&& #[trigger] positions[m] matches Some(q)
            &&& q == p
        }
}

/// True if `p` occurs in the snapshot `cp`.
pub open spec fn spec_in_snapshot(cp: Seq<Position>, p: Position) -> bool {
    exists|k: int| 0 <= k < cp.len() && #[trigger] cp[k] == p
}

/// Where the entity at `p` ends up: on the target tile when that tile is on
/// open ground, no collider stands on it (as of the snapshot taken before any
/// movement), and the coordinate fits the world's integer range; otherwise it
/// stays at `p`.
pub open spec fn spec_moved_position(
    map: TileMap,
    positions: Seq<Option<Position>>,
    collisions: Seq<bool>,
    p: Position,
    command: Command,
) -> Position {
    let tx = spec_target_x(p, command);
    let ty = spec_target_y(p, command);
    if i32::MIN <= tx <= i32::MAX && i32::MIN <= ty <= i32::MAX && map.spec_is_open(tx, ty)
        && !spec_collider_at(positions, collisions, tx, ty) {
        Position { x: tx as i32, y: ty as i32 }
    } else {
        p
    }
}

/// The position arena after one command-resolution pass: on a plain tick
/// nothing moves; on a command tick every entity with both `CommandResponse`
/// and a position is moved as `spec_moved_position` says, against the
/// pre-movement snapshot.
pub open spec fn spec_positions_after_commands(
    map: TileMap,
    positions: Seq<Option<Position>>,
    command_responses: Seq<bool>,
    collisions: Seq<bool>,
    tick: GameTick,
) -> Seq<Option<Position>> {
    match tick {
        GameTick::Tick(_) => positions,
        GameTick::Command(_, cmd) => Seq::new(
            positions.len(),
            |i: int|
                match positions[i] {
                    Some(p) => if command_responses[i] {
                        Some(spec_moved_position(map, positions, collisions, p, cmd))
                    } else {
                        Some(p)
                    },
                    None => None,
                },
        ),
    }
}

/// Movement blocked by collision: a command-responding entity whose target
/// tile is occupied by any entity tagged `Collision` does not move, even
/// when the tile itself is open ground.
pub proof fn lemma_movement_blocked_by_collision(
    map: TileMap,
    positions: Seq<Option<Position>>,
    command_responses: Seq<bool>,
    collisions: Seq<bool>,
    tick: GameTick,
    i: int,
)
    requires
        0 <= i < positions.len(),
        command_responses[i],
        positions[i] is Some,
        tick matches GameTick::Command(d, cmd) && spec_collider_at(
            positions,
            collisions,
            spec_target_x(positions[i]->Some_0, cmd),
            spec_target_y(positions[i]->Some_0, cmd),
        ),
    ensures
        spec_positions_after_commands(map, positions, command_responses, collisions, tick)[i]
            == positions[i],
{
}

/// Returns the coordinate that `command` would move `position` onto, or
/// `None` when the step leaves the `i32` range.
fn get_target_position(position: &Position, command: &Command) -> (r: Option<(i32, i32)>)
    ensures
        ({
            let tx = spec_target_x(*position, *command);
            let ty = spec_target_y(*position, *command);
            if i32::MIN <= tx <= i32::MAX && i32::MIN <= ty <= i32::MAX {
                r matches Some(t) && t.0 == tx && t.1 == ty
            } else {
                r is None
            }
        }),
{
    match command {
        Command::Up => match position.x.checked_sub(1) {
            Some(nx) => Some((nx, position.y)),
            None => None,
        },
        Command::Down => match position.x.checked_add(1) {
            Some(nx) => Some((nx, position.y)),
            None => None,
        },
        Command::Left => match position.y.checked_sub(1) {
            Some(ny) => Some((position.x, ny)),
            None => None,
        },
        Command::Right => match position.y.checked_add(1) {
            Some(ny) => Some((position.x, ny)),
            None => None,
        },
        Command::Quit => Some((position.x, position.y)),
    }
}

/// Returns true if nothing obstructs movement onto `(x, y)`: the map is open
/// there and no snapshotted collider position equals it.
fn can_move_onto(x: i32, y: i32, map: &TileMap, collider_positions: &Vec<Position>) -> (r: bool)
    requires
        map.well_formed(),
    ensures
        r == (map.spec_is_open(x as int, y as int) && !exists|k: int|
            0 <= k < collider_positions@.len() && (#[trigger] collider_positions@[k]).x == x
                && collider_positions@[k].y == y),
{
    if !map.is_open(x, y) {
        return false;
    }
    let n = collider_positions.len();
    let mut k: usize = 0;
    while k < n
        invariant
            k <= n,
            n == collider_positions@.len(),
            forall|m: int|
                0 <= m < k ==> !((#[trigger] collider_positions@[m]).x == x
                    && collider_positions@[m].y == y),
        decreases n - k,
    {
        let q = collider_positions[k];
        if q.x == x && q.y == y {
            return false;
        }
        k = k + 1;
    }
    true
}

/// System for processing movement commands.
pub struct CommandSystem;

impl CommandSystem {
    /// One command-resolution pass over the world, as
    /// `spec_positions_after_commands` says. Only positions change; the
    /// collision check uses a snapshot of collider positions taken before any
    /// entity moves, so intra-tick displacement is never chained.
    pub fn run(&self, world: &mut World)
        requires
            old(world).well_formed(),
        ensures
            final(world).well_formed(),
            final(world).positions@ == spec_positions_after_commands(
                old(world).map,
                old(world).positions@,
                old(world).command_responses@,
                old(world).collisions@,
                old(world).tick,
            ),
            final(world).appearances@ == old(world).appearances@,
            final(world).follows@ == old(world).follows@,
            final(world).cameras@ == old(world).cameras@,
            final(world).command_responses@ == old(world).command_responses@,
            final(world).collisions@ == old(world).collisions@,
            final(world).map == old(world).map,
            final(world).canvas == old(world).canvas,
            final(world).tick == old(world).tick,
    {
        let ghost pre = *world;
        let cmd: Command = match world.tick {
            GameTick::Command(_, c) => c,
            GameTick::Tick(_) => {
                return ;
            },
        };
        let n = world.positions.len();

        // Snapshot the positions of every collider before anything moves.
        let mut collider_positions: Vec<Position> = Vec::new();
        let mut j: usize = 0;
        while j < n
            invariant
                j <= n,
                *world == pre,
                pre.well_formed(),
                n == pre.positions@.len(),
                forall|k: int|
                    0 <= k < collider_positions@.len() ==> spec_collider_is(
                        pre.positions@,
                        pre.collisions@,
                        j as int,
                        #[trigger] collider_positions@[k],
                    ),
                forall|m: int|
                    0 <= m < j && pre.collisions@[m] && (#[trigger] pre.positions@[m]) is Some
                        ==> spec_in_snapshot(collider_positions@, pre.positions@[m]->Some_0),
            decreases n - j,
        {
            let ghost cp0 = collider_positions@;
            if world.collisions[j] {
                if let Some(p) = world.positions[j] {
                    collider_positions.push(p);
                }
            }
            proof {
                assert forall|m: int|
                    0 <= m < j + 1 && pre.collisions@[m] && (#[trigger] pre.positions@[m]) is Some
                        implies spec_in_snapshot(
                        collider_positions@,
                        pre.positions@[m]->Some_0,
                    ) by {
                    if m < j {
                        assert(spec_in_snapshot(cp0, pre.positions@[m]->Some_0));
                        let k = choose|k: int|
                            0 <= k < cp0.len() && #[trigger] cp0[k] == pre.positions@[m]->Some_0;
                        assert(collider_positions@[k] == pre.positions@[m]->Some_0);
                    } else {
                        assert(collider_positions@[collider_positions@.len() - 1]
                            == pre.positions@[m]->Some_0);
                    }
                }
            }
            j = j + 1;
        }

        proof {
            assert forall|x: int, y: int|
                spec_collider_at(pre.positions@, pre.collisions@, x, y) <==> exists|k: int|
                    0 <= k < collider_positions@.len() && (#[trigger] collider_positions@[k]).x == x
                        && collider_positions@[k].y == y by {
                if spec_collider_at(pre.positions@, pre.collisions@, x, y) {
                    let m = choose|m: int|
                        {
                            &&& 0 <= m < pre.positions@.len()
                            &&& pre.collisions@[m]
                            &&& #[trigger] pre.positions@[m] matches Some(q)
                            &&& q.x == x
                            &&& q.y == y
                        };
                    assert(pre.positions@[m] is Some);
                    assert(spec_in_snapshot(collider_positions@, pre.positions@[m]->Some_0));
                    let k = choose|k: int|
                        0 <= k < collider_positions@.len() && #[trigger] collider_positions@[k]
                            == pre.positions@[m]->Some_0;
                    assert(collider_positions@[k].x == x && collider_positions@[k].y == y);
                }
                if exists|k: int|
                    0 <= k < collider_positions@.len() && (#[trigger] collider_positions@[k]).x == x
                        && collider_positions@[k].y == y {
                    let k = choose|k: int|
                        0 <= k < collider_positions@.len() && (#[trigger] collider_positions@[k]).x
                            == x && collider_positions@[k].y == y;
                    assert(spec_collider_is(
                        pre.positions@,
                        pre.collisions@,
                        n as int,
                        collider_positions@[k],
                    ));
                    let m = choose|m: int|
                        {
                            &&& 0 <= m < n
                            &&& pre.collisions@[m]
                            &&& #[trigger] pre.positions@[m] matches Some(q)
                            &&& q == collider_positions@[k]
                        };
                    assert(spec_collider_at(pre.positions@, pre.collisions@, x, y));
                }
            }
        }

        // Move each command-responding entity against the snapshot.
        let ghost target = spec_positions_after_commands(
            pre.map,
            pre.positions@,
            pre.command_responses@,
            pre.collisions@,
            pre.tick,
        );
        let mut i: usize = 0;
        while i < n
            invariant
                i <= n,
                world.well_formed(),
                n == world.positions@.len(),
                n == pre.positions@.len(),
                pre.well_formed(),
                pre.tick matches GameTick::Command(d, c) && c == cmd,
                target == spec_positions_after_commands(
                    pre.map,
                    pre.positions@,
                    pre.command_responses@,
                    pre.collisions@,
                    pre.tick,
                ),
                world.appearances@ == pre.appearances@,
                world.follows@ == pre.follows@,
                world.cameras@ == pre.cameras@,
                world.command_responses@ == pre.command_responses@,
                world.collisions@ == pre.collisions@,
                world.map == pre.map,
                world.canvas == pre.canvas,
                world.tick == pre.tick,
                forall|k: int| i <= k < n ==> #[trigger] world.positions@[k] == pre.positions@[k],
                forall|k: int| 0 <= k < i ==> #[trigger] world.positions@[k] == target[k],
                forall|x: int, y: int|
                    spec_collider_at(pre.positions@, pre.collisions@, x, y) <==> exists|k: int|
                        0 <= k < collider_positions@.len() && (#[trigger] collider_positions@[k]).x
                            == x && collider_positions@[k].y == y,
            decreases n - i,
        {
            if world.command_responses[i] {
                if let Some(p) = world.positions[i] {
                    match get_target_position(&p, &cmd) {
                        Some((tx, ty)) => {
                            if can_move_onto(tx, ty, &world.map, &collider_positions) {
                                world.positions.set(i, Some(Position { x: tx, y: ty }));
                            }
                        },
                        None => {},
                    }
                    proof {
                        assert(world.positions@[i as int] == target[i as int]);
                    }
                }
            }
            i = i + 1;
        }
    }
}

} // verus!
