use vstd::prelude::*;
use crate::color::Color;
use crate::component::{Appearance, Follow, Position};
use crate::world::World;

verus! {

/// Creates the player: a command-responding `@` drawn in cyan, starting at
/// `(4, 4)`.
pub fn make_player(world: &mut World) -> (e: usize)
    requires
        old(world).well_formed(),
        old(world).num_entities() < usize::MAX,
    ensures
        final(world).well_formed(),
        e == old(world).num_entities(),
        final(world).positions@ == old(world).positions@.push(Some(Position { x: 4, y: 4 })),
        final(world).appearances@.len() == old(world).appearances@.len() + 1,
        forall|i: int|
            0 <= i < old(world).appearances@.len() ==> final(world).appearances@[i] == old(
                world,
            ).appearances@[i],
        final(world).appearances@[e as int] is Some,
        final(world).appearances@[e as int]->Some_0.icon == '@',
        final(world).appearances@[e as int]->Some_0.foreground == Color::Cyan,
        final(world).appearances@[e as int]->Some_0.background == Color::Reset,
        final(world).appearances@[e as int]->Some_0.modifiers@.len() == 0,
        final(world).follows@ == old(world).follows@.push(None),
        final(world).cameras@ == old(world).cameras@.push(false),
        final(world).command_responses@ == old(world).command_responses@.push(true),
        final(world).collisions@ == old(world).collisions@.push(false),
        final(world).map == old(world).map,
        final(world).canvas == old(world).canvas,
        final(world).tick == old(world).tick,
{
    let starting_position = Position { x: 4, y: 4 };
    let appearance = Appearance {
        icon: '@',
        foreground: Color::Cyan,
        background: Color::Reset,
        modifiers: Vec::new(),
    };
    let e = world.create_entity();
    world.add_position(e, starting_position);
    world.add_appearance(e, appearance);
    world.add_command_response(e);
    proof {
        assert(world.positions@ =~= old(world).positions@.push(Some(Position { x: 4, y: 4 })));
        assert(world.command_responses@ =~= old(world).command_responses@.push(true));
    }
    e
}

/// Creates the camera: an entity tagged `Camera` that follows `target` with
/// a zero offset, starting at `(0, 0)`.
pub fn make_camera(target: usize, world: &mut World) -> (e: usize)
    requires
        old(world).well_formed(),
        old(world).num_entities() < usize::MAX,
    ensures
        final(world).well_formed(),
        e == old(world).num_entities(),
        final(world).positions@ == old(world).positions@.push(Some(Position { x: 0, y: 0 })),
        final(world).appearances@ == old(world).appearances@.push(None),
        final(world).follows@ == old(world).follows@.push(
            Some(Follow { target, offset_x: 0, offset_y: 0 }),
        ),
        final(world).cameras@ == old(world).cameras@.push(true),
        final(world).command_responses@ == old(world).command_responses@.push(false),
        final(world).collisions@ == old(world).collisions@.push(false),
        final(world).map == old(world).map,
        final(world).canvas == old(world).canvas,
        final(world).tick == old(world).tick,
{
    let follow = Follow { target, offset_x: 0, offset_y: 0 };
    let e = world.create_entity();
    world.add_camera(e);
    world.add_follow(e, follow);
    world.add_position(e, Position { x: 0, y: 0 });
    proof {
        assert(world.positions@ =~= old(world).positions@.push(Some(Position { x: 0, y: 0 })));
        assert(world.follows@ =~= old(world).follows@.push(
            Some(Follow { target, offset_x: 0, offset_y: 0 }),
        ));
        assert(world.cameras@ =~= old(world).cameras@.push(true));
    }
    e
}

} // verus!
