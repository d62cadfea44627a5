use vstd::prelude::*;
use crate::canvas::TextCanvas;
use crate::command::GameTick;
use crate::component::{Appearance, Follow, Position};
use crate::map::TileMap;

verus! {

/// The entity-component store: each component kind is an arena indexed by
/// entity number, alongside the shared resources of one game world (the map,
/// the render canvas, and the current tick).
pub struct World {
    pub positions: Vec<Option<Position>>,
    pub appearances: Vec<Option<Appearance>>,
    pub follows: Vec<Option<Follow>>,
    pub cameras: Vec<bool>,
    pub command_responses: Vec<bool>,
    pub collisions: Vec<bool>,
    pub map: TileMap,
    pub canvas: TextCanvas,
    pub tick: GameTick,
}

impl World {
    pub open spec fn num_entities(&self) -> nat {
        self.positions@.len()
    }

    /// Every component arena has one slot per entity, and the resources are
    /// well formed.
    pub open spec fn well_formed(&self) -> bool {
        &&& self.appearances@.len() == self.num_entities()
        &&& self.follows@.len() == self.num_entities()
        &&& self.cameras@.len() == self.num_entities()
        &&& self.command_responses@.len() == self.num_entities()
        &&& self.collisions@.len() == self.num_entities()
        &&& self.map.well_formed()
        &&& self.canvas.well_formed()
    }

    /// The component arenas of the two worlds are identical.
    pub open spec fn same_entities(pre: World, post: World) -> bool {
        &&& post.positions@ == pre.positions@
        &&& post.appearances@ == pre.appearances@
        &&& post.follows@ == pre.follows@
        &&& post.cameras@ == pre.cameras@
        &&& post.command_responses@ == pre.command_responses@
        &&& post.collisions@ == pre.collisions@
    }

    /// Builds an empty world around the given resources.
    pub fn new(map: TileMap, canvas: TextCanvas, tick: GameTick) -> (r: World)
        requires
            map.well_formed(),
            canvas.well_formed(),
        ensures
            r.well_formed(),
            r.num_entities() == 0,
            r.map == map,
            r.canvas == canvas,
            r.tick == tick,
    {
        World {
            positions: Vec::new(),
            appearances: Vec::new(),
            follows: Vec::new(),
            cameras: Vec::new(),
            command_responses: Vec::new(),
            collisions: Vec::new(),
            map,
            canvas,
            tick,
        }
    }

    /// Creates a new entity with no components and returns its index.
    pub fn create_entity(&mut self) -> (e: usize)
        requires
            old(self).well_formed(),
            old(self).num_entities() < usize::MAX,
        ensures
            final(self).well_formed(),
            e == old(self).num_entities(),
            final(self).positions@ == old(self).positions@.push(None),
            final(self).appearances@ == old(self).appearances@.push(None),
            final(self).follows@ == old(self).follows@.push(None),
            final(self).cameras@ == old(self).cameras@.push(false),
            final(self).command_responses@ == old(self).command_responses@.push(false),
            final(self).collisions@ == old(self).collisions@.push(false),
            final(self).map == old(self).map,
            final(self).canvas == old(self).canvas,
            final(self).tick == old(self).tick,
    {
        let e = self.positions.len();
        self.positions.push(None);
        self.appearances.push(None);
        self.follows.push(None);
        self.cameras.push(false);
        self.command_responses.push(false);
        self.collisions.push(false);
        e
    }

    /// Gives entity `e` a `Position` component.
    pub fn add_position(&mut self, e: usize, p: Position)
        requires
            old(self).well_formed(),
            e < old(self).num_entities(),
        ensures
            final(self).well_formed(),
            final(self).positions@ == old(self).positions@.update(e as int, Some(p)),
            final(self).appearances@ == old(self).appearances@,
            final(self).follows@ == old(self).follows@,
            final(self).cameras@ == old(self).cameras@,
            final(self).command_responses@ == old(self).command_responses@,
            final(self).collisions@ == old(self).collisions@,
            final(self).map == old(self).map,
            final(self).canvas == old(self).canvas,
            final(self).tick == old(self).tick,
    {
        self.positions.set(e, Some(p));
    }

    /// Gives entity `e` an `Appearance` component.
    pub fn add_appearance(&mut self, e: usize, a: Appearance)
        requires
            old(self).well_formed(),
            e < old(self).num_entities(),
        ensures
            final(self).well_formed(),
            final(self).positions@ == old(self).positions@,
            final(self).appearances@ == old(self).appearances@.update(e as int, Some(a)),
            final(self).follows@ == old(self).follows@,
            final(self).cameras@ == old(self).cameras@,
            final(self).command_responses@ == old(self).command_responses@,
            final(self).collisions@ == old(self).collisions@,
            final(self).map == old(self).map,
            final(self).canvas == old(self).canvas,
            final(self).tick == old(self).tick,
    {
        self.appearances.set(e, Some(a));
    }

    /// Gives entity `e` a `Follow` component.
    pub fn add_follow(&mut self, e: usize, f: Follow)
        requires
            old(self).well_formed(),
            e < old(self).num_entities(),
        ensures
            final(self).well_formed(),
            final(self).positions@ == old(self).positions@,
            final(self).appearances@ == old(self).appearances@,
            final(self).follows@ == old(self).follows@.update(e as int, Some(f)),
            final(self).cameras@ == old(self).cameras@,
            final(self).command_responses@ == old(self).command_responses@,
            final(self).collisions@ == old(self).collisions@,
            final(self).map == old(self).map,
            final(self).canvas == old(self).canvas,
            final(self).tick == old(self).tick,
    {
        self.follows.set(e, Some(f));
    }

    /// Tags entity `e` with the `Camera` marker.
    pub fn add_camera(&mut self, e: usize)
        requires
            old(self).well_formed(),
            e < old(self).num_entities(),
        ensures
            final(self).well_formed(),
            final(self).positions@ == old(self).positions@,
            final(self).appearances@ == old(self).appearances@,
            final(self).follows@ == old(self).follows@,
            final(self).cameras@ == old(self).cameras@.update(e as int, true),
            final(self).command_responses@ == old(self).command_responses@,
            final(self).collisions@ == old(self).collisions@,
            final(self).map == old(self).map,
            final(self).canvas == old(self).canvas,
            final(self).tick == old(self).tick,
    {
        self.cameras.set(e, true);
    }

    /// Tags entity `e` with the `CommandResponse` marker.
    pub fn add_command_response(&mut self, e: usize)
        requires
            old(self).well_formed(),
            e < old(self).num_entities(),
        ensures
            final(self).well_formed(),
            final(self).positions@ == old(self).positions@,
            final(self).appearances@ == old(self).appearances@,
            final(self).follows@ == old(self).follows@,
            final(self).cameras@ == old(self).cameras@,
            final(self).command_responses@ == old(self).command_responses@.update(e as int, true),
            final(self).collisions@ == old(self).collisions@,
            final(self).map == old(self).map,
            final(self).canvas == old(self).canvas,
            final(self).tick == old(self).tick,
    {
        self.command_responses.set(e, true);
    }

    /// Tags entity `e` with the `Collision` marker.
    pub fn add_collision(&mut self, e: usize)
        requires
            old(self).well_formed(),
            e < old(self).num_entities(),
        ensures
            final(self).well_formed(),
            final(self).positions@ == old(self).positions@,
            final(self).appearances@ == old(self).appearances@,
            final(self).follows@ == old(self).follows@,
            final(self).cameras@ == old(self).cameras@,
            final(self).command_responses@ == old(self).command_responses@,
            final(self).collisions@ == old(self).collisions@.update(e as int, true),
            final(self).map == old(self).map,
            final(self).canvas == old(self).canvas,
            final(self).tick == old(self).tick,
    {
        self.collisions.set(e, true);
    }

    /// Reads the position of entity `e`.
    pub fn position(&self, e: usize) -> (r: Option<Position>)
        requires
            self.well_formed(),
            e < self.num_entities(),
        ensures
            r == self.positions@[e as int],
    {
        self.positions[e]
    }

    /// Writes the tick resource.
    pub fn set_tick(&mut self, tick: GameTick)
        requires
            old(self).well_formed(),
        ensures
            final(self).well_formed(),
            World::same_entities(*old(self), *final(self)),
            final(self).map == old(self).map,
            final(self).canvas == old(self).canvas,
            final(self).tick == tick,
    {
        self.tick = tick;
    }
}

} // verus!
