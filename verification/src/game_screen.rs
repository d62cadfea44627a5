use vstd::prelude::*;
use crate::canvas::TextCanvas;
use crate::command::{Command, GameTick};
use crate::command_system::{spec_positions_after_commands, CommandSystem};
use crate::component::{Follow, Position};
use crate::factory;
use crate::follow_system::{spec_positions_after_follow, FollowSystem};
use crate::map::{test_big_room_tile, TileMap};
use crate::screen_manager::Callback;
use crate::text_render_system::{spec_first_camera_from, spec_render_cell, TextRenderSystem};
use crate::world::World;

verus! {

/// True if `tick` carries the quit command.
pub open spec fn spec_time_to_quit(tick: GameTick) -> bool {
    tick matches GameTick::Command(_, Command::Quit)
}

/// Returns `true` if the tick tells the game to quit.
pub fn check_time_to_quit(tick: GameTick) -> (r: bool)
    ensures
        r == spec_time_to_quit(tick),
{
    match tick {
        GameTick::Command(_, Command::Quit) => true,
        _ => false,
    }
}

/// Returns the starting map: the large test room.
pub fn initialize_map() -> (r: TileMap)
    ensures
        r.well_formed(),
        r.spec_width() == 42,
        r.spec_height() == 42,
        forall|x: int, y: int|
            0 <= x < 42 && 0 <= y < 42 ==> r.spec_tile(x, y) == test_big_room_tile(x, y),
{
    crate::map::test_big_room()
}

/// Returns a fresh canvas sized to `min(terminal, map)`.
pub fn create_canvas(map: &TileMap, terminal_width: usize, terminal_height: usize) -> (r:
    TextCanvas)
    requires
        map.well_formed(),
    ensures
        r.well_formed(),
        r.spec_width() == (if terminal_width < map.spec_width() {
            terminal_width as nat
        } else {
            map.spec_width()
        }),
        r.spec_width() > 0 ==> r.spec_height() == (if terminal_height < map.spec_height() {
            terminal_height as nat
        } else {
            map.spec_height()
        }),
        forall|i: int, j: int|
            0 <= i < r.spec_width() && 0 <= j < r.spec_height() ==> #[trigger] r.spec_symbol(i, j)
                == crate::canvas::default_symbol(),
{
    let (map_width, map_height) = map.dimensions();
    let canvas_width = if terminal_width < map_width {
        terminal_width
    } else {
        map_width
    };
    let canvas_height = if terminal_height < map_height {
        terminal_height
    } else {
        map_height
    };
    TextCanvas::with_size(canvas_width, canvas_height)
}

/// The world's transition for one game-screen render with `tick`: the tick
/// resource is written, commands resolve, followers track the movers' new
/// positions, and the renderer redraws the canvas from the result.
pub open spec fn spec_world_render_rel(pre: World, post: World, tick: GameTick) -> bool {
    let after_cmd = spec_positions_after_commands(
        pre.map,
        pre.positions@,
        pre.command_responses@,
        pre.collisions@,
        tick,
    );
    let after_follow = spec_positions_after_follow(after_cmd, pre.follows@);
    &&& post.positions@ == after_follow
    &&& post.appearances@ == pre.appearances@
    &&& post.follows@ == pre.follows@
    &&& post.cameras@ == pre.cameras@
    &&& post.command_responses@ == pre.command_responses@
    &&& post.collisions@ == pre.collisions@
    &&& post.map == pre.map
    &&& post.tick == tick
    &&& match spec_first_camera_from(after_follow, pre.cameras@, 0) {
        None => post.canvas == pre.canvas,
        Some(c) => {
            &&& post.canvas.spec_width() == pre.canvas.spec_width()
            &&& post.canvas.spec_height() == pre.canvas.spec_height()
            &&& forall|ci: int, cj: int|
                0 <= ci < pre.canvas.spec_width() && 0 <= cj < pre.canvas.spec_height()
                    ==> #[trigger] post.canvas.spec_symbol(ci, cj) == spec_render_cell(
                    pre.map,
                    after_follow,
                    pre.appearances@,
                    after_follow[c]->Some_0,
                    pre.canvas.spec_width(),
                    pre.canvas.spec_height(),
                    pre.canvas.spec_symbol(ci, cj),
                    ci,
                    cj,
                )
        },
    }
}

/// Writes `tick` into the world as its tick resource.
pub fn update_world_tick(world: &mut World, tick: GameTick)
    requires
        old(world).well_formed(),
    ensures
        final(world).well_formed(),
        World::same_entities(*old(world), *final(world)),
        final(world).map == old(world).map,
        final(world).canvas == old(world).canvas,
        final(world).tick == tick,
{
    world.set_tick(tick);
}

/// Runs the fixed system pipeline once: command resolution, then follow,
/// then render. The order is significant: followers must see post-movement
/// positions, and the renderer must see the camera already moved.
pub fn run_world(world: &mut World)
    requires
        old(world).well_formed(),
    ensures
        final(world).well_formed(),
        spec_world_render_rel(*old(world), *final(world), old(world).tick),
{
    let command_system = CommandSystem;
    command_system.run(world);
    let follow_system = FollowSystem;
    follow_system.run(world);
    let render_system = TextRenderSystem;
    render_system.run(world);
}

/// Primary screen where the game is played: one world, and the deferred
/// callbacks it queues for the presentation stack.
pub struct GameScreen {
    pub world: World,
    pub callbacks: Vec<Callback>,
}

/// The state `GameScreen::new` establishes for a given terminal size: the
/// large starting map, a fresh canvas sized to `min(terminal, map)`, the
/// default tick, and exactly two entities — the command-responding player
/// `@` at `(4, 4)` and the camera that follows it at zero offset.
pub open spec fn spec_initial_game_screen(
    g: GameScreen,
    terminal_width: usize,
    terminal_height: usize,
) -> bool {
    &&& g.world.well_formed()
    &&& g.callbacks@.len() == 0
    &&& g.world.map.spec_width() == 42
    &&& g.world.map.spec_height() == 42
    &&& forall|x: int, y: int|
        0 <= x < 42 && 0 <= y < 42 ==> g.world.map.spec_tile(x, y) == test_big_room_tile(x, y)
    &&& g.world.canvas.spec_width() == (if terminal_width < 42 {
        terminal_width as nat
    } else {
        42nat
    })
    &&& (g.world.canvas.spec_width() > 0 ==> g.world.canvas.spec_height() == (if terminal_height
        < 42 {
        terminal_height as nat
    } else {
        42nat
    }))
    &&& g.world.tick == GameTick::Tick(0u64)
    &&& g.world.num_entities() == 2
    &&& g.world.positions@[0] == Some(Position { x: 4, y: 4 })
    &&& g.world.command_responses@[0]
    &&& g.world.appearances@[0] is Some
    &&& g.world.appearances@[0]->Some_0.icon == '@'
    &&& g.world.follows@[0] is None
    &&& !g.world.cameras@[0]
    &&& !g.world.collisions@[0]
    &&& g.world.positions@[1] == Some(Position { x: 0, y: 0 })
    &&& g.world.cameras@[1]
    &&& g.world.follows@[1] == Some(Follow { target: 0, offset_x: 0, offset_y: 0 })
    &&& g.world.appearances@[1] is None
    &&& !g.world.command_responses@[1]
    &&& !g.world.collisions@[1]
}

impl GameScreen {
    /// All one-time setup: the starting map, a canvas sized to
    /// `min(terminal, map)`, the default tick, and the player together with
    /// the camera that follows it at zero offset.
    pub fn new(terminal_width: usize, terminal_height: usize) -> (r: GameScreen)
        ensures
            spec_initial_game_screen(r, terminal_width, terminal_height),
    {
        let map = initialize_map();
        let canvas = create_canvas(&map, terminal_width, terminal_height);
        let mut world = World::new(map, canvas, GameTick::default());
        let player = factory::make_player(&mut world);
        let _camera = factory::make_camera(player, &mut world);
        GameScreen { world, callbacks: Vec::new() }
    }

    /// What one render with `tick` does to the screen: the world steps as
    /// `spec_world_render_rel` says, and when the tick carries the quit
    /// command a quit callback is queued.
    pub open spec fn spec_render_rel(pre: GameScreen, post: GameScreen, tick: GameTick) -> bool {
        &&& post.world.well_formed()
        &&& spec_world_render_rel(pre.world, post.world, tick)
        &&& post.callbacks@ == (if spec_time_to_quit(tick) {
            seq![Callback::Quit] + pre.callbacks@
        } else {
            pre.callbacks@
        })
    }

    /// Renders one frame: writes the tick into the world, queues a quit
    /// callback when the tick says so, and runs the system pipeline.
    pub fn render(&mut self, tick: GameTick)
        requires
            old(self).world.well_formed(),
        ensures
            GameScreen::spec_render_rel(*old(self), *final(self), tick),
    {
        update_world_tick(&mut self.world, tick);
        if check_time_to_quit(tick) {
            self.add_screen_manager_callback(Callback::Quit);
        }
        run_world(&mut self.world);
    }

    /// A game screen needs no clean-up.
    pub fn tear_down(&mut self)
        ensures
            *final(self) == *old(self),
    {
    }

    /// Queues a deferred operation for the presentation stack; the most
    /// recently added runs first.
    pub fn add_screen_manager_callback(&mut self, callback: Callback)
        ensures
            final(self).callbacks@ == seq![callback] + old(self).callbacks@,
            final(self).world == old(self).world,
    {
        self.callbacks.insert(0, callback);
        proof {
            assert(self.callbacks@ =~= seq![callback] + old(self).callbacks@);
        }
    }

    /// Hands over and clears every queued callback, in execution order.
    pub fn get_screen_manager_callbacks(&mut self) -> (r: Vec<Callback>)
        ensures
            r@ == old(self).callbacks@,
            final(self).callbacks@.len() == 0,
            final(self).world == old(self).world,
    {
        let mut out: Vec<Callback> = Vec::new();
        out.append(&mut self.callbacks);
        out
    }
}

} // verus!
