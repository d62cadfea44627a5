use tilegame::canvas::TextCanvas;
use tilegame::command::{Command, GameTick};
use tilegame::command_system::CommandSystem;
use tilegame::component::{Appearance, Follow, Position};
use tilegame::color::Color;
use tilegame::follow_system::FollowSystem;
use tilegame::map::{test_room, TileMap};
use tilegame::text_render_system::TextRenderSystem;
use tilegame::world::World;

fn room_world(tick: GameTick) -> World {
    let map = test_room();
    let canvas = TextCanvas::for_map(&map);
    World::new(map, canvas, tick)
}

#[test]
fn test_movement_blocked_by_wall() {
    // A wall stands at (2, 2); a mover at (1, 2) steps down onto it.
    let mut world = room_world(GameTick::Command(16, Command::Down));
    let e = world.create_entity();
    world.add_position(e, Position { x: 1, y: 2 });
    world.add_command_response(e);

    let system = CommandSystem;
    system.run(&mut world);

    assert_eq!(world.position(e), Some(Position { x: 1, y: 2 }));
}

#[test]
fn test_movement_blocked_by_collision() {
    // The target tile (4, 5) is blank, but a collider stands on it.
    let mut world = room_world(GameTick::Command(16, Command::Right));
    let mover = world.create_entity();
    world.add_position(mover, Position { x: 4, y: 4 });
    world.add_command_response(mover);
    let blocker = world.create_entity();
    world.add_position(blocker, Position { x: 4, y: 5 });
    world.add_collision(blocker);

    let system = CommandSystem;
    system.run(&mut world);

    assert_eq!(world.position(mover), Some(Position { x: 4, y: 4 }));
    assert_eq!(world.position(blocker), Some(Position { x: 4, y: 5 }));
}

#[test]
fn test_movement_axes() {
    // Up and down move along x; left and right along y.
    let cases = [
        (Command::Up, Position { x: 4, y: 5 }),
        (Command::Down, Position { x: 6, y: 5 }),
        (Command::Left, Position { x: 5, y: 4 }),
        (Command::Right, Position { x: 5, y: 6 }),
    ];
    for (command, expected) in cases {
        let mut world = room_world(GameTick::Command(16, command));
        let e = world.create_entity();
        world.add_position(e, Position { x: 5, y: 5 });
        world.add_command_response(e);
        let system = CommandSystem;
        system.run(&mut world);
        assert_eq!(world.position(e), Some(expected));
    }
}

#[test]
fn test_quit_command_moves_nothing() {
    let mut world = room_world(GameTick::Command(16, Command::Quit));
    let e = world.create_entity();
    world.add_position(e, Position { x: 5, y: 5 });
    world.add_command_response(e);
    let system = CommandSystem;
    system.run(&mut world);
    assert_eq!(world.position(e), Some(Position { x: 5, y: 5 }));
}

#[test]
fn test_plain_tick_moves_nothing() {
    let mut world = room_world(GameTick::Tick(16));
    let e = world.create_entity();
    world.add_position(e, Position { x: 5, y: 5 });
    world.add_command_response(e);
    let system = CommandSystem;
    system.run(&mut world);
    assert_eq!(world.position(e), Some(Position { x: 5, y: 5 }));
}

#[test]
fn test_follow_tracks_fresh_position() {
    // The follower sees the mover's post-command position, one pass later.
    let mut world = room_world(GameTick::Command(16, Command::Up));
    let mover = world.create_entity();
    world.add_position(mover, Position { x: 5, y: 5 });
    world.add_command_response(mover);
    let follower = world.create_entity();
    world.add_position(follower, Position { x: 0, y: 0 });
    world.add_follow(follower, Follow { target: mover, offset_x: 1, offset_y: 2 });

    let commands = CommandSystem;
    commands.run(&mut world);
    let follow = FollowSystem;
    follow.run(&mut world);

    assert_eq!(world.position(mover), Some(Position { x: 4, y: 5 }));
    assert_eq!(world.position(follower), Some(Position { x: 5, y: 7 }));
}

#[test]
fn test_follow_unresolvable_target_is_inert() {
    let mut world = room_world(GameTick::Tick(16));
    let follower = world.create_entity();
    world.add_position(follower, Position { x: 3, y: 3 });
    world.add_follow(follower, Follow { target: 17, offset_x: 1, offset_y: 1 });

    let follow = FollowSystem;
    follow.run(&mut world);

    assert_eq!(world.position(follower), Some(Position { x: 3, y: 3 }));
}

#[test]
fn test_render_draws_map_and_entity() {
    let mut world = room_world(GameTick::Tick(16));
    let player = world.create_entity();
    world.add_position(player, Position { x: 5, y: 5 });
    world.add_appearance(
        player,
        Appearance {
            icon: '@',
            foreground: Color::Cyan,
            background: Color::Reset,
            modifiers: Vec::new(),
        },
    );
    let camera = world.create_entity();
    world.add_camera(camera);
    world.add_position(camera, Position { x: 5, y: 5 });

    let render = TextRenderSystem;
    render.run(&mut world);

    // The 10x10 canvas centers on (5, 5): the player sits at (5, 5) of the
    // canvas, and the wall at world (2, 2) lands on canvas (2, 2).
    assert_eq!(world.canvas.symbols[5][5].character, '@');
    assert_eq!(world.canvas.symbols[2][2].character, '#');
    assert_eq!(world.canvas.symbols[3][3].character, ' ');
}

#[test]
fn test_render_without_camera_leaves_canvas() {
    let mut world = room_world(GameTick::Tick(16));
    let render = TextRenderSystem;
    render.run(&mut world);
    for row in &world.canvas.symbols {
        for sym in row {
            assert_eq!(sym.character, ' ');
            assert_eq!(sym.foreground, Color::Rgb(0, 0, 0));
        }
    }
}

#[test]
fn test_render_void_beyond_map() {
    // Camera at the map corner: part of the window lies outside the map and
    // is drawn with the void glyph.
    let mut world = room_world(GameTick::Tick(16));
    let camera = world.create_entity();
    world.add_camera(camera);
    world.add_position(camera, Position { x: 0, y: 0 });

    let render = TextRenderSystem;
    render.run(&mut world);

    // Canvas cell (0, 0) shows world (-5, -5), outside the map.
    assert_eq!(world.canvas.symbols[0][0].character, '?');
    // Canvas cell (5, 5) shows world (0, 0), blank ground.
    assert_eq!(world.canvas.symbols[5][5].character, ' ');
    // Canvas cell (7, 7) shows world (2, 2), a wall.
    assert_eq!(world.canvas.symbols[7][7].character, '#');
}

#[test]
fn test_default_tick() {
    assert_eq!(GameTick::default(), GameTick::Tick(0));
}

#[test]
fn test_overlapping_entities_last_wins() {
    let mut world = room_world(GameTick::Tick(16));
    let under = world.create_entity();
    world.add_position(under, Position { x: 5, y: 5 });
    world.add_appearance(
        under,
        Appearance {
            icon: 'a',
            foreground: Color::Red,
            background: Color::Black,
            modifiers: Vec::new(),
        },
    );
    let over = world.create_entity();
    world.add_position(over, Position { x: 5, y: 5 });
    world.add_appearance(
        over,
        Appearance {
            icon: 'b',
            foreground: Color::Green,
            background: Color::Black,
            modifiers: Vec::new(),
        },
    );
    let camera = world.create_entity();
    world.add_camera(camera);
    world.add_position(camera, Position { x: 5, y: 5 });

    let render = TextRenderSystem;
    render.run(&mut world);

    assert_eq!(world.canvas.symbols[5][5].character, 'b');
    assert_eq!(world.canvas.symbols[5][5].foreground, Color::Green);
}

#[test]
fn test_renderer_picks_lowest_camera() {
    let mut world = room_world(GameTick::Tick(16));
    let cam_a = world.create_entity();
    world.add_camera(cam_a);
    world.add_position(cam_a, Position { x: 0, y: 0 });
    let cam_b = world.create_entity();
    world.add_camera(cam_b);
    world.add_position(cam_b, Position { x: 5, y: 5 });

    let render = TextRenderSystem;
    render.run(&mut world);

    // Centered on (0, 0), not (5, 5): the corner of the window is void.
    assert_eq!(world.canvas.symbols[0][0].character, '?');
}

#[test]
fn test_map_resource_is_kept() {
    let map = test_room();
    let canvas = TextCanvas::for_map(&map);
    let world = World::new(map, canvas, GameTick::Tick(0));
    assert_eq!(world.map.dimensions(), (10, 10));
    let (w, h) = world.canvas.dimensions();
    assert_eq!((w, h), (10, 10));
    let _ = TileMap::default();
}
