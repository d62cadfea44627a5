use tilegame::canvas::{Modifier, TextCanvas};
use tilegame::color::Color;
use tilegame::command::{Command, GameTick};
use tilegame::command_system::CommandSystem;
use tilegame::component::Position;
use tilegame::follow_system::FollowSystem;
use tilegame::game_screen::{check_time_to_quit, create_canvas, initialize_map, GameScreen};
use tilegame::input_manager::InputManager;
use tilegame::map::test_room;
use tilegame::screen_manager::Callback;
use tilegame::source::{FakeSource, InputEvent};
use tilegame::text_render_system::world_to_canvas;
use tilegame::world::World;

#[test]
fn test_check_time_to_quit() {
    assert!(check_time_to_quit(GameTick::Command(16, Command::Quit)));
    assert!(!check_time_to_quit(GameTick::Command(16, Command::Up)));
    assert!(!check_time_to_quit(GameTick::Tick(16)));
}

#[test]
fn test_initialize_map() {
    let map = initialize_map();
    assert_eq!(map.dimensions(), (42, 42));
}

#[test]
fn test_create_canvas_clamps_to_terminal() {
    let map = initialize_map();
    assert_eq!(create_canvas(&map, 80, 24).dimensions(), (42, 24));
    assert_eq!(create_canvas(&map, 20, 60).dimensions(), (20, 42));
    assert_eq!(create_canvas(&map, 80, 60).dimensions(), (42, 42));
}

#[test]
fn test_game_screen_setup() {
    let screen = GameScreen::new(80, 24);
    assert_eq!(screen.world.positions.len(), 2);
    // The player: command-responding, at (4, 4), drawn as '@'.
    assert_eq!(screen.world.positions[0], Some(Position { x: 4, y: 4 }));
    assert!(screen.world.command_responses[0]);
    assert_eq!(screen.world.appearances[0].as_ref().unwrap().icon, '@');
    // The camera follows the player at zero offset.
    assert!(screen.world.cameras[1]);
    let follow = screen.world.follows[1].unwrap();
    assert_eq!(follow.target, 0);
    assert_eq!((follow.offset_x, follow.offset_y), (0, 0));
    assert_eq!(screen.world.tick, GameTick::Tick(0));
    assert_eq!(screen.world.canvas.dimensions(), (42, 24));
    assert_eq!(screen.callbacks.len(), 0);
}

#[test]
fn test_game_screen_render_moves_player_and_camera() {
    let mut screen = GameScreen::new(80, 24);
    screen.render(GameTick::Command(16, Command::Right));

    // The player stepped right; the camera caught up the same pass.
    assert_eq!(screen.world.positions[0], Some(Position { x: 4, y: 5 }));
    assert_eq!(screen.world.positions[1], Some(Position { x: 4, y: 5 }));
    assert_eq!(screen.callbacks.len(), 0);

    // With the camera glued to the player, the player draws at the canvas
    // center.
    let (w, h) = screen.world.canvas.dimensions();
    assert_eq!(screen.world.canvas.symbols[w / 2][h / 2].character, '@');
}

#[test]
fn test_game_screen_quit_enqueues_callback() {
    let mut screen = GameScreen::new(80, 24);
    screen.render(GameTick::Command(16, Command::Quit));
    assert_eq!(screen.callbacks, vec![Callback::Quit]);

    let drained = screen.get_screen_manager_callbacks();
    assert_eq!(drained, vec![Callback::Quit]);
    assert_eq!(screen.callbacks.len(), 0);
}

/// A fake source preloaded with the single key 'k' drives the input manager;
/// within one command tick, a command-responding entity at (5, 5) on an open
/// part of the ten-by-ten map moves to (4, 5) after one system pass.
#[test]
fn test_fake_source_drives_one_move() {
    let mut input_manager = InputManager::new(
        FakeSource::new(vec![InputEvent::Key('k')]),
        16,
        1000,
    );
    let tick = input_manager.tick();
    assert_eq!(tick, GameTick::Command(0, Command::Up));

    let map = test_room();
    let canvas = TextCanvas::for_map(&map);
    let mut world = World::new(map, canvas, GameTick::Tick(0));
    let e = world.create_entity();
    world.add_position(e, Position { x: 5, y: 5 });
    world.add_command_response(e);
    world.set_tick(tick);

    let system = CommandSystem;
    system.run(&mut world);
    let follow = FollowSystem;
    follow.run(&mut world);

    assert_eq!(world.position(e), Some(Position { x: 4, y: 5 }));
}

#[test]
fn test_projection_center() {
    // A world coordinate at the camera center projects to (w / 2, h / 2).
    let canvas = TextCanvas::with_size(10, 8);
    let cam = Position { x: 30, y: -4 };
    assert_eq!(world_to_canvas(30, -4, &cam, &canvas), Some((5, 4)));
}

#[test]
fn test_projection_outside_window() {
    // For an even canvas, coordinates outside camera +/- half the canvas
    // project to nothing.
    let canvas = TextCanvas::with_size(10, 10);
    let cam = Position { x: 0, y: 0 };
    assert_eq!(world_to_canvas(-6, 0, &cam, &canvas), None);
    assert_eq!(world_to_canvas(5, 0, &cam, &canvas), None);
    assert_eq!(world_to_canvas(0, -6, &cam, &canvas), None);
    assert_eq!(world_to_canvas(0, 5, &cam, &canvas), None);
    // Just inside the window they land on the canvas.
    assert_eq!(world_to_canvas(-5, -5, &cam, &canvas), Some((0, 0)));
    assert_eq!(world_to_canvas(4, 4, &cam, &canvas), Some((9, 9)));
}

#[test]
fn test_canvas_cell_operations() {
    let mut canvas = TextCanvas::with_size(4, 3);
    assert_eq!(canvas.dimensions(), (4, 3));
    assert!(canvas.in_bounds(3, 2));
    assert!(!canvas.in_bounds(4, 0));
    assert!(!canvas.in_bounds(-1, 0));

    canvas.set_character(1, 2, 'x');
    assert_eq!(canvas.symbols[1][2].character, 'x');

    canvas.set_fg_color(1, 2, Color::Red);
    canvas.set_bg_color(1, 2, Color::Blue);
    assert_eq!(canvas.symbols[1][2].foreground, Color::Red);
    assert_eq!(canvas.symbols[1][2].background, Color::Blue);

    canvas.add_modifier(1, 2, Modifier::Bold);
    canvas.add_modifier(1, 2, Modifier::Italic);
    assert_eq!(canvas.symbols[1][2].modifiers, vec![Modifier::Bold, Modifier::Italic]);
    canvas.clear_modifiers(1, 2);
    assert_eq!(canvas.symbols[1][2].modifiers.len(), 0);

    // Untouched cells keep the default symbol.
    assert_eq!(canvas.symbols[0][0].character, ' ');
}

#[test]
fn test_canvas_apply_colors() {
    let mut canvas = TextCanvas::with_size(2, 2);
    canvas.set_fg_color(0, 0, Color::Rgb(0, 0, 0));
    canvas.apply_fg_color(0, 0, Color::Rgb(255, 255, 255), 1, 2);
    assert_eq!(canvas.symbols[0][0].foreground, Color::Rgb(127, 127, 127));

    canvas.set_bg_color(0, 0, Color::Rgb(100, 100, 100));
    canvas.apply_bg_color(0, 0, Color::Rgb(0, 0, 0), 1, 1);
    assert_eq!(canvas.symbols[0][0].background, Color::Rgb(0, 0, 0));
}
