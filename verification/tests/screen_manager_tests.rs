use tilegame::command::{Command, GameTick};
use tilegame::screen_manager::{
    remove_input_from_tick, render, Callback, PopupRequest, ScreenManager, ScreenRequest,
};
use tilegame::source::InputEvent;
use tilegame::views::{DebugView, PopupView, ScreenView};

fn debug_screen(tag: u32) -> ScreenView {
    ScreenView::Debug(DebugView::new(tag))
}

fn debug_popup(tag: u32) -> PopupView {
    PopupView::Debug(DebugView::new(tag))
}

fn screen_view(view: &ScreenView) -> &DebugView {
    match view {
        ScreenView::Debug(d) => d,
        ScreenView::Game(_) => panic!("expected a recording view"),
    }
}

fn popup_view(view: &PopupView) -> &DebugView {
    match view {
        PopupView::Debug(d) => d,
    }
}

#[test]
fn test_new() {
    let screen_manager = ScreenManager::new();
    assert!(!screen_manager.should_quit);
    assert_eq!(screen_manager.screens.len(), 0);
    assert_eq!(screen_manager.popups.len(), 0);
}

#[test]
fn test_push_screen() {
    let mut screen_manager = ScreenManager::new();

    screen_manager.push_screen(debug_screen(1));

    assert_eq!(screen_manager.screens.len(), 1);
}

#[test]
fn test_pop_screen() {
    let mut screen_manager = ScreenManager::new();

    screen_manager.push_screen(debug_screen(2));
    screen_manager.push_screen(debug_screen(1));

    let popped = screen_manager.pop_screen().unwrap();

    // Popping changes the length and hands back the top of the stack.
    assert_eq!(screen_manager.screens.len(), 1);
    assert_eq!(screen_view(&popped).tag, 1);
}

#[test]
fn test_push_popup() {
    let mut screen_manager = ScreenManager::new();

    screen_manager.push_popup(debug_popup(1));

    assert_eq!(screen_manager.popups.len(), 1);
}

#[test]
fn test_pop_popup() {
    let mut screen_manager = ScreenManager::new();

    screen_manager.push_popup(debug_popup(2));
    screen_manager.push_popup(debug_popup(1));

    let popped = screen_manager.pop_popup().unwrap();

    assert_eq!(screen_manager.popups.len(), 1);
    assert_eq!(popup_view(&popped).tag, 1);
}

#[test]
fn test_tear_down_called() {
    let mut screen_manager = ScreenManager::new();
    screen_manager.push_screen(debug_screen(1));
    screen_manager.push_popup(debug_popup(2));

    screen_manager.tear_down();

    let screen = screen_manager.pop_screen().unwrap();
    let popup = screen_manager.pop_popup().unwrap();
    assert!(screen_view(&screen).torn_down);
    assert!(popup_view(&popup).torn_down);
}

/// Commands are handled correctly with screens alone: only the topmost
/// screen receives the tick.
#[test]
fn test_render_screens() {
    let mut screen_manager = ScreenManager::new();

    screen_manager.push_screen(debug_screen(2));
    screen_manager.push_screen(debug_screen(1));

    let test_tick = GameTick::Command(100, Command::Up);

    render(&mut screen_manager.screens, &mut screen_manager.popups, test_tick);

    let top = screen_view(&screen_manager.screens[1]);
    let bottom = screen_view(&screen_manager.screens[0]);
    assert_eq!(top.received, vec![test_tick]);
    assert_eq!(bottom.received, Vec::<GameTick>::new());
}

/// Commands are handled correctly with screens and popups together: the top
/// popup gets the command, everyone else visited gets the deltatime tick.
#[test]
fn test_render_popup_and_screen() {
    let mut screen_manager = ScreenManager::new();

    screen_manager.push_popup(debug_popup(4));
    screen_manager.push_popup(debug_popup(3));
    screen_manager.push_screen(debug_screen(2));
    screen_manager.push_screen(debug_screen(1));

    let test_tick = GameTick::Command(100, Command::Up);
    let deltatime_tick = remove_input_from_tick(test_tick);

    render(&mut screen_manager.screens, &mut screen_manager.popups, test_tick);

    let popup_top = popup_view(&screen_manager.popups[1]);
    let popup_bottom = popup_view(&screen_manager.popups[0]);
    let screen_top = screen_view(&screen_manager.screens[1]);
    let screen_bottom = screen_view(&screen_manager.screens[0]);

    assert_eq!(popup_top.received, vec![test_tick]);
    assert_eq!(popup_bottom.received, vec![deltatime_tick]);
    assert_eq!(screen_top.received, vec![deltatime_tick]);
    assert_eq!(screen_bottom.received, Vec::<GameTick>::new());
}

/// Keyboard input is handled correctly with just screens.
#[test]
fn test_main_loop_screen() {
    let mut screen_manager = ScreenManager::debug_new(vec![InputEvent::Key('k')]);

    screen_manager.push_screen(ScreenView::Debug(DebugView::with_quit_after(1, 10)));

    screen_manager.start_main_loop(100);

    assert!(screen_manager.should_quit);
    let screen = screen_manager.pop_screen().unwrap();
    let ticks = &screen_view(&screen).received;

    let an_input = ticks.iter().find(|&&tick| tick == GameTick::Command(0, Command::Up));
    assert_ne!(an_input, None);
}

/// Keyboard input is handled correctly with just popups.
#[test]
fn test_main_loop_popup() {
    let mut screen_manager = ScreenManager::debug_new(vec![InputEvent::Key('k')]);

    screen_manager.push_popup(PopupView::Debug(DebugView::with_quit_after(1, 10)));

    screen_manager.start_main_loop(100);

    assert!(screen_manager.should_quit);
    let popup = screen_manager.pop_popup().unwrap();
    let ticks = &popup_view(&popup).received;

    let an_input = ticks.iter().find(|&&tick| tick == GameTick::Command(0, Command::Up));
    assert_ne!(an_input, None);
}

/// Keyboard input is handled correctly with both screens and popups: the
/// popup intercepts the command, the screen never sees it.
#[test]
fn test_main_loop_screens_and_popups() {
    let mut screen_manager = ScreenManager::debug_new(vec![InputEvent::Key('k')]);

    screen_manager.push_screen(ScreenView::Debug(DebugView::with_quit_after(1, 10)));
    screen_manager.push_popup(PopupView::Debug(DebugView::with_quit_after(2, 10)));

    screen_manager.start_main_loop(100);

    let popup = screen_manager.pop_popup().unwrap();
    let screen = screen_manager.pop_screen().unwrap();

    let popup_input = popup_view(&popup)
        .received
        .iter()
        .any(|&tick| tick == GameTick::Command(0, Command::Up));
    let screen_input = screen_view(&screen)
        .received
        .iter()
        .any(|&tick| matches!(tick, GameTick::Command(_, _)));

    assert!(popup_input);  // The popup should have received the input,
    assert!(!screen_input);  // and not the screen.
}

/// Callback ordering: top popup's callback first, then the bottom popup's,
/// then the top screen's, then the bottom screen's.
#[test]
fn test_callback_order() {
    let mut screen_manager = ScreenManager::new();

    let mut p2 = DebugView::new(2);
    p2.add_screen_manager_callback(Callback::Quit);
    let mut p1 = DebugView::new(1);
    p1.add_screen_manager_callback(Callback::PopScreen);
    let mut s2 = DebugView::new(4);
    s2.add_screen_manager_callback(Callback::Quit);
    let mut s1 = DebugView::new(3);
    s1.add_screen_manager_callback(Callback::PopPopup);

    screen_manager.push_popup(PopupView::Debug(p2));
    screen_manager.push_popup(PopupView::Debug(p1));
    screen_manager.push_screen(ScreenView::Debug(s2));
    screen_manager.push_screen(ScreenView::Debug(s1));

    screen_manager.update_callback_queue();

    assert_eq!(
        screen_manager.callback_queue,
        vec![Callback::PopScreen, Callback::Quit, Callback::PopPopup, Callback::Quit]
    );
}

/// Command exclusivity: with popups present, exactly one view sees the
/// command and every other visited view sees the same deltatime.
#[test]
fn test_command_exclusivity() {
    let mut screen_manager = ScreenManager::new();
    screen_manager.push_popup(debug_popup(3));
    screen_manager.push_popup(debug_popup(2));
    screen_manager.push_popup(debug_popup(1));
    screen_manager.push_screen(debug_screen(4));

    let tick = GameTick::Command(42, Command::Left);
    render(&mut screen_manager.screens, &mut screen_manager.popups, tick);

    let mut commands_seen = 0;
    for popup in &screen_manager.popups {
        match popup_view(popup).received[0] {
            GameTick::Command(d, _) => {
                commands_seen += 1;
                assert_eq!(d, 42);
            }
            GameTick::Tick(d) => assert_eq!(d, 42),
        }
    }
    match screen_view(&screen_manager.screens[0]).received[0] {
        GameTick::Command(_, _) => panic!("the screen must not see the command"),
        GameTick::Tick(d) => assert_eq!(d, 42),
    }
    assert_eq!(commands_seen, 1);
    // And the one command went to the topmost popup.
    assert!(matches!(
        popup_view(&screen_manager.popups[2]).received[0],
        GameTick::Command(_, Command::Left)
    ));
}

#[test]
fn test_quit_callback_sets_flag() {
    let mut screen_manager = ScreenManager::new();
    let mut view = DebugView::new(1);
    view.add_screen_manager_callback(Callback::Quit);
    screen_manager.push_screen(ScreenView::Debug(view));

    screen_manager.handle_callbacks();

    assert!(screen_manager.should_quit);
    assert_eq!(screen_manager.callback_queue.len(), 0);
}

#[test]
fn test_pop_callbacks_shrink_stacks() {
    let mut screen_manager = ScreenManager::new();
    screen_manager.push_screen(debug_screen(2));
    let mut top = DebugView::new(1);
    top.add_screen_manager_callback(Callback::PopScreen);
    top.add_screen_manager_callback(Callback::PopPopup);
    screen_manager.push_screen(ScreenView::Debug(top));
    screen_manager.push_popup(debug_popup(3));

    screen_manager.handle_callbacks();

    assert_eq!(screen_manager.screens.len(), 1);
    assert_eq!(screen_manager.popups.len(), 0);
    assert!(!screen_manager.should_quit);
}

#[test]
fn test_push_callbacks_grow_stacks() {
    let mut screen_manager = ScreenManager::new();
    let mut view = DebugView::new(1);
    view.add_screen_manager_callback(Callback::PushPopup(PopupRequest::Debug {
        tag: 9,
        quit_after: None,
    }));
    view.add_screen_manager_callback(Callback::PushScreen(ScreenRequest::Debug {
        tag: 8,
        quit_after: Some(3),
    }));
    screen_manager.push_screen(ScreenView::Debug(view));

    screen_manager.handle_callbacks();

    // The most recently added callback runs first: the screen is pushed,
    // then the popup.
    assert_eq!(screen_manager.screens.len(), 2);
    assert_eq!(screen_manager.popups.len(), 1);
    assert_eq!(screen_view(&screen_manager.screens[1]).tag, 8);
    assert_eq!(screen_view(&screen_manager.screens[1]).quit_after, Some(3));
    assert_eq!(popup_view(&screen_manager.popups[0]).tag, 9);
    assert!(!screen_manager.should_quit);
}

#[test]
fn test_push_game_screen_callback() {
    let mut screen_manager = ScreenManager::new();
    let mut view = DebugView::new(1);
    view.add_screen_manager_callback(Callback::PushScreen(ScreenRequest::Game {
        terminal_width: 80,
        terminal_height: 24,
    }));
    screen_manager.push_screen(ScreenView::Debug(view));

    screen_manager.handle_callbacks();

    assert_eq!(screen_manager.screens.len(), 2);
    match &screen_manager.screens[1] {
        ScreenView::Game(game) => assert_eq!(game.world.positions.len(), 2),
        ScreenView::Debug(_) => panic!("expected a game screen"),
    }
}

#[test]
fn test_downgrade() {
    let command_tick = GameTick::Command(5, Command::Up);
    assert_eq!(remove_input_from_tick(command_tick), GameTick::Tick(5));
    assert_eq!(remove_input_from_tick(GameTick::Tick(7)), GameTick::Tick(7));
    // Downgrading twice is downgrading once.
    assert_eq!(
        remove_input_from_tick(remove_input_from_tick(command_tick)),
        remove_input_from_tick(command_tick)
    );
}
