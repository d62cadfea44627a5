use tilegame::command::{Command, GameTick};
use tilegame::input_manager::{match_input_event, match_key_event, InputManager};
use tilegame::source::{FakeSource, InputEvent, SourceError};

/// Builds a manager at the usual sixteen millisecond tick rate.
fn make_input_manager(events: Vec<InputEvent>) -> InputManager {
    InputManager::new(FakeSource::new(events), 16, 1000)
}

/// Pulls ticks until `number_events` command ticks have been seen, or the
/// queue has clearly run dry.
fn get_input_events(manager: &mut InputManager, number_events: u32) -> Vec<GameTick> {
    let mut results = Vec::new();
    let mut commands_so_far = 0;
    while commands_so_far < number_events {
        let tick = manager.tick();
        if let GameTick::Command(_, _) = tick {
            commands_so_far += 1;
        }
        results.push(tick);
    }
    results
}

fn tick_has_command(tick: GameTick, command: Command) -> bool {
    if let GameTick::Command(_, tick_command) = tick {
        tick_command == command
    } else {
        false
    }
}

#[test]
fn test_simple_input() {
    let mut input_manager = make_input_manager(vec![InputEvent::Key('k')]);

    let results = get_input_events(&mut input_manager, 1);

    assert!(results.iter().any(|&t| tick_has_command(t, Command::Up)));
}

#[test]
fn test_no_input() {
    let mut input_manager = make_input_manager(vec![]);

    let results = get_input_events(&mut input_manager, 0);

    let all_ticks = results.iter().all(|t| matches!(t, GameTick::Tick(_)));
    assert!(all_ticks);

    // With nothing queued, every tick is a plain tick of the tick rate.
    assert_eq!(input_manager.tick(), GameTick::Tick(16));
    assert_eq!(input_manager.tick(), GameTick::Tick(16));
}

#[test]
fn test_multiple_keys() {
    let mut source = FakeSource::new(vec![
        InputEvent::Key('a'),
        InputEvent::Key('b'),
        InputEvent::Key('c'),
    ]);

    let mut seen = Vec::new();
    while source.has_event(16) {
        seen.push(source.read().unwrap());
    }

    assert!(seen.contains(&InputEvent::Key('a')));
    assert!(seen.contains(&InputEvent::Key('b')));
    assert!(seen.contains(&InputEvent::Key('c')));
}

#[test]
fn test_key_order() {
    let mut source = FakeSource::new(vec![
        InputEvent::Key('1'),
        InputEvent::Key('2'),
        InputEvent::Key('3'),
    ]);

    assert_eq!(source.read(), Ok(InputEvent::Key('1')));
    assert_eq!(source.read(), Ok(InputEvent::Key('2')));
    assert_eq!(source.read(), Ok(InputEvent::Key('3')));
}

#[test]
fn test_read_from_empty_source_fails() {
    let mut source = FakeSource::new(vec![]);
    assert!(!source.has_event(16));
    assert_eq!(source.read(), Err(SourceError::ExhaustedSource));
}

#[test]
fn test_key_table() {
    assert_eq!(match_key_event('k'), Command::Up);
    assert_eq!(match_key_event('j'), Command::Down);
    assert_eq!(match_key_event('h'), Command::Left);
    assert_eq!(match_key_event('l'), Command::Right);
    assert_eq!(match_key_event('q'), Command::Quit);
    // Unrecognized keys fall back to the configured default.
    assert_eq!(match_key_event('z'), Command::Up);
    assert_eq!(match_key_event(' '), Command::Up);
}

#[test]
fn test_match_input_event() {
    assert_eq!(
        match_input_event(7, InputEvent::Key('q')),
        GameTick::Command(7, Command::Quit)
    );
    assert_eq!(match_input_event(7, InputEvent::Mouse), GameTick::Tick(7));
    assert_eq!(match_input_event(7, InputEvent::Resize), GameTick::Tick(7));
}

#[test]
fn test_tick_consumes_one_event() {
    let mut input_manager = make_input_manager(vec![InputEvent::Key('j'), InputEvent::Mouse]);
    assert_eq!(input_manager.tick(), GameTick::Command(0, Command::Down));
    assert_eq!(input_manager.tick(), GameTick::Tick(0));
    assert_eq!(input_manager.tick(), GameTick::Tick(16));
}
