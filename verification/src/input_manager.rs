use vstd::prelude::*;
use crate::command::{Command, GameTick};
use crate::source::{FakeSource, InputEvent};

verus! {

/// The command a key character maps to: `k` up, `j` down, `h` left, `l`
/// right, `q` quit; every other key falls back to up.
pub open spec fn spec_match_key(key: char) -> Command {
    if key == 'j' {
        Command::Down
    } else if key == 'h' {
        Command::Left
    } else if key == 'l' {
        Command::Right
    } else if key == 'q' {
        Command::Quit
    } else {
        Command::Up
    }
}

/// Maps a key press to its command through the fixed key table.
pub fn match_key_event(key: char) -> (r: Command)
    ensures
        r == spec_match_key(key),
{
    match key {
        'k' => Command::Up,
        'j' => Command::Down,
        'h' => Command::Left,
        'l' => Command::Right,
        'q' => Command::Quit,
        _ => Command::Up,
    }
}

/// The tick a raw event becomes: a key press carries its command; mouse and
/// resize events degrade to a plain tick.
pub open spec fn spec_match_event(deltatime_ms: u64, event: InputEvent) -> GameTick {
    match event {
        InputEvent::Key(c) => GameTick::Command(deltatime_ms, spec_match_key(c)),
        _ => GameTick::Tick(deltatime_ms),
    }
}

/// Turns one raw input event into a tick carrying `deltatime_ms`.
pub fn match_input_event(deltatime_ms: u64, event: InputEvent) -> (r: GameTick)
    ensures
        r == spec_match_event(deltatime_ms, event),
{
    match event {
        InputEvent::Key(c) => GameTick::Command(deltatime_ms, match_key_event(c)),
        InputEvent::Mouse => GameTick::Tick(deltatime_ms),
        InputEvent::Resize => GameTick::Tick(deltatime_ms),
    }
}

/// Turns the events of a replay source and the passage of time into one
/// ordered stream of ticks. A pending event becomes this frame's tick, with
/// zero deltatime since a replay source reads instantly; with no event
/// pending, one tick of the configured tick rate elapses instead.
pub struct InputManager {
    pub source: FakeSource,
    /// Deltatime of a tick emitted when no input is pending, in milliseconds.
    pub tick_rate_ms: u64,
    /// Longest time the foreground would wait for any one tick; a replay
    /// source answers at once, so it is never reached.
    pub tick_timeout_ms: u64,
}

impl InputManager {
    pub fn new(source: FakeSource, tick_rate_ms: u64, tick_timeout_ms: u64) -> (r: InputManager)
        ensures
            r.source == source,
            r.tick_rate_ms == tick_rate_ms,
            r.tick_timeout_ms == tick_timeout_ms,
    {
        InputManager { source, tick_rate_ms, tick_timeout_ms }
    }

    /// The tick the next call to `tick` returns.
    pub open spec fn spec_next_tick(&self) -> GameTick {
        if self.source.events@.len() > 0 {
            spec_match_event(0, self.source.events@[0])
        } else {
            GameTick::Tick(self.tick_rate_ms)
        }
    }

    /// Returns the next tick of the stream, consuming one queued event if any
    /// is pending. A replay source never blocks, so this cannot time out.
    pub fn tick(&mut self) -> (r: GameTick)
        ensures
            r == old(self).spec_next_tick(),
            final(self).tick_rate_ms == old(self).tick_rate_ms,
            final(self).tick_timeout_ms == old(self).tick_timeout_ms,
            old(self).source.events@.len() > 0 ==> final(self).source.events@ == old(
                self,
            ).source.events@.subrange(1, old(self).source.events@.len() as int),
            old(self).source.events@.len() == 0 ==> final(self).source.events@ == old(
                self,
            ).source.events@,
    {
        if self.source.has_event(self.tick_rate_ms) {
            match self.source.read() {
                Ok(event) => match_input_event(0, event),
                Err(_) => GameTick::Tick(self.tick_rate_ms),
            }
        } else {
            GameTick::Tick(self.tick_rate_ms)
        }
    }
}

} // verus!
