use vstd::prelude::*;

verus! {

/// A player action produced by mapping a key press.
#[derive(Copy, Clone, PartialEq, Eq, Structural, Debug)]
pub enum Command {
    Up,
    Down,
    Left,
    Right,
    Quit,
}

/// One unit of game time: either a plain deltatime pulse, or a pulse that also
/// carries a player command. Deltatime is measured in milliseconds.
#[derive(Copy, Clone, PartialEq, Eq, Structural, Debug)]
pub enum GameTick {
    Tick(u64),
    Command(u64, Command),
}

impl Default for GameTick {
    fn default() -> (r: Self)
        ensures
            r == GameTick::Tick(0u64),
    {
        GameTick::Tick(0)
    }
}

/// The deltatime carried by a tick, in milliseconds.
pub open spec fn deltatime_of(t: GameTick) -> u64 {
    match t {
        GameTick::Tick(d) => d,
        GameTick::Command(d, _) => d,
    }
}

} // verus!
