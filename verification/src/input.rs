//! What the game does with one input event.

use vstd::prelude::*;
use crate::game::{flipped, Board, GameState, State};
use crate::grid::{blank, hovered, painted};

verus! {

/// A mouse button.
#[derive(Clone, Copy, Debug, PartialEq, Eq, Structural)]
pub enum Button {
    Left,
    Right,
    Other,
}

/// A key, as far as the game tells keys apart.
#[derive(Clone, Copy, Debug, PartialEq, Eq, Structural)]
pub enum Key {
    Escape,
    Space,
    S,
    L,
    R,
    Other,
}

/// An input event. Coordinates are canvas pixels.
#[derive(Clone, Copy, Debug, PartialEq, Eq, Structural)]
pub enum Event {
    /// A key went down.
    KeyDown { key: Key },
    /// A mouse button went down at (`x`, `y`).
    ButtonDown { x: i32, y: i32, button: Button },
    /// The pointer moved to (`x`, `y`); `left` and `right` say which buttons
    /// are held.
    Motion { x: i32, y: i32, left: bool, right: bool },
    /// Anything else.
    Other,
}

/// What is left for the caller to do after an event.
#[derive(Clone, Copy, Debug, PartialEq, Eq, Structural)]
pub enum Action {
    /// Nothing.
    Continue,
    /// Leave the program.
    Exit,
    /// Write the dump of the grid out.
    Save,
    /// Read a dump in and load it.
    Load,
}

/// The board after a stroke at (`x`, `y`) if the game is paused, and the
/// board itself if it is playing.
pub open spec fn edited(b: Board, x: int, y: int, erase: bool) -> Board {
    match b.mode {
        State::Paused => Board { cells: painted(b.cells, x, y, erase), mode: b.mode },
        State::Playing => b,
    }
}

/// The board and the caller's task after `ev`.
///
/// Escape ends the program and Space switches the mode, whatever the mode.
/// Everything else has an effect only while the game is paused: the left
/// button paints, the right one erases, the bare pointer moves the hover
/// mark, `R` clears the grid, and `S` and `L` ask for a save and a load.
pub open spec fn react(b: Board, ev: Event) -> (Board, Action) {
    match ev {
        Event::KeyDown { key } => match key {
            Key::Escape => (b, Action::Exit),
            Key::Space => (Board { cells: b.cells, mode: flipped(b.mode) }, Action::Continue),
            Key::S => match b.mode {
                State::Paused => (b, Action::Save),
                State::Playing => (b, Action::Continue),
            },
            Key::L => match b.mode {
                State::Paused => (b, Action::Load),
                State::Playing => (b, Action::Continue),
            },
            Key::R => match b.mode {
                State::Paused => (Board { cells: blank(), mode: b.mode }, Action::Continue),
                State::Playing => (b, Action::Continue),
            },
            Key::Other => (b, Action::Continue),
        },
        Event::ButtonDown { x, y, button } => match button {
            Button::Left => (edited(b, x as int, y as int, false), Action::Continue),
            Button::Right => (edited(b, x as int, y as int, true), Action::Continue),
            Button::Other => (b, Action::Continue),
        },
        Event::Motion { x, y, left, right } => if left {
            (edited(b, x as int, y as int, false), Action::Continue)
        } else if right {
            (edited(b, x as int, y as int, true), Action::Continue)
        } else {
            match b.mode {
                State::Paused => (
                    Board { cells: hovered(b.cells, x as int, y as int), mode: b.mode },
                    Action::Continue,
                ),
                State::Playing => (b, Action::Continue),
            }
        },
        Event::Other => (b, Action::Continue),
    }
}

impl GameState {
    /// Applies one input event to the game and says what is left for the
    /// caller to do.
    pub fn handle(&mut self, ev: Event) -> (action: Action)
        ensures
            final(self)@ == react(old(self)@, ev).0,
            action == react(old(self)@, ev).1,
    {
        let paused: bool = self.state() == State::Paused;
        match ev {
            Event::KeyDown { key } => match key {
                Key::Escape => Action::Exit,
                Key::Space => {
                    self.toggle();
                    Action::Continue
                },
                Key::S => if paused {
                    Action::Save
                } else {
                    Action::Continue
                },
                Key::L => if paused {
                    Action::Load
                } else {
                    Action::Continue
                },
                Key::R => {
                    if paused {
                        self.clear();
                    }
                    Action::Continue
                },
                Key::Other => Action::Continue,
            },
            Event::ButtonDown { x, y, button } => {
                if paused {
                    match button {
                        Button::Left => self.draw_point(x, y, false),
                        Button::Right => self.draw_point(x, y, true),
                        Button::Other => {},
                    }
                }
                Action::Continue
            },
            Event::Motion { x, y, left, right } => {
                if paused {
                    if left {
                        self.draw_point(x, y, false);
                    } else if right {
                        self.draw_point(x, y, true);
                    } else {
                        self.hover(x, y);
                    }
                }
                Action::Continue
            },
            Event::Other => Action::Continue,
        }
    }
}

} // verus!
