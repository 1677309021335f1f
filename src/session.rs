use vstd::prelude::*;

use crate::game::{Game, GameView};
use crate::geometry::Direction;

verus! {

/// Columns and rows that the frame around the board takes from the terminal.
pub const BORDER: u16 = 2;

/// Milliseconds between two simulation steps.
pub const TICK_MS: u64 = 120;

/// Milliseconds the loop rests between two iterations.
pub const IDLE_MS: u64 = 10;

/// A key the game reacts to; every other key is `Other`.
#[derive(Clone, Copy, Debug, PartialEq, Eq, Structural)]
pub enum Key {
    Up,
    Down,
    Left,
    Right,
    Escape,
    Space,
    Other,
}

/// What the loop is to do after a key.
#[derive(Clone, Copy, Debug, PartialEq, Eq, Structural)]
pub enum Response {
    Continue,
    /// A new game began: the tick clock starts again.
    RestartClock,
    Quit,
}

/// The panel drawn over the board, if any.
#[derive(Clone, Copy, Debug, PartialEq, Eq, Structural)]
pub enum Overlay {
    Hidden,
    GameOver,
    Paused,
}

/// The board extent left from `n` terminal cells once the frame is drawn.
pub open spec fn board_extent(n: u16) -> u16 {
    if n >= BORDER {
        (n - BORDER) as u16
    } else {
        0
    }
}

/// The direction an arrow key asks for.
pub open spec fn key_direction(k: Key) -> Option<Direction> {
    match k {
        Key::Up => Some(Direction::Up),
        Key::Down => Some(Direction::Down),
        Key::Left => Some(Direction::Left),
        Key::Right => Some(Direction::Right),
        _ => None,
    }
}

/// The abstract state of a session: the game, once the board size is known,
/// and whether play is paused.
pub struct SessionView {
    pub game: Option<GameView>,
    pub paused: bool,
}

impl SessionView {
    /// The game, if any, is in a state that play can reach.
    pub open spec fn wf(self) -> bool {
        self.game matches Some(g) ==> g.wf()
    }

    /// The state after a frame drawn on a terminal of `cols` by `rows`.
    ///
    /// The first board of at least one cell each way starts the game. A
    /// board of another size than the game's resizes the game and pauses.
    pub open spec fn after_frame(self, cols: u16, rows: u16) -> SessionView {
        let w = board_extent(cols);
        let h = board_extent(rows);
        match self.game {
            None => if w >= 1 && h >= 1 {
                SessionView { game: Some(GameView::fresh(w, h)), ..self }
            } else {
                self
            },
            Some(g) => if g.width == w && g.height == h {
                self
            } else {
                SessionView { game: Some(g.resized(w as int, h as int)), paused: true }
            },
        }
    }

    /// The state and response after a key event; only releases count.
    ///
    /// After the game is over, space starts a new one on the same board and
    /// escape quits. While paused, escape resumes. While playing, escape
    /// pauses and an arrow asks the snake to turn. Anything else is ignored.
    pub open spec fn after_key(self, key: Key, released: bool) -> (SessionView, Response) {
        if !released {
            (self, Response::Continue)
        } else {
            match self.game {
                None => (self, Response::Continue),
                Some(g) => if g.terminated {
                    match key {
                        Key::Space => if g.width >= 1 && g.height >= 1 {
                            (
                                SessionView {
                                    game: Some(GameView::fresh(g.width as u16, g.height as u16)),
                                    paused: false,
                                },
                                Response::RestartClock,
                            )
                        } else {
                            (self, Response::Continue)
                        },
                        Key::Escape => (self, Response::Quit),
                        _ => (self, Response::Continue),
                    }
                } else if self.paused {
                    if key == Key::Escape {
                        (SessionView { paused: false, ..self }, Response::Continue)
                    } else {
                        (self, Response::Continue)
                    }
                } else if key == Key::Escape {
                    (SessionView { paused: true, ..self }, Response::Continue)
                } else {
                    match key_direction(key) {
                        Some(d) => (
                            SessionView { game: Some(GameView { dir: g.turned(d), ..g }), ..self },
                            Response::Continue,
                        ),
                        None => (self, Response::Continue),
                    }
                },
            }
        }
    }

    /// A tick is due: a game runs, unpaused, and a full interval has passed.
    pub open spec fn tick_due(self, elapsed_ms: u64) -> bool {
        &&& self.game matches Some(g)
        &&& !g.terminated
        &&& !self.paused
        &&& elapsed_ms >= TICK_MS
    }

    /// The overlay for this state: game over before pause.
    pub open spec fn overlay(self) -> Overlay {
        match self.game {
            Some(g) => if g.terminated {
                Overlay::GameOver
            } else if self.paused {
                Overlay::Paused
            } else {
                Overlay::Hidden
            },
            None => Overlay::Hidden,
        }
    }
}

/// The decisions of the frame loop: when the game starts, how it follows the
/// terminal's size, what keys do, and when the simulation steps.
pub struct Session {
    game: Option<Game>,
    paused: bool,
}

impl View for Session {
    type V = SessionView;

    closed spec fn view(&self) -> SessionView {
        SessionView {
            game: match self.game {
                Some(g) => Some(g@),
                None => None,
            },
            paused: self.paused,
        }
    }
}

impl Session {
    /// The game, if any, is in a state that play can reach.
    pub open spec fn wf(&self) -> bool {
        self@.wf()
    }

    /// A session whose game waits for the first frame.
    pub fn new() -> (s: Session)
        ensures
            s.wf(),
            s@ == (SessionView { game: None, paused: false }),
    {
        Session { game: None, paused: false }
    }

    /// Takes the terminal's size at a frame: starts the game on the first
    /// usable board, and resizes and pauses it when the board changes.
    pub fn frame(&mut self, cols: u16, rows: u16)
        requires
            old(self).wf(),
        ensures
            final(self).wf(),
            final(self)@ == old(self)@.after_frame(cols, rows),
    {
        let w = cols.saturating_sub(BORDER);
        let h = rows.saturating_sub(BORDER);
        match &mut self.game {
            None => {
                if w >= 1 && h >= 1 {
                    self.game = Some(Game::new(w, h));
                }
            },
            Some(g) => {
                if g.width() != w || g.height() != h {
                    g.resize(w, h);
                    self.paused = true;
                }
            },
        }
    }

    /// Handles one key event, of which only releases count, and says what the
    /// loop is to do next.
    pub fn key(&mut self, key: Key, released: bool) -> (r: Response)
        requires
            old(self).wf(),
        ensures
            final(self).wf(),
            (final(self)@, r) == old(self)@.after_key(key, released),
    {
        if !released {
            return Response::Continue;
        }
        let paused = self.paused;
        match &mut self.game {
            None => Response::Continue,
            Some(g) => {
                if g.is_terminated() {
                    match key {
                        Key::Space => {
                            let (w, h) = (g.width(), g.height());
                            if w >= 1 && h >= 1 {
                                *g = Game::new(w, h);
                                self.paused = false;
                                Response::RestartClock
                            } else {
                                Response::Continue
                            }
                        },
                        Key::Escape => Response::Quit,
                        _ => Response::Continue,
                    }
                } else if paused {
                    if key == Key::Escape {
                        self.paused = false;
                    }
                    Response::Continue
                } else {
                    match key {
                        Key::Escape => self.paused = true,
                        Key::Up => g.change_dir(Direction::Up),
                        Key::Down => g.change_dir(Direction::Down),
                        Key::Left => g.change_dir(Direction::Left),
                        Key::Right => g.change_dir(Direction::Right),
                        _ => {},
                    }
                    Response::Continue
                }
            },
        }
    }

    /// Steps the game when a tick is due, `elapsed_ms` after the last one.
    /// Returns whether it stepped, after which the clock starts again.
    pub fn tick(&mut self, elapsed_ms: u64) -> (stepped: bool)
        requires
            old(self).wf(),
        ensures
            final(self).wf(),
            stepped == old(self)@.tick_due(elapsed_ms),
            stepped ==> final(self)@.paused == old(self)@.paused && (final(self)@.game matches Some(
                after,
            ) && old(self)@.game.unwrap().steps_to(after)),
            !stepped ==> final(self)@ == old(self)@,
    {
        if self.paused || elapsed_ms < TICK_MS {
            return false;
        }
        match &mut self.game {
            Some(g) => {
                if g.is_terminated() {
                    false
                } else {
                    g.step();
                    true
                }
            },
            None => false,
        }
    }

    /// The overlay to draw over the board.
    pub fn overlay(&self) -> (r: Overlay)
        ensures
            r == self@.overlay(),
    {
        match &self.game {
            Some(g) => if g.is_terminated() {
                Overlay::GameOver
            } else if self.paused {
                Overlay::Paused
            } else {
                Overlay::Hidden
            },
            None => Overlay::Hidden,
        }
    }

    /// The game, once the first frame has sized the board.
    pub fn game(&self) -> (r: Option<&Game>)
        ensures
            match r {
                Some(g) => self@.game == Some(g@),
                None => self@.game is None,
            },
    {
        self.game.as_ref()
    }

    pub fn is_paused(&self) -> (r: bool)
        ensures
            r == self@.paused,
    {
        self.paused
    }
}

} // verus!
