//! The per-tick state machine of a round: interpreting input events,
//! advancing the snake, eating and re-placing fruit, detecting death, and
//! the menu shown after it. The session owns all game state; a caller runs
//! the fixed-delay tick loop, feeds every pending event in, and renders from
//! the reports handed back.

use vstd::prelude::*;
use crate::snake::Direction;
use crate::snake::SnakeInfo;
use crate::snake::SnakeModel;
use crate::snake::is_dead_spec;
use crate::snake::set_heading_spec;
use crate::fruit::free_cell_exists;
use crate::fruit::fruit_ok;
use crate::fruit::place_new_fruit;

verus! {

/// The narrowest board on which a round can start: the snake's starting
/// column `width / 5` must lie inside the playable area.
pub const MIN_WIDTH: u16 = 5;

/// The lowest board on which a round can start: the snake's starting row
/// `height / 2` must lie inside the playable area.
pub const MIN_HEIGHT: u16 = 3;

/// How many cells of growth one fruit is worth.
pub const GROWTH_PER_FRUIT: u8 = 2;

/// Whether a board of `term_size` cells is large enough to start a round on.
pub open spec fn size_ok(term_size: (u16, u16)) -> bool {
    term_size.0 >= MIN_WIDTH && term_size.1 >= MIN_HEIGHT
}

/// A key press, as the game understands it.
#[derive(Clone, Copy, PartialEq, Eq, Structural, Debug)]
pub enum GameKey {
    /// The quit key: ends the program from any state.
    Quit,
    Up,
    Down,
    Left,
    Right,
    /// The confirm key: commits the menu selection.
    Enter,
    /// Any other key; always a no-op.
    Other,
}

/// A discrete input event. Raw events the game does not recognize are not
/// represented: they are no-ops and need never be handed in.
#[derive(Clone, Copy, PartialEq, Eq, Structural, Debug)]
pub enum InputEvent {
    FocusGained,
    FocusLost,
    Key(GameKey),
    Resize(u16, u16),
}

/// What a handled event asks the renderer to do.
#[derive(Clone, Copy, PartialEq, Eq, Structural, Debug)]
pub enum EventEffect {
    /// Nothing to redraw.
    Nothing,
    /// The menu selection changed: redraw the menu.
    MenuRedraw,
    /// Replay was chosen: redraw the board frame and the fruit.
    RoundRestart,
    /// The program is over: tear the terminal down.
    Quit,
    /// New bounds were stored for the next round: show the notice.
    ResizeNote,
}

/// What one tick of play asks the renderer to do: redraw the cell the head
/// left as trail, erase the vacated cell, draw the new head, and on the
/// respective events draw the new fruit or the menu.
#[derive(Clone, Copy, Debug)]
pub struct TickReport {
    /// The cell the head occupied before the tick; now trail.
    pub old_head: (u16, u16),
    /// The cell the head occupies now.
    pub new_head: (u16, u16),
    /// The trail cell the snake vacated, if it did not grow this tick.
    pub vacated: Option<(u16, u16)>,
    /// Whether the new head landed on the fruit.
    pub ate: bool,
    /// The freshly placed fruit, when one was placed.
    pub new_fruit: Option<(u16, u16)>,
    /// Whether the snake died this tick; the menu is up from now on.
    pub died: bool,
}

/// The mathematical model of a whole session.
#[verifier::ext_equal]
pub ghost struct SessionModel {
    /// The bounds the terminal reported most recently; the next round starts
    /// on them.
    pub term_size: (u16, u16),
    /// The bounds the running round was started on.
    pub start_term_size: (u16, u16),
    /// The centre of the board, where the menu is drawn.
    pub middle: (u16, u16),
    pub fruit_pos: (u16, u16),
    /// Fruits eaten this round.
    pub score: u8,
    /// 0 selects Replay, 1 selects Quit.
    pub menu_selection: u8,
    /// True while the snake is alive; false while the menu is up.
    pub playing: bool,
    /// False while the terminal has lost focus; ticks are frozen then.
    pub focused: bool,
    /// True once the program should end.
    pub terminated: bool,
    pub snake: SnakeModel,
}

impl SessionModel {
    /// What every reachable session satisfies: boards large enough to play
    /// on, a binary menu selection, a snake that never runs out of trail to
    /// vacate, and — while playing — a live snake.
    pub open spec fn wf(self) -> bool {
        &&& size_ok(self.term_size)
        &&& size_ok(self.start_term_size)
        &&& self.menu_selection <= 1
        &&& self.snake.growing + self.snake.body.len() >= 2
        &&& (self.playing ==> !is_dead_spec(self.snake, self.start_term_size))
    }
}

/// The session a round starts as on a board of `term_size` cells: snake a
/// fifth of the way across and halfway down heading right, fruit four
/// fifths of the way across at the same row, score 0, Replay selected.
pub open spec fn initial_session_spec(term_size: (u16, u16)) -> SessionModel {
    SessionModel {
        term_size,
        start_term_size: term_size,
        middle: (((term_size.0 / 2) as u16), ((term_size.1 / 2) as u16)),
        fruit_pos: (((term_size.0 / 5 * 4) as u16), ((term_size.1 / 2) as u16)),
        score: 0,
        menu_selection: 0,
        playing: true,
        focused: true,
        terminated: false,
        snake: SnakeModel::initial(term_size),
    }
}

/// Choosing Replay: a fresh round on the most recently reported bounds.
/// Menu selection, focus and termination carry over.
pub open spec fn restart_spec(m: SessionModel) -> SessionModel {
    SessionModel {
        menu_selection: m.menu_selection,
        focused: m.focused,
        terminated: m.terminated,
        ..initial_session_spec(m.term_size)
    }
}

/// A directional key during play: the snake's heading changes unless the
/// request is for the current heading or its direct opposite.
pub open spec fn steer_spec(m: SessionModel, d: Direction) -> SessionModel {
    SessionModel {
        snake: SnakeModel { dir: set_heading_spec(m.snake.dir, d), ..m.snake },
        ..m
    }
}

/// What a key press does to the session.
pub open spec fn handle_key_spec(m: SessionModel, k: GameKey) -> SessionModel {
    if k == GameKey::Quit {
        SessionModel { terminated: true, ..m }
    } else if m.playing {
        match k {
            GameKey::Up => steer_spec(m, Direction::Up),
            GameKey::Down => steer_spec(m, Direction::Down),
            GameKey::Left => steer_spec(m, Direction::Left),
            GameKey::Right => steer_spec(m, Direction::Right),
            _ => m,
        }
    } else {
        match k {
            GameKey::Up | GameKey::Down => SessionModel {
                menu_selection: if m.menu_selection == 0 {
                    1
                } else {
                    0
                },
                ..m
            },
            GameKey::Enter => if m.menu_selection == 0 {
                restart_spec(m)
            } else {
                SessionModel { terminated: true, ..m }
            },
            _ => m,
        }
    }
}

/// What an input event does to the session. A resize below the minimum
/// playable size is ignored: no round could start on such a board.
pub open spec fn handle_event_spec(m: SessionModel, ev: InputEvent) -> SessionModel {
    match ev {
        InputEvent::FocusGained => SessionModel { focused: true, ..m },
        InputEvent::FocusLost => SessionModel { focused: false, ..m },
        InputEvent::Resize(w, h) => if size_ok((w, h)) {
            SessionModel { term_size: (w, h), ..m }
        } else {
            m
        },
        InputEvent::Key(k) => handle_key_spec(m, k),
    }
}

/// What an input event asks the renderer to do.
pub open spec fn event_effect_spec(m: SessionModel, ev: InputEvent) -> EventEffect {
    match ev {
        InputEvent::FocusGained => EventEffect::Nothing,
        InputEvent::FocusLost => EventEffect::Nothing,
        InputEvent::Resize(w, h) => if size_ok((w, h)) {
            EventEffect::ResizeNote
        } else {
            EventEffect::Nothing
        },
        InputEvent::Key(k) => if k == GameKey::Quit {
            EventEffect::Quit
        } else if m.playing {
            EventEffect::Nothing
        } else {
            match k {
                GameKey::Up | GameKey::Down => EventEffect::MenuRedraw,
                GameKey::Enter => if m.menu_selection == 0 {
                    EventEffect::RoundRestart
                } else {
                    EventEffect::Quit
                },
                _ => EventEffect::Nothing,
            }
        },
    }
}

/// Whether this tick's advance lands the head on the fruit.
pub open spec fn tick_ate(m: SessionModel) -> bool {
    m.snake.advanced().head == m.fruit_pos
}

/// The snake after one tick of play: advanced, and owing two more cells of
/// growth if it ate.
pub open spec fn snake_after_tick(m: SessionModel) -> SnakeModel {
    if tick_ate(m) {
        m.snake.advanced().grown(GROWTH_PER_FRUIT)
    } else {
        m.snake.advanced()
    }
}

/// Whether this tick's advance kills the snake.
pub open spec fn tick_died(m: SessionModel) -> bool {
    is_dead_spec(snake_after_tick(m), m.start_term_size)
}

/// A fresh board of `term_size` cells needed by `SessionModel::wf`: the
/// starting snake is alive and owes two cells of growth.
proof fn lemma_initial_session_wf(term_size: (u16, u16))
    requires
        size_ok(term_size),
    ensures
        initial_session_spec(term_size).wf(),
{
    let s = SnakeModel::initial(term_size);
    assert(1 <= s.head.0 < term_size.0 - 1);
    assert(1 <= s.head.1 < term_size.1 - 1);
    assert(!s.body.contains(s.head));
}

/// The whole game state of one program run, ticked by a caller-driven loop.
pub struct GameSession {
    pub term_size: (u16, u16),
    pub start_term_size: (u16, u16),
    pub middle: (u16, u16),
    pub fruit_pos: (u16, u16),
    pub score: u8,
    pub menu_selection: u8,
    pub playing: bool,
    pub focused: bool,
    pub terminated: bool,
    pub snake: SnakeInfo,
}

impl View for GameSession {
    type V = SessionModel;

    open spec fn view(&self) -> SessionModel {
        SessionModel {
            term_size: self.term_size,
            start_term_size: self.start_term_size,
            middle: self.middle,
            fruit_pos: self.fruit_pos,
            score: self.score,
            menu_selection: self.menu_selection,
            playing: self.playing,
            focused: self.focused,
            terminated: self.terminated,
            snake: self.snake@,
        }
    }
}

impl GameSession {
    /// A fresh session on a board of `term_size` cells, ready to play.
    pub fn new_session(term_size: (u16, u16)) -> (s: GameSession)
        requires
            size_ok(term_size),
        ensures
            s@ == initial_session_spec(term_size),
            s@.wf(),
    {
        let s = GameSession {
            term_size,
            start_term_size: term_size,
            middle: (term_size.0 / 2, term_size.1 / 2),
            fruit_pos: (term_size.0 / 5 * 4, term_size.1 / 2),
            score: 0,
            menu_selection: 0,
            playing: true,
            focused: true,
            terminated: false,
            snake: SnakeInfo::new(term_size),
        };
        proof {
            assert(s@ =~= initial_session_spec(term_size));
            lemma_initial_session_wf(term_size);
        }
        s
    }

    /// Apply one input event. Directional keys steer the snake during play
    /// and toggle the menu selection otherwise; the confirm key commits the
    /// menu selection — Replay starts a fresh round on the most recently
    /// reported bounds, Quit terminates; the quit key terminates from any
    /// state; focus events freeze and resume the ticks; a resize stores
    /// bounds for the next round, unless the new board would be too small to
    /// play on.
    pub fn handle_event(&mut self, ev: InputEvent) -> (effect: EventEffect)
        requires
            old(self)@.wf(),
        ensures
            final(self)@ == handle_event_spec(old(self)@, ev),
            final(self)@.wf(),
            effect == event_effect_spec(old(self)@, ev),
    {
        match ev {
            InputEvent::FocusGained => {
                self.focused = true;
                proof {
                    assert(self@ =~= handle_event_spec(old(self)@, ev));
                }
                EventEffect::Nothing
            },
            InputEvent::FocusLost => {
                self.focused = false;
                proof {
                    assert(self@ =~= handle_event_spec(old(self)@, ev));
                }
                EventEffect::Nothing
            },
            InputEvent::Resize(w, h) => {
                if w >= MIN_WIDTH && h >= MIN_HEIGHT {
                    self.term_size = (w, h);
                    proof {
                        assert(self@ =~= handle_event_spec(old(self)@, ev));
                    }
                    EventEffect::ResizeNote
                } else {
                    proof {
                        assert(self@ =~= handle_event_spec(old(self)@, ev));
                    }
                    EventEffect::Nothing
                }
            },
            InputEvent::Key(k) => self.handle_key(k),
        }
    }

    /// Apply one key press; `handle_event` narrowed to keys.
    fn handle_key(&mut self, k: GameKey) -> (effect: EventEffect)
        requires
            old(self)@.wf(),
        ensures
            final(self)@ == handle_key_spec(old(self)@, k),
            final(self)@.wf(),
            effect == event_effect_spec(old(self)@, InputEvent::Key(k)),
    {
        if matches!(k, GameKey::Quit) {
            self.terminated = true;
            proof {
                assert(self@ =~= handle_key_spec(old(self)@, k));
            }
            EventEffect::Quit
        } else if self.playing {
            match k {
                GameKey::Up => self.snake.set_heading(Direction::Up),
                GameKey::Down => self.snake.set_heading(Direction::Down),
                GameKey::Left => self.snake.set_heading(Direction::Left),
                GameKey::Right => self.snake.set_heading(Direction::Right),
                _ => {},
            }
            proof {
                assert(self@ =~= handle_key_spec(old(self)@, k));
            }
            EventEffect::Nothing
        } else {
            match k {
                GameKey::Up | GameKey::Down => {
                    self.menu_selection = if self.menu_selection == 0 {
                        1
                    } else {
                        0
                    };
                    proof {
                        assert(self@ =~= handle_key_spec(old(self)@, k));
                    }
                    EventEffect::MenuRedraw
                },
                GameKey::Enter => {
                    if self.menu_selection == 0 {
                        self.start_term_size = self.term_size;
                        self.middle = (self.start_term_size.0 / 2, self.start_term_size.1 / 2);
                        self.snake = SnakeInfo::new(self.start_term_size);
                        self.fruit_pos = (
                            self.start_term_size.0 / 5 * 4,
                            self.start_term_size.1 / 2,
                        );
                        self.score = 0;
                        self.playing = true;
                        proof {
                            assert(self@ =~= handle_key_spec(old(self)@, k));
                            lemma_initial_session_wf(old(self)@.term_size);
                        }
                        EventEffect::RoundRestart
                    } else {
                        self.terminated = true;
                        proof {
                            assert(self@ =~= handle_key_spec(old(self)@, k));
                        }
                        EventEffect::Quit
                    }
                },
                _ => {
                    proof {
                        assert(self@ =~= handle_key_spec(old(self)@, k));
                    }
                    EventEffect::Nothing
                },
            }
        }
    }

    /// One tick of play. While playing and focused: the snake advances; if
    /// the head lands on the fruit the snake is owed two cells of growth,
    /// the score rises by one and a fresh fruit is placed disjoint from the
    /// whole snake (the fruit stays put only in the degenerate case of a
    /// board with no free cell left); then death is checked, and a dead
    /// snake puts the menu up. Otherwise the session is untouched. The
    /// report carries exactly what a renderer must redraw.
    pub fn step(&mut self) -> (report: Option<TickReport>)
        requires
            old(self)@.wf(),
            old(self)@.playing && old(self)@.focused ==> old(self)@.score < 255 && old(
                self,
            )@.snake.growing <= 253,
        ensures
            final(self)@.wf(),
            report is Some <==> (old(self)@.playing && old(self)@.focused),
            !(old(self)@.playing && old(self)@.focused) ==> final(self)@ == old(self)@,
            old(self)@.playing && old(self)@.focused ==> ({
                let m = old(self)@;
                let snake1 = snake_after_tick(m);
                &&& final(self)@.snake == snake1
                &&& final(self)@.score == (if tick_ate(m) {
                    (m.score + 1) as u8
                } else {
                    m.score
                })
                &&& final(self)@.playing == !tick_died(m)
                &&& final(self)@.terminated == m.terminated
                &&& final(self)@.focused == m.focused
                &&& final(self)@.menu_selection == m.menu_selection
                &&& final(self)@.term_size == m.term_size
                &&& final(self)@.start_term_size == m.start_term_size
                &&& final(self)@.middle == m.middle
                &&& (tick_ate(m) && free_cell_exists(snake1.head, snake1.body, m.start_term_size)
                    ==> fruit_ok(final(self)@.fruit_pos, snake1.head, snake1.body, m.start_term_size))
                &&& (tick_ate(m) && !free_cell_exists(snake1.head, snake1.body, m.start_term_size)
                    ==> final(self)@.fruit_pos == m.fruit_pos)
                &&& (!tick_ate(m) ==> final(self)@.fruit_pos == m.fruit_pos)
            }),
            report matches Some(r) ==> ({
                let m = old(self)@;
                &&& r.old_head == m.snake.head
                &&& r.new_head == final(self)@.snake.head
                &&& r.vacated == (if m.snake.growing > 0 {
                    Option::<(u16, u16)>::None
                } else {
                    Option::<(u16, u16)>::Some(m.snake.body[0])
                })
                &&& r.ate == tick_ate(m)
                &&& r.died == tick_died(m)
                &&& r.new_fruit == (if tick_ate(m) && free_cell_exists(
                    snake_after_tick(m).head,
                    snake_after_tick(m).body,
                    m.start_term_size,
                ) {
                    Option::<(u16, u16)>::Some(final(self)@.fruit_pos)
                } else {
                    Option::<(u16, u16)>::None
                })
            }),
    {
        if !(self.playing && self.focused) {
            return None;
        }
        let old_head = self.snake.head_pos;
        let vacated = self.snake.update();
        let mut ate = false;
        let mut new_fruit: Option<(u16, u16)> = None;
        if self.snake.head_pos.0 == self.fruit_pos.0 && self.snake.head_pos.1 == self.fruit_pos.1 {
            ate = true;
            self.snake.grow(GROWTH_PER_FRUIT);
            self.score = self.score + 1;
            match place_new_fruit(self.snake.head_pos, &self.snake.body_pos, self.start_term_size) {
                Some(p) => {
                    self.fruit_pos = p;
                    new_fruit = Some(p);
                },
                None => {},
            }
        }
        let died = self.snake.should_be_dead(self.start_term_size);
        if died {
            self.playing = false;
        }
        Some(
            TickReport {
                old_head,
                new_head: self.snake.head_pos,
                vacated,
                ate,
                new_fruit,
                died,
            },
        )
    }
}

} // verus!
