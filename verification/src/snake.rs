//! The snake itself: its travelling direction, its mathematical model, and
//! the executable state with its per-tick transition.
//!
//! A position is a `(column, row)` pair of cells on the terminal grid. The
//! playable area of a board of `term_size = (width, height)` cells is
//! `[1, width - 2] x [1, height - 2]`: a one-cell border is reserved for the
//! frame.

use vstd::prelude::*;
use std::collections::VecDeque;

verus! {

/// A travelling direction of the snake.
#[derive(Clone, Copy, PartialEq, Eq, Structural, Debug)]
pub enum Direction {
    Up,
    Down,
    Left,
    Right,
}

impl Direction {
    /// The direct opposite of this direction.
    pub open spec fn opposite_spec(self) -> Direction {
        match self {
            Direction::Up => Direction::Down,
            Direction::Down => Direction::Up,
            Direction::Left => Direction::Right,
            Direction::Right => Direction::Left,
        }
    }

    /// The direct opposite of this direction.
    pub fn opposite(self) -> (r: Direction)
        ensures
            r == self.opposite_spec(),
    {
        match self {
            Direction::Up => Direction::Down,
            Direction::Down => Direction::Up,
            Direction::Left => Direction::Right,
            Direction::Right => Direction::Left,
        }
    }
}

/// What a requested heading change does: a request for the current heading or
/// for its direct opposite is rejected (the latter would drive the head
/// straight into the neck), anything else replaces the heading.
pub open spec fn set_heading_spec(cur: Direction, requested: Direction) -> Direction {
    if requested == cur || requested == cur.opposite_spec() {
        cur
    } else {
        requested
    }
}

/// The cell one step from `head` in direction `dir`.
///
/// The subtractions underflow only when a coordinate is already 0; the
/// executable transition excludes that by precondition, so the casts below
/// never truncate where the function is actually used.
pub open spec fn next_head(head: (u16, u16), dir: Direction) -> (u16, u16) {
    match dir {
        Direction::Up => (head.0, (head.1 - 1) as u16),
        Direction::Down => (head.0, (head.1 + 1) as u16),
        Direction::Left => (((head.0 - 1) as u16), head.1),
        Direction::Right => (((head.0 + 1) as u16), head.1),
    }
}

/// The mathematical model of a snake: head cell, trail of body cells
/// (oldest first, head excluded), cells of growth still owed, and heading.
#[verifier::ext_equal]
pub ghost struct SnakeModel {
    pub head: (u16, u16),
    pub body: Seq<(u16, u16)>,
    pub growing: u8,
    pub dir: Direction,
}

impl SnakeModel {
    /// One tick of movement: the head cell joins the tail end of the trail;
    /// if growth is owed the oldest trail cell is kept (the snake lengthens),
    /// otherwise it is vacated; the head then moves one cell along the
    /// current heading.
    pub open spec fn advanced(self) -> SnakeModel {
        let grown_body = self.body.push(self.head);
        if self.growing > 0 {
            SnakeModel {
                head: next_head(self.head, self.dir),
                body: grown_body,
                growing: (self.growing - 1) as u8,
                dir: self.dir,
            }
        } else {
            SnakeModel {
                head: next_head(self.head, self.dir),
                body: grown_body.drop_first(),
                growing: self.growing,
                dir: self.dir,
            }
        }
    }

    /// The same snake owing `amount` more cells of growth.
    pub open spec fn grown(self, amount: u8) -> SnakeModel {
        SnakeModel { growing: (self.growing + amount) as u8, ..self }
    }

    /// The number of cells the snake occupies: every trail cell plus the head.
    pub open spec fn occupied_count(self) -> int {
        self.body.len() as int + 1
    }

    /// Moving in direction `dir` neither underflows nor overflows a
    /// coordinate of the head.
    pub open spec fn move_fits(self) -> bool {
        match self.dir {
            Direction::Up => self.head.1 >= 1,
            Direction::Down => self.head.1 < 0xFFFF,
            Direction::Left => self.head.0 >= 1,
            Direction::Right => self.head.0 < 0xFFFF,
        }
    }

    /// The freshly created snake for a board of `term_size` cells: head a
    /// fifth of the way across and halfway down, no trail yet, two cells of
    /// growth owed, heading right.
    pub open spec fn initial(term_size: (u16, u16)) -> SnakeModel {
        SnakeModel {
            head: ((term_size.0 / 5) as u16, (term_size.1 / 2) as u16),
            body: Seq::empty(),
            growing: 2,
            dir: Direction::Right,
        }
    }
}

/// The snake advanced `n` ticks with no input and no fruit.
pub open spec fn advanced_n(s: SnakeModel, n: nat) -> SnakeModel
    decreases n,
{
    if n == 0 {
        s
    } else {
        advanced_n(s, (n - 1) as nat).advanced()
    }
}

/// Whether `head` lies on or beyond the one-cell border of a board of
/// `term_size` cells.
pub open spec fn hits_wall(head: (u16, u16), term_size: (u16, u16)) -> bool {
    ||| head.0 < 1
    ||| head.1 < 1
    ||| head.0 >= term_size.0 - 1
    ||| head.1 >= term_size.1 - 1
}

/// The terminal condition: the head coincides with a trail cell, or it has
/// left the playable area.
pub open spec fn is_dead_spec(s: SnakeModel, term_size: (u16, u16)) -> bool {
    s.body.contains(s.head) || hits_wall(s.head, term_size)
}

/// The executable snake: current head cell, trail of previously occupied
/// cells (oldest first, head excluded), growth still owed, and heading.
pub struct SnakeInfo {
    pub head_pos: (u16, u16),
    pub body_pos: VecDeque<(u16, u16)>,
    pub growing: u8,
    pub dir: Direction,
}

impl View for SnakeInfo {
    type V = SnakeModel;

    open spec fn view(&self) -> SnakeModel {
        SnakeModel {
            head: self.head_pos,
            body: self.body_pos@,
            growing: self.growing,
            dir: self.dir,
        }
    }
}

impl SnakeInfo {
    /// A fresh snake for a board of `term_size` cells.
    pub fn new(term_size: (u16, u16)) -> (s: Self)
        ensures
            s@ == SnakeModel::initial(term_size),
    {
        let s = SnakeInfo {
            head_pos: (term_size.0 / 5, term_size.1 / 2),
            body_pos: VecDeque::new(),
            growing: 2,
            dir: Direction::Right,
        };
        proof {
            assert(s@ =~= SnakeModel::initial(term_size));
        }
        s
    }

    /// One tick of movement, as `SnakeModel::advanced` describes it. Returns
    /// the trail cell that was vacated, if any, so that a renderer can erase
    /// exactly that cell.
    pub fn update(&mut self) -> (vacated: Option<(u16, u16)>)
        requires
            old(self)@.move_fits(),
            old(self)@.growing == 0 ==> old(self)@.body.len() >= 1,
        ensures
            final(self)@ == old(self)@.advanced(),
            vacated == (if old(self)@.growing > 0 {
                Option::<(u16, u16)>::None
            } else {
                Option::<(u16, u16)>::Some(old(self)@.body[0])
            }),
    {
        self.body_pos.push_back(self.head_pos);
        let vacated: Option<(u16, u16)> = if self.growing > 0 {
            self.growing = self.growing - 1;
            None
        } else {
            self.body_pos.pop_front()
        };
        match self.dir {
            Direction::Up => {
                self.head_pos = (self.head_pos.0, self.head_pos.1 - 1);
            },
            Direction::Down => {
                self.head_pos = (self.head_pos.0, self.head_pos.1 + 1);
            },
            Direction::Left => {
                self.head_pos = (self.head_pos.0 - 1, self.head_pos.1);
            },
            Direction::Right => {
                self.head_pos = (self.head_pos.0 + 1, self.head_pos.1);
            },
        }
        proof {
            assert(self@ =~= old(self)@.advanced());
        }
        vacated
    }

    /// Owe `amount` more cells of growth; called once per fruit eaten.
    pub fn grow(&mut self, amount: u8)
        requires
            old(self)@.growing + amount <= 255,
        ensures
            final(self)@ == old(self)@.grown(amount),
    {
        self.growing = self.growing + amount;
        proof {
            assert(self@ =~= old(self)@.grown(amount));
        }
    }

    /// Request a heading change: a request for the current heading or for its
    /// direct opposite is ignored, anything else takes effect.
    pub fn set_heading(&mut self, requested: Direction)
        ensures
            final(self)@ == (SnakeModel { dir: set_heading_spec(old(self)@.dir, requested), ..old(self)@ }),
    {
        if !(requested == self.dir || requested == self.dir.opposite()) {
            self.dir = requested;
        }
        proof {
            assert(self@ =~= (SnakeModel { dir: set_heading_spec(old(self)@.dir, requested), ..old(self)@ }));
        }
    }

    /// The terminal condition, checked once per tick strictly after `update`:
    /// self-collision by linear scan of the trail, or wall collision against
    /// the one-cell border.
    pub fn should_be_dead(&self, term_size: (u16, u16)) -> (dead: bool)
        requires
            term_size.0 >= 1,
            term_size.1 >= 1,
        ensures
            dead == is_dead_spec(self@, term_size),
    {
        let n = self.body_pos.len();
        let mut i: usize = 0;
        while i < n
            invariant
                n == self.body_pos@.len(),
                i <= n,
                forall|j: int| 0 <= j < i ==> self.body_pos@[j] != self@.head,
            decreases n - i,
        {
            let cell = self.body_pos[i];
            if cell.0 == self.head_pos.0 && cell.1 == self.head_pos.1 {
                assert(self.body_pos@.contains(self@.head));
                return true;
            }
            i = i + 1;
        }
        assert(!self.body_pos@.contains(self@.head));
        self.head_pos.0 < 1 || self.head_pos.1 < 1 || self.head_pos.0 >= term_size.0 - 1
            || self.head_pos.1 >= term_size.1 - 1
    }
}

/// Advancing a snake that owes growth keeps every trail cell and adds the old
/// head cell, so each such tick raises the occupied-cell count by one and
/// pays off one cell of the debt.
pub proof fn lemma_growth_steps(s: SnakeModel, i: nat)
    requires
        i <= s.growing,
    ensures
        advanced_n(s, i).growing == s.growing - i,
        advanced_n(s, i).occupied_count() == s.occupied_count() + i,
        advanced_n(s, i).dir == s.dir,
    decreases i,
{
    if i > 0 {
        lemma_growth_steps(s, (i - 1) as nat);
    }
}

/// Growth invariant: starting from a snake that owes no growth, after
/// `grow(k)` and `k` further ticks with no further growth, the occupied-cell
/// count has risen by exactly one per tick — by `k` in all — and the tick
/// after that leaves it unchanged (the trail is back to steady state).
pub proof fn lemma_growth_invariant(s: SnakeModel, k: u8)
    requires
        s.growing == 0,
    ensures
        forall|i: nat|
            i <= k ==> #[trigger] advanced_n(s.grown(k), i).occupied_count() == s.occupied_count()
                + i,
        advanced_n(s.grown(k), k as nat).advanced().occupied_count() == s.occupied_count() + k,
{
    assert forall|i: nat| i <= k implies #[trigger] advanced_n(s.grown(k), i).occupied_count()
        == s.occupied_count() + i by {
        lemma_growth_steps(s.grown(k), i);
    }
    lemma_growth_steps(s.grown(k), k as nat);
    assert(advanced_n(s.grown(k), k as nat).growing == 0);
}

/// Opposite-heading rejection: for every heading, requesting the direct
/// opposite (or the heading itself) leaves the heading unchanged, and
/// requesting either perpendicular heading always takes effect.
pub proof fn lemma_heading_rules(cur: Direction, requested: Direction)
    ensures
        set_heading_spec(cur, cur.opposite_spec()) == cur,
        set_heading_spec(cur, cur) == cur,
        requested != cur && requested != cur.opposite_spec() ==> set_heading_spec(cur, requested)
            == requested,
{
}

/// Away from the walls, death is self-collision exactly: a snake whose head
/// is inside the playable area is dead precisely when the head coincides
/// with a trail cell.
pub proof fn lemma_self_collision_exact(s: SnakeModel, term_size: (u16, u16))
    requires
        !hits_wall(s.head, term_size),
    ensures
        is_dead_spec(s, term_size) <==> s.body.contains(s.head),
{
}

/// Wall-boundary exactness: every cell of the playable-area edge — column 1,
/// column `width - 2`, row 1, row `height - 2` — is alive, and one step
/// further outward in each direction is dead.
pub proof fn lemma_wall_boundary(term_size: (u16, u16), x: u16, y: u16)
    requires
        term_size.0 >= 3,
        term_size.1 >= 3,
        1 <= x <= term_size.0 - 2,
        1 <= y <= term_size.1 - 2,
    ensures
        !hits_wall((1, y), term_size),
        !hits_wall((((term_size.0 - 2) as u16), y), term_size),
        !hits_wall((x, 1), term_size),
        !hits_wall((x, ((term_size.1 - 2) as u16)), term_size),
        hits_wall((0, y), term_size),
        hits_wall((((term_size.0 - 1) as u16), y), term_size),
        hits_wall((x, 0), term_size),
        hits_wall((x, ((term_size.1 - 1) as u16)), term_size),
{
}

} // verus!
