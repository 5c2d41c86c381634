//! Fruit placement: sampling a uniformly random free cell of the playable
//! area, by rejection sampling with a deterministic exhaustive scan as a
//! last resort, so that placement provably terminates and provably returns a
//! cell exactly when a free cell exists.

use vstd::prelude::*;
use std::collections::VecDeque;
use rand::distributions::Distribution;

verus! {

/// How many random samples are tried before falling back to an exhaustive
/// scan of the playable area.
pub const SAMPLE_ATTEMPTS: u32 = 1024;

/// Whether `pos` coincides with no cell of `body`.
pub open spec fn position_free_spec(pos: (u16, u16), body: Seq<(u16, u16)>) -> bool {
    !body.contains(pos)
}

/// Whether `pos` lies strictly inside the one-cell border of a board of
/// `term_size` cells, that is in `[1, width - 2] x [1, height - 2]`.
pub open spec fn in_interior(pos: (u16, u16), term_size: (u16, u16)) -> bool {
    &&& 1 <= pos.0 < term_size.0 - 1
    &&& 1 <= pos.1 < term_size.1 - 1
}

/// Whether `pos` is an acceptable fruit cell: inside the playable area and
/// disjoint from every snake-occupied cell — the head and the whole trail.
pub open spec fn fruit_ok(
    pos: (u16, u16),
    head: (u16, u16),
    body: Seq<(u16, u16)>,
    term_size: (u16, u16),
) -> bool {
    &&& in_interior(pos, term_size)
    &&& pos != head
    &&& position_free_spec(pos, body)
}

/// Whether any acceptable fruit cell exists at all.
pub open spec fn free_cell_exists(
    head: (u16, u16),
    body: Seq<(u16, u16)>,
    term_size: (u16, u16),
) -> bool {
    exists|p: (u16, u16)| fruit_ok(p, head, body, term_size)
}

/// Relies on rand's `Uniform::from(lo..hi)` and
/// `Distribution::sample(&mut thread_rng())`: the sample lies in the
/// half-open range `[lo, hi)`; `Uniform::from` panics on an empty range,
/// which the precondition excludes. Nothing more is assumed of the value —
/// every caller must cope with every outcome.
#[verifier::external_body]
fn rand_range(lo: u16, hi: u16) -> (r: u16)
    requires
        lo < hi,
    ensures
        lo <= r < hi,
{
    rand::distributions::Uniform::from(lo..hi).sample(&mut rand::thread_rng())
}

/// Whether `pos` coincides with no cell of `body`, by linear scan.
pub fn is_position_free(pos: (u16, u16), body: &VecDeque<(u16, u16)>) -> (free: bool)
    ensures
        free == position_free_spec(pos, body@),
{
    let n = body.len();
    let mut i: usize = 0;
    while i < n
        invariant
            n == body@.len(),
            i <= n,
            forall|j: int| 0 <= j < i ==> body@[j] != pos,
        decreases n - i,
    {
        let cell = body[i];
        if cell.0 == pos.0 && cell.1 == pos.1 {
            assert(body@.contains(pos));
            return false;
        }
        i = i + 1;
    }
    assert(!body@.contains(pos));
    true
}

/// The first acceptable fruit cell of the playable area in column-major
/// order, or `None` exactly when the snake occupies every interior cell.
fn find_free_cell(
    head: (u16, u16),
    body: &VecDeque<(u16, u16)>,
    term_size: (u16, u16),
) -> (found: Option<(u16, u16)>)
    requires
        term_size.0 >= 3,
        term_size.1 >= 3,
    ensures
        found matches Some(p) ==> fruit_ok(p, head, body@, term_size),
        found is None ==> !free_cell_exists(head, body@, term_size),
{
    let mut x: u16 = 1;
    while x < term_size.0 - 1
        invariant
            term_size.0 >= 3,
            term_size.1 >= 3,
            1 <= x <= term_size.0 - 1,
            forall|p: (u16, u16)|
                in_interior(p, term_size) && p.0 < x ==> !#[trigger] fruit_ok(
                    p,
                    head,
                    body@,
                    term_size,
                ),
        decreases term_size.0 - 1 - x,
    {
        let mut y: u16 = 1;
        while y < term_size.1 - 1
            invariant
                term_size.0 >= 3,
                term_size.1 >= 3,
                1 <= x < term_size.0 - 1,
                1 <= y <= term_size.1 - 1,
                forall|p: (u16, u16)|
                    in_interior(p, term_size) && p.0 < x ==> !#[trigger] fruit_ok(
                        p,
                        head,
                        body@,
                        term_size,
                    ),
                forall|p: (u16, u16)|
                    in_interior(p, term_size) && p.0 == x && p.1 < y ==> !#[trigger] fruit_ok(
                        p,
                        head,
                        body@,
                        term_size,
                    ),
            decreases term_size.1 - 1 - y,
        {
            let cell: (u16, u16) = (x, y);
            if (cell.0 != head.0 || cell.1 != head.1) && is_position_free(cell, body) {
                return Some(cell);
            }
            y = y + 1;
        }
        x = x + 1;
    }
    assert forall|p: (u16, u16)| !#[trigger] fruit_ok(p, head, body@, term_size) by {
        if in_interior(p, term_size) {
            assert(p.0 < x);
        }
    }
    None
}

/// A fruit cell for a snake with the given head and trail: inside the
/// playable area and disjoint from every snake-occupied cell. A bounded
/// number of uniformly random samples is tried first; if every sample lands
/// on the snake, a deterministic scan finds a free cell. Returns `Some`
/// exactly when a free cell exists — `None` only when the snake fills the
/// whole playable area.
pub fn place_new_fruit(
    head: (u16, u16),
    body: &VecDeque<(u16, u16)>,
    term_size: (u16, u16),
) -> (placed: Option<(u16, u16)>)
    requires
        term_size.0 >= 3,
        term_size.1 >= 3,
    ensures
        placed matches Some(p) ==> fruit_ok(p, head, body@, term_size),
        placed is Some <==> free_cell_exists(head, body@, term_size),
{
    let mut attempts: u32 = 0;
    while attempts < SAMPLE_ATTEMPTS
        invariant
            term_size.0 >= 3,
            term_size.1 >= 3,
        decreases SAMPLE_ATTEMPTS - attempts,
    {
        let x = rand_range(1, term_size.0 - 1);
        let y = rand_range(1, term_size.1 - 1);
        let candidate: (u16, u16) = (x, y);
        if (candidate.0 != head.0 || candidate.1 != head.1) && is_position_free(candidate, body) {
            assert(fruit_ok(candidate, head, body@, term_size));
            return Some(candidate);
        }
        attempts = attempts + 1;
    }
    find_free_cell(head, body, term_size)
}

} // verus!
