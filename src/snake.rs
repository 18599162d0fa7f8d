//! The snake: its body, head first, and its heading.
use vstd::prelude::*;

use crate::geometry::{can_step, stepped, Direction, Position};

verus! {

/// The snake. `body[0]` is the head and the last element the tail.
/// `dir` is the direction the next move takes; `heading` is the direction of the
/// last move made, that is the direction held at the start of the current tick.
#[derive(Debug)]
pub struct Snake {
    pub body: Vec<Position>,
    pub dir: Direction,
    pub heading: Direction,
}

/// The direction held after asking for `requested` while holding `dir`, at the start of a
/// tick whose heading is `heading`: a request for the reverse of either is ignored.
pub open spec fn turned(dir: Direction, heading: Direction, requested: Direction) -> Direction {
    if requested == dir.opposite_spec() || requested == heading.opposite_spec() {
        dir
    } else {
        requested
    }
}

/// The direction held after a series of requests within one tick.
pub open spec fn turned_all(dir: Direction, heading: Direction, requests: Seq<Direction>) -> Direction
    decreases requests.len(),
{
    if requests.len() == 0 {
        dir
    } else {
        turned(turned_all(dir, heading, requests.drop_last()), heading, requests.last())
    }
}

/// The body after one move in direction `d`: a new head in front, the tail dropped.
pub open spec fn moved(body: Seq<Position>, d: Direction) -> Seq<Position> {
    seq![stepped(body[0], d)] + body.drop_last()
}

/// The body after one move in direction `d` that keeps the tail.
pub open spec fn grown(body: Seq<Position>, d: Direction) -> Seq<Position> {
    seq![stepped(body[0], d)] + body
}

impl Snake {
    /// A snake has a body, and never holds the reverse of the heading of its last move.
    pub open spec fn wf(&self) -> bool {
        &&& self.body@.len() >= 1
        &&& self.dir != self.heading.opposite_spec()
    }

    /// Whether the next move keeps the head's coordinates within `i32`.
    pub open spec fn can_move(&self) -> bool {
        can_step(self.body@[0], self.dir)
    }

    /// The snake at the start of a game: body `[(0, 0), (0, 1)]`, moving right.
    pub fn new() -> (r: Snake)
        ensures
            r.wf(),
            r.body@ == seq![Position { x: 0, y: 0 }, Position { x: 0, y: 1 }],
            r.dir == Direction::Right,
            r.heading == Direction::Right,
    {
        let body = vec![Position { x: 0, y: 0 }, Position { x: 0, y: 1 }];
        Snake { body, dir: Direction::Right, heading: Direction::Right }
    }

    /// A snake with the given body, head first, moving in direction `dir`.
    pub fn with_body(body: Vec<Position>, dir: Direction) -> (r: Snake)
        requires
            body@.len() >= 1,
        ensures
            r.wf(),
            r.body@ == body@,
            r.dir == dir,
            r.heading == dir,
    {
        Snake { body, dir, heading: dir }
    }

    /// The head's cell.
    pub fn head(&self) -> (r: Position)
        requires
            self.wf(),
        ensures
            r == self.body@[0],
    {
        self.body[0]
    }

    /// Whether the next move keeps the head's coordinates within `i32`.
    pub fn move_fits(&self) -> (r: bool)
        requires
            self.wf(),
        ensures
            r == self.can_move(),
    {
        crate::geometry::step(self.body[0], self.dir).is_some()
    }

    /// Asks for a new direction. It is taken unless it is the reverse of the direction
    /// held now or of the heading of the last move; otherwise nothing changes.
    pub fn set_direction(&mut self, requested: Direction)
        requires
            old(self).wf(),
        ensures
            final(self).wf(),
            final(self).dir == turned(old(self).dir, old(self).heading, requested),
            final(self).dir != old(self).heading.opposite_spec(),
            final(self).heading == old(self).heading,
            final(self).body@ == old(self).body@,
    {
        if requested != self.dir.opposite() && requested != self.heading.opposite() {
            self.dir = requested;
        }
    }

    /// Moves one cell in the held direction: a new head in front, the tail removed.
    /// Returns the removed tail cell.
    pub fn advance(&mut self) -> (tail: Position)
        requires
            old(self).wf(),
            old(self).can_move(),
        ensures
            final(self).wf(),
            final(self).body@ == moved(old(self).body@, old(self).dir),
            final(self).body@.len() == old(self).body@.len(),
            tail == old(self).body@.last(),
            final(self).dir == old(self).dir,
            final(self).heading == old(self).dir,
    {
        let head = self.body[0];
        let new_head = match crate::geometry::step(head, self.dir) {
            Some(p) => p,
            None => head,
        };
        self.body.insert(0, new_head);
        let tail = match self.body.pop() {
            Some(t) => t,
            None => new_head,
        };
        self.heading = self.dir;
        assert(self.body@ =~= moved(old(self).body@, old(self).dir));
        tail
    }

    /// Moves one cell in the held direction and keeps the tail: one cell longer.
    pub fn grow(&mut self)
        requires
            old(self).wf(),
            old(self).can_move(),
        ensures
            final(self).wf(),
            final(self).body@ == grown(old(self).body@, old(self).dir),
            final(self).body@.len() == old(self).body@.len() + 1,
            final(self).dir == old(self).dir,
            final(self).heading == old(self).dir,
    {
        let head = self.body[0];
        let new_head = match crate::geometry::step(head, self.dir) {
            Some(p) => p,
            None => head,
        };
        self.body.insert(0, new_head);
        self.heading = self.dir;
        assert(self.body@ =~= grown(old(self).body@, old(self).dir));
    }

    /// Puts `tail` back behind the tail: undoes the tail removal of the last move.
    pub fn restore_tail(&mut self, tail: Position)
        requires
            old(self).wf(),
        ensures
            final(self).wf(),
            final(self).body@ == old(self).body@.push(tail),
            final(self).dir == old(self).dir,
            final(self).heading == old(self).heading,
    {
        self.body.push(tail);
    }
}

/// Whatever directions are asked for within one tick, in whatever number, the direction
/// held never becomes the reverse of the direction held at the start of the tick.
pub proof fn lemma_no_reversal_within_tick(dir: Direction, heading: Direction, requests: Seq<Direction>)
    requires
        dir != heading.opposite_spec(),
    ensures
        turned_all(dir, heading, requests) != heading.opposite_spec(),
    decreases requests.len(),
{
    if requests.len() > 0 {
        lemma_no_reversal_within_tick(dir, heading, requests.drop_last());
    }
}

} // verus!
