//! Self-collision and food detection over a body and a food cell.
use vstd::prelude::*;

use crate::geometry::Position;

verus! {

/// The two independent findings of one check.
#[derive(Clone, Copy, Debug, PartialEq, Eq, Structural)]
pub struct Outcome {
    pub self_collision: bool,
    pub food_eaten: bool,
}

/// Two segments share a cell: the set of distinct cells is smaller than the body.
pub open spec fn has_self_collision(body: Seq<Position>) -> bool {
    body.to_set().len() < body.len()
}

/// A body has fewer distinct cells than segments exactly when two segments share a cell.
pub proof fn lemma_self_collision_iff_repeat(body: Seq<Position>)
    ensures
        has_self_collision(body) <==> !body.no_duplicates(),
{
    body.lemma_cardinality_of_set();
    if body.no_duplicates() {
        body.unique_seq_to_set();
    } else if body.to_set().len() == body.len() {
        body.lemma_no_dup_set_cardinality();
    }
}

/// Whether `cell` is one of the body's cells.
pub fn occupies(body: &Vec<Position>, cell: Position) -> (r: bool)
    ensures
        r == body@.contains(cell),
{
    let n = body.len();
    let mut i: usize = 0;
    while i < n
        invariant
            n == body@.len(),
            0 <= i <= n,
            forall|k: int| 0 <= k < i ==> body@[k] != cell,
        decreases n - i,
    {
        if body[i] == cell {
            return true;
        }
        i += 1;
    }
    false
}

/// Whether two segments of the body share a cell.
fn has_repeat(body: &Vec<Position>) -> (r: bool)
    ensures
        r == !body@.no_duplicates(),
{
    let n = body.len();
    let mut i: usize = 0;
    while i < n
        invariant
            n == body@.len(),
            0 <= i <= n,
            forall|a: int, b: int| 0 <= a < i && a < b < n ==> body@[a] != body@[b],
        decreases n - i,
    {
        let mut j: usize = i + 1;
        while j < n
            invariant
                n == body@.len(),
                i < n,
                i + 1 <= j <= n,
                forall|a: int, b: int| 0 <= a < i && a < b < n ==> body@[a] != body@[b],
                forall|b: int| i < b < j ==> body@[i as int] != body@[b],
            decreases n - j,
        {
            if body[i] == body[j] {
                assert(body@[i as int] == body@[j as int]);
                return true;
            }
            j += 1;
        }
        i += 1;
    }
    assert(body@.no_duplicates()) by {
        assert forall|a: int, b: int| 0 <= a < n && 0 <= b < n && a != b implies body@[a]
            != body@[b] by {
            if b < a {
                assert(body@[b] != body@[a]);
            }
        }
    }
    false
}

/// Checks a body that has just moved against itself and against the food cell.
/// Both findings are reported, independently of each other.
pub fn detect(body: &Vec<Position>, food: Position) -> (r: Outcome)
    ensures
        r.self_collision == has_self_collision(body@),
        r.food_eaten == body@.contains(food),
{
    proof {
        lemma_self_collision_iff_repeat(body@);
    }
    let self_collision = has_repeat(body);
    let food_eaten = occupies(body, food);
    Outcome { self_collision, food_eaten }
}

} // verus!
