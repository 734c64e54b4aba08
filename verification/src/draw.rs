//! Draws from a random generator, one after another.

use vstd::prelude::*;

verus! {

/// A point that a run of draws from a generator has reached. A draw uses it up
/// and gives the next one, so that a run goes on only from where it is.
pub struct Position {
    point: Ghost<int>,
}

/// The point before the first draw of a run.
pub closed spec fn first_position() -> Position {
    Position { point: Ghost(0) }
}

impl Position {
    /// Returns the point before the first draw of a run.
    pub fn first() -> (position: Position)
        ensures
            position == first_position(),
    {
        Position { point: Ghost(0) }
    }
}

/// Whether `draws` lead from point to point: the draw made from each point gave
/// the value at its place, and led to the next point.
pub open spec fn are_points<T, F: Fn(Position) -> (T, Position)>(
    source: F,
    points: Seq<Position>,
    draws: Seq<T>,
) -> bool {
    &&& points.len() == draws.len() + 1
    &&& forall|i: int|
        #![trigger draws[i]]
        0 <= i < draws.len() ==> call_ensures(source, (points[i],), (draws[i], points[i + 1]))
}

/// Whether `draws` are all that `source` gave between two points, in order:
/// nothing was drawn there and thrown away.
pub open spec fn is_run<T, F: Fn(Position) -> (T, Position)>(
    source: F,
    from: Position,
    draws: Seq<T>,
    to: Position,
) -> bool {
    exists|points: Seq<Position>| #[trigger]
        are_points(source, points, draws) && points.first() == from && points.last() == to
}

/// Without a draw no other point is reached.
pub proof fn lemma_empty_run<T, F: Fn(Position) -> (T, Position)>(source: F, at: Position)
    ensures
        is_run(source, at, Seq::<T>::empty(), at),
{
    assert(are_points(source, seq![at], Seq::<T>::empty()));
}

/// A draw from the end of a run makes the run longer by what it gave.
pub proof fn lemma_run_goes_on<T, F: Fn(Position) -> (T, Position)>(
    source: F,
    from: Position,
    draws: Seq<T>,
    at: Position,
    drawn: T,
    to: Position,
)
    requires
        is_run(source, from, draws, at),
        call_ensures(source, (at,), (drawn, to)),
    ensures
        is_run(source, from, draws.push(drawn), to),
{
    let points = choose|points: Seq<Position>| #[trigger]
        are_points(source, points, draws) && points.first() == from && points.last() == at;
    let longer = points.push(to);
    assert forall|i: int| 0 <= i < draws.push(drawn).len() implies call_ensures(
        source,
        (longer[i],),
        (#[trigger] draws.push(drawn)[i], longer[i + 1]),
    ) by {
        if i < draws.len() {
            assert(draws.push(drawn)[i] == draws[i]);
        }
    }
    assert(are_points(source, longer, draws.push(drawn)));
}

} // verus!
