//! Transactions.

use crate::draw::Position;
use rand::distributions::Standard;
use rand::Rng;
use vstd::prelude::*;

verus! {

/// Calls `rand::Rng::sample` on `rand::thread_rng()` with the standard
/// distribution of bytes. Nothing is claimed of the byte: it is random. The
/// positions only tell one draw from another, the generator does not get them.
/// The call panics only on a system that offers no randomness.
#[verifier::external_body]
fn sample_byte(at: Position) -> (drawn: (u8, Position)) {
    (rand::thread_rng().sample(Standard), at)
}

/// Whether the bytes are what the thread's random generator gave in one run of
/// draws, from the first draw to the last.
pub closed spec fn are_samples(bytes: Seq<u8>) -> bool {
    exists|to: Position| #[trigger]
        crate::draw::is_run(sample_byte, crate::draw::first_position(), bytes, to)
}

/// Samples are what the calls of the generator gave, one call for each: every
/// call is made from the position that the call before it gave.
proof fn samples_are_one_run(bytes: Seq<u8>) -> (points: Seq<Position>)
    requires
        are_samples(bytes),
    ensures
        points.len() == bytes.len() + 1,
        points[0] == crate::draw::first_position(),
        forall|i: int|
            #![trigger bytes[i]]
            0 <= i < bytes.len() ==> call_ensures(
                sample_byte,
                (points[i],),
                (bytes[i], points[i + 1]),
            ),
{
    let to = choose|to: Position| #[trigger]
        crate::draw::is_run(sample_byte, crate::draw::first_position(), bytes, to);
    choose|points: Seq<Position>| #[trigger]
        crate::draw::are_points(sample_byte, points, bytes) && points.first()
            == crate::draw::first_position() && points.last() == to
}

/// Whether a byte is what the thread's random generator gave on a draw: the
/// draw with that number, in a run of draws.
pub open spec fn is_sample(draw: usize, byte: u8) -> bool {
    exists|draws: Seq<u8>| #[trigger]
        are_samples(draws) && draw < draws.len() && draws[draw as int] == byte
}

/// Whether the bytes are the first `len` that `sample` gives, in the order of
/// the draws: `sample(i)` is the draw number `i`.
pub open spec fn are_draws<F: Fn(usize) -> u8>(bytes: Seq<u8>, len: usize, sample: F) -> bool {
    &&& bytes.len() == len
    &&& forall|i: usize|
        #![trigger bytes[i as int]]
        i < len ==> call_ensures(sample, (i,), bytes[i as int])
}

/// A transaction.
#[derive(Eq, PartialEq, Hash, Ord, PartialOrd, Debug, Clone)]
pub struct Transaction(pub Vec<u8>);

impl Transaction {
    /// Returns a transaction of `len` random bytes: one draw for each, in the
    /// order of the draws. A vector cannot hold more than `isize::MAX` of them.
    pub fn random(len: usize) -> (txn: Transaction)
        requires
            len <= isize::MAX,
        ensures
            txn.0@.len() == len,
            are_samples(txn.0@),
            forall|i: usize|
                #![trigger txn.0@[i as int]]
                i < len ==> is_sample(i, txn.0@[i as int]),
    {
        let (txn, _) = Self::draw_from(len, sample_byte, Position::first());
        txn
    }

    /// Returns the transaction of the next `len` bytes that `source` gives from
    /// a position on, and the position behind them: one draw is made for each
    /// byte, and none is thrown away.
    pub fn draw_from<F: Fn(Position) -> (u8, Position)>(
        len: usize,
        source: F,
        from: Position,
    ) -> (drawn: (Transaction, Position))
        requires
            len <= isize::MAX,
            forall|at: Position| call_requires(source, (at,)),
        ensures
            drawn.0.0@.len() == len,
            crate::draw::is_run(source, from, drawn.0.0@, drawn.1),
    {
        let ghost start = from;
        let mut at: Position = from;
        let mut bytes: Vec<u8> = Vec::with_capacity(len);
        proof {
            crate::draw::lemma_empty_run::<u8, F>(source, at);
        }
        while bytes.len() < len
            invariant
                bytes@.len() <= len,
                crate::draw::is_run(source, start, bytes@, at),
                forall|at: Position| call_requires(source, (at,)),
            decreases len - bytes@.len(),
        {
            let (byte, next) = source(at);
            proof {
                crate::draw::lemma_run_goes_on(source, start, bytes@, at, byte, next);
            }
            bytes.push(byte);
            at = next;
        }
        (Transaction(bytes), at)
    }

    /// Returns the transaction of the first `len` bytes that `sample` gives.
    pub fn collect<F: Fn(usize) -> u8>(len: usize, sample: F) -> (txn: Transaction)
        requires
            len <= isize::MAX,
            forall|i: usize| i < len ==> call_requires(sample, (i,)),
        ensures
            are_draws(txn.0@, len, sample),
    {
        let mut bytes: Vec<u8> = Vec::with_capacity(len);
        while bytes.len() < len
            invariant
                bytes@.len() <= len,
                are_draws(bytes@, bytes@.len() as usize, sample),
                forall|i: usize| i < len ==> call_requires(sample, (i,)),
            decreases len - bytes@.len(),
        {
            let byte: u8 = sample(bytes.len());
            bytes.push(byte);
        }
        Transaction(bytes)
    }
}

} // verus!
