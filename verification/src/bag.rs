//! The bag that deals the pieces: the seven tetrominoes in a random order,
//! each once, then a fresh seven.

use crate::pieces::{spawn_position, Piece, PieceView, Tetromino};
use crate::utils::Direction;
use rand::rngs::ThreadRng;
use rand::Rng;
use vstd::prelude::*;

verus! {

/// The random number generator of the `rand` crate that each thread has.
/// Nothing is known of its state.
#[verifier::external_type_specification]
#[verifier::external_body]
pub struct ExThreadRng(ThreadRng);

/// An index below `len`, picked by `Rng::random_range` on the range from 0
/// to `len`. That function panics on an empty range and returns a value of
/// the range otherwise; which one is a matter of chance.
#[verifier::external_body]
fn random_index(rng: &mut ThreadRng, len: usize) -> (index: usize)
    requires
        len > 0,
    ensures
        index < len,
{
    rng.random_range(0..len)
}

/// The seven tetrominoes.
pub open spec fn all_tetrominoes() -> Seq<Tetromino> {
    seq![
        Tetromino::I,
        Tetromino::J,
        Tetromino::L,
        Tetromino::O,
        Tetromino::S,
        Tetromino::T,
        Tetromino::Z,
    ]
}

/// Whether `bag` holds each of the seven tetrominoes once.
pub open spec fn full_bag(bag: Seq<Tetromino>) -> bool {
    bag.to_multiset() == all_tetrominoes().to_multiset()
}

/// A tetromino as it spawns: not turned, at its spawn position.
pub open spec fn spawned(t: Tetromino) -> PieceView {
    PieceView {
        tetromino: t,
        orientation: Direction::Up,
        row: spawn_position(t).0,
        col: spawn_position(t).1,
    }
}

/// Whether drawing `t` from a bag that held `before` may leave `after`: the
/// last tetromino of a bag that is not empty is drawn; an empty bag is
/// first filled with the seven tetrominoes in some order.
pub open spec fn draws(before: Seq<Tetromino>, t: Tetromino, after: Seq<Tetromino>) -> bool {
    if before.len() > 0 {
        t == before.last() && after == before.drop_last()
    } else {
        full_bag(after.push(t))
    }
}

/// What a bag is: the piece that comes next, once one was dealt, and the
/// tetrominoes still in the bag, the next to be drawn last.
pub struct BagView {
    pub next: Option<PieceView>,
    pub remaining: Seq<Tetromino>,
}

impl BagView {
    /// No tetromino is in the bag twice, and the piece that comes next is
    /// as it spawns.
    pub open spec fn wf(self) -> bool {
        &&& forall|t: Tetromino| self.remaining.to_multiset().count(t) <= 1
        &&& self.next matches Some(p) ==> p == spawned(p.tetromino)
    }
}

/// Deals pieces from a shuffled bag and shows one piece ahead.
pub struct Bag {
    next_piece: Option<Piece>,
    random_bag: Vec<Tetromino>,
    rng: ThreadRng,
}

impl View for Bag {
    type V = BagView;

    closed spec fn view(&self) -> BagView {
        BagView {
            next: match self.next_piece {
                Some(p) => Some(p@),
                None => None,
            },
            remaining: self.random_bag@,
        }
    }
}

impl Bag {
    /// The piece that comes next has the shape of its tetromino.
    pub closed spec fn piece_shaped(&self) -> bool {
        self.next_piece matches Some(p) ==> p.wf()
    }

    /// What every bag that this module hands out satisfies.
    pub open spec fn wf(&self) -> bool {
        self.piece_shaped() && self@.wf()
    }

    /// An empty bag that draws its random numbers from `rng`.
    pub fn new(rng: ThreadRng) -> (bag: Self)
        ensures
            bag.wf(),
            bag@ == (BagView { next: None, remaining: Seq::empty() }),
    {
        let bag = Self { next_piece: None, random_bag: Vec::new(), rng };
        proof {
            broadcast use vstd::seq_lib::group_to_multiset_ensures;

            assert(bag@.remaining.to_multiset().len() == 0);
        }
        bag
    }

    /// The piece that `get_piece` will deal, if one is known yet.
    pub fn next_piece(&self) -> (next: Option<Piece>)
        requires
            self.wf(),
        ensures
            match next {
                Some(p) => p.wf() && self@.next == Some(p@),
                None => self@.next is None,
            },
    {
        self.next_piece
    }

    /// Deals a piece: the one shown as next, or, the first time, one drawn
    /// from the bag. Then draws the piece that comes next.
    pub fn get_piece(&mut self) -> (piece: Piece)
        requires
            old(self).wf(),
        ensures
            final(self).wf(),
            piece.wf(),
            piece@ == spawned(piece@.tetromino),
            final(self)@.next matches Some(next) && match old(self)@.next {
                Some(p) => piece@ == p && draws(
                    old(self)@.remaining,
                    next.tetromino,
                    final(self)@.remaining,
                ),
                None => exists|between: Seq<Tetromino>|
                    draws(old(self)@.remaining, piece@.tetromino, between) && draws(
                        between,
                        next.tetromino,
                        final(self)@.remaining,
                    ),
            },
    {
        let ghost before = self@.remaining;
        let piece = if let Some(p) = self.next_piece {
            p
        } else {
            self.take_from_random_bag()
        };
        let ghost between = self@.remaining;

        let next = self.take_from_random_bag();
        self.next_piece = Some(next);
        proof {
            if old(self)@.next is None {
                assert(draws(before, piece@.tetromino, between) && draws(
                    between,
                    next@.tetromino,
                    self@.remaining,
                ));
            }
        }

        piece
    }

    /// Draws a tetromino and makes the piece it spawns as.
    fn take_from_random_bag(&mut self) -> (piece: Piece)
        requires
            forall|t: Tetromino| old(self).random_bag@.to_multiset().count(t) <= 1,
        ensures
            final(self).next_piece == old(self).next_piece,
            forall|t: Tetromino| final(self).random_bag@.to_multiset().count(t) <= 1,
            piece.wf(),
            piece@ == spawned(piece@.tetromino),
            draws(old(self).random_bag@, piece@.tetromino, final(self).random_bag@),
    {
        broadcast use vstd::seq_lib::group_to_multiset_ensures;

        if self.random_bag.is_empty() {
            self.refill_random_bag();
        }
        let ghost filled = self.random_bag@;
        assert(filled.len() > 0) by {
            if old(self).random_bag@.len() == 0 {
                assert(filled.to_multiset().len() == all_tetrominoes().to_multiset().len());
            }
        }

        let tetromino = self.random_bag.pop().unwrap_or(Tetromino::O);
        let position = tetromino.get_spawn_position();
        proof {
            assert(filled.drop_last() =~= filled.remove(filled.len() - 1));
            assert(filled.drop_last().push(tetromino) =~= filled);
        }

        Piece::new(tetromino, position)
    }

    /// Fills the bag with the seven tetrominoes in a random order.
    fn refill_random_bag(&mut self)
        ensures
            final(self).next_piece == old(self).next_piece,
            full_bag(final(self).random_bag@),
            forall|t: Tetromino| final(self).random_bag@.to_multiset().count(t) <= 1,
    {
        broadcast use vstd::seq_lib::group_to_multiset_ensures;

        let mut bag = vec![
            Tetromino::I,
            Tetromino::J,
            Tetromino::L,
            Tetromino::O,
            Tetromino::S,
            Tetromino::T,
            Tetromino::Z,
        ];
        assert(bag@ =~= all_tetrominoes());

        self.random_bag = Vec::new();
        assert(self.random_bag@.to_multiset() =~= vstd::multiset::Multiset::empty());
        while !bag.is_empty()
            invariant
                self.next_piece == old(self).next_piece,
                bag@.to_multiset().add(self.random_bag@.to_multiset())
                    == all_tetrominoes().to_multiset(),
            decreases bag.len(),
        {
            let index = random_index(&mut self.rng, bag.len());
            let ghost drawn_from = bag@;
            let ghost dealt = self.random_bag@;
            let tetromino = bag.remove(index);
            self.random_bag.push(tetromino);
            proof {
                drawn_from.to_multiset_ensures();
                dealt.to_multiset_ensures();
                assert(drawn_from.contains(tetromino)) by {
                    assert(drawn_from[index as int] == tetromino);
                }
                assert(bag@.to_multiset() =~= drawn_from.to_multiset().remove(tetromino));
                assert(self.random_bag@.to_multiset() =~= dealt.to_multiset().insert(tetromino));
                assert(bag@.to_multiset().add(self.random_bag@.to_multiset())
                    =~= drawn_from.to_multiset().add(dealt.to_multiset()));
            }
        }
        proof {
            assert(bag@.to_multiset() =~= vstd::multiset::Multiset::empty());
            assert(self.random_bag@.to_multiset() =~= all_tetrominoes().to_multiset());
            lemma_each_once();
        }
    }
}

/// Each tetromino is among the seven once.
pub proof fn lemma_each_once()
    ensures
        forall|t: Tetromino| all_tetrominoes().to_multiset().count(t) == 1,
        all_tetrominoes().to_multiset().len() == 7,
{
    broadcast use vstd::seq_lib::group_to_multiset_ensures;

    let all = all_tetrominoes();
    let m = Seq::<Tetromino>::empty().push(Tetromino::I).push(Tetromino::J).push(
        Tetromino::L,
    ).push(Tetromino::O).push(Tetromino::S).push(Tetromino::T).push(Tetromino::Z);
    assert(all =~= m);
    assert(Seq::<Tetromino>::empty().to_multiset() =~= vstd::multiset::Multiset::empty());
}

} // verus!
