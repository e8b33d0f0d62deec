//! An ordered group of fights, with indexed access and a separate
//! traversal cursor.

use vstd::prelude::*;

use crate::fight::Fight;

verus! {

/// An ordered sequence of fights at one stage of the bracket; display
/// order is bracket order. The round stores no traversal state of its
/// own: each pass over it uses its own [`RoundCursor`].
#[derive(Debug)]
pub struct Round {
    fights: Vec<Fight>,
}

impl View for Round {
    type V = Seq<Fight>;

    closed spec fn view(&self) -> Seq<Fight> {
        self.fights@
    }
}

impl Round {
    pub fn new() -> (r: Round)
        ensures
            r@ == Seq::<Fight>::empty(),
    {
        Round { fights: Vec::new() }
    }

    /// Appends a fight at the end of the round.
    pub fn push(&mut self, fight: Fight)
        ensures
            final(self)@ == old(self)@.push(fight),
    {
        self.fights.push(fight);
    }

    pub fn len(&self) -> (n: usize)
        ensures
            n == self@.len(),
    {
        self.fights.len()
    }

    /// Indexed access to a stored fight.
    pub fn get(&self, i: usize) -> (r: &Fight)
        requires
            i < self@.len(),
        ensures
            *r == self@[i as int],
    {
        &self.fights[i]
    }

    /// Traverses the whole round with a fresh cursor, driving it until
    /// it signals exhaustion: the result holds exactly the round's
    /// fights, in push order.
    pub fn traverse(&self) -> (r: Vec<Fight>)
        ensures
            r@ == self@,
    {
        let mut cursor = RoundCursor::new();
        let mut out: Vec<Fight> = Vec::new();
        loop
            invariant
                0 <= cursor.pos() <= self@.len(),
                out@.len() == cursor.pos(),
                out@ == self@.take(cursor.pos()),
            ensures
                out@ == self@.take(cursor.pos()),
                cursor.pos() == self@.len(),
            decreases self@.len() - cursor.pos(),
        {
            match cursor.next(self) {
                Some(fight) => {
                    out.push(fight);
                    proof {
                        assert(out@ =~= self@.take(cursor.pos()));
                    }
                },
                None => {
                    break ;
                },
            }
        }
        proof {
            assert(self@.take(self@.len() as int) =~= self@);
        }
        out
    }
}

/// A traversal cursor over a round, held apart from the round's stored
/// data. A traversal is not restartable: two independent passes over
/// one round must each use a fresh cursor.
#[derive(Debug)]
pub struct RoundCursor {
    pos: usize,
}

impl RoundCursor {
    /// How many steps the cursor has taken.
    pub closed spec fn pos(&self) -> int {
        self.pos as int
    }

    /// A fresh cursor, positioned at the first fight.
    pub fn new() -> (c: RoundCursor)
        ensures
            c.pos() == 0,
    {
        RoundCursor { pos: 0 }
    }

    /// One traversal step over `round`: within bounds it yields the
    /// fight at the cursor and advances by one, so a fresh cursor
    /// yields the fights in push order; past the end it signals
    /// exhaustion with `None` and stays put, never reading out of
    /// bounds.
    pub fn next(&mut self, round: &Round) -> (r: Option<Fight>)
        ensures
            old(self).pos() < round@.len() ==> {
                &&& final(self).pos() == old(self).pos() + 1
                &&& r matches Some(f) && f == round@[old(self).pos()]
            },
            old(self).pos() >= round@.len() ==> {
                &&& final(self).pos() == old(self).pos()
                &&& r is None
            },
    {
        if self.pos < round.len() {
            let fight = round.get(self.pos).clone();
            self.pos = self.pos + 1;
            Some(fight)
        } else {
            None
        }
    }
}

} // verus!
