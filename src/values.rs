//! A record holding one value for each direction, and iteration over it.
use vstd::multiset::Multiset;
use vstd::prelude::*;

use crate::cardinal::{all_cardinals, Cardinal};

verus! {

/// A value assigned to each cardinal. This can be used as a shorthand for
/// accessing arrays.
#[derive(Debug, PartialEq, Eq, Clone, Copy, PartialOrd, Ord, Default, Hash)]
pub struct CardinalValues<T> {
    /// The value assigned to east.
    pub east: T,
    /// The value assigned to north.
    pub north: T,
    /// The value assigned to west.
    pub west: T,
    /// The value assigned to south.
    pub south: T,
}

impl<T> CardinalValues<T> {
    /// The value held for direction `c`.
    pub open spec fn at(self, c: Cardinal) -> T {
        match c {
            Cardinal::East => self.east,
            Cardinal::North => self.north,
            Cardinal::West => self.west,
            Cardinal::South => self.south,
        }
    }

    /// The four values, in the order East, North, West, South.
    pub open spec fn values(self) -> Seq<T> {
        seq![self.east, self.north, self.west, self.south]
    }

    /// The four directions with their values, in the order East, North, West, South.
    pub open spec fn entries(self) -> Seq<(Cardinal, T)> {
        seq![
            (Cardinal::East, self.east),
            (Cardinal::North, self.north),
            (Cardinal::West, self.west),
            (Cardinal::South, self.south),
        ]
    }

    /// The value held for direction `c`.
    pub fn index(&self, c: Cardinal) -> (r: &T)
        ensures
            *r == self.at(c),
    {
        match c {
            Cardinal::East => &self.east,
            Cardinal::North => &self.north,
            Cardinal::West => &self.west,
            Cardinal::South => &self.south,
        }
    }

    /// Converts a `CardinalValues` from one type to another, applying `f` to each
    /// value and keeping it under its direction.
    pub fn map<B, F>(self, f: F) -> (r: CardinalValues<B>)
        where
            F: Fn(T) -> B,
        requires
            forall|c: Cardinal| f.requires((#[trigger] self.at(c),)),
        ensures
            forall|c: Cardinal| f.ensures((self.at(c),), #[trigger] r.at(c)),
    {
        assert(f.requires((self.at(Cardinal::East),)));
        assert(f.requires((self.at(Cardinal::North),)));
        assert(f.requires((self.at(Cardinal::West),)));
        assert(f.requires((self.at(Cardinal::South),)));
        let east = f(self.east);
        let north = f(self.north);
        let west = f(self.west);
        let south = f(self.south);
        let r = CardinalValues { east, north, west, south };
        assert forall|c: Cardinal| f.ensures((self.at(c),), #[trigger] r.at(c)) by {
            match c {
                Cardinal::East => {},
                Cardinal::North => {},
                Cardinal::West => {},
                Cardinal::South => {},
            }
        }
        r
    }

    /// An iterator over the four values, in the order East, North, West, South.
    pub fn into_iter(self) -> (r: CardinalIterator<T>)
        ensures
            r.source() == self,
            r.position() == 0,
            r@ == self.values(),
    {
        CardinalIterator { values: self, pos: 0 }
    }
}

/// An iterator over a `CardinalValues`, made by `CardinalValues::into_iter`.
pub struct CardinalIterator<T> {
    values: CardinalValues<T>,
    pos: usize,
}

impl<T> CardinalIterator<T> {
    #[verifier::type_invariant]
    spec fn inv(self) -> bool {
        self.pos <= 4
    }

    /// The record being walked.
    pub closed spec fn source(&self) -> CardinalValues<T> {
        self.values
    }

    /// How many values have been handed out.
    pub closed spec fn position(&self) -> int {
        self.pos as int
    }

    /// Converts this iterator into an enumerated one, where each value comes with
    /// its direction. Values already handed out stay skipped.
    pub fn enumerate(self) -> (r: CardinalEnumeratedIterator<T>)
        ensures
            r.source() == self.source(),
            r.position() == self.position(),
            r@.len() == self@.len(),
            forall|i: int|
                0 <= i < r@.len() ==> #[trigger] r@[i] == (
                    all_cardinals()[4 - self@.len() + i],
                    self@[i],
                ),
    {
        proof {
            use_type_invariant(&self);
        }
        CardinalEnumeratedIterator { values: self.values, pos: self.pos }
    }
}

impl<T> View for CardinalIterator<T> {
    type V = Seq<T>;

    /// The values not handed out yet, in order.
    open spec fn view(&self) -> Seq<T> {
        self.source().values().skip(self.position())
    }
}

impl<T: Copy> CardinalIterator<T> {
    /// Hands out the next value, or `None` once all four have been.
    pub fn next(&mut self) -> (r: Option<T>)
        ensures
            final(self).source() == old(self).source(),
            old(self)@.len() == 0 ==> r is None && final(self)@ == old(self)@,
            old(self)@.len() > 0 ==> r == Some(old(self)@[0]) && final(self)@ == old(self)@.drop_first(),
    {
        proof {
            use_type_invariant(&*self);
        }
        let found = match self.pos {
            0 => self.values.east,
            1 => self.values.north,
            2 => self.values.west,
            3 => self.values.south,
            _ => {
                return None;
            },
        };
        self.pos = self.pos + 1;
        Some(found)
    }
}

/// An iterator over a `CardinalValues` that gives each value with its direction,
/// made by `CardinalIterator::enumerate`.
pub struct CardinalEnumeratedIterator<T> {
    values: CardinalValues<T>,
    pos: usize,
}

impl<T> CardinalEnumeratedIterator<T> {
    #[verifier::type_invariant]
    spec fn inv(self) -> bool {
        self.pos <= 4
    }

    /// The record being walked.
    pub closed spec fn source(&self) -> CardinalValues<T> {
        self.values
    }

    /// How many entries have been handed out.
    pub closed spec fn position(&self) -> int {
        self.pos as int
    }
}

impl<T> View for CardinalEnumeratedIterator<T> {
    type V = Seq<(Cardinal, T)>;

    /// The entries not handed out yet, in order.
    open spec fn view(&self) -> Seq<(Cardinal, T)> {
        self.source().entries().skip(self.position())
    }
}

impl<T: Copy> CardinalEnumeratedIterator<T> {
    /// Hands out the next direction with its value, or `None` once all four have been.
    pub fn next(&mut self) -> (r: Option<(Cardinal, T)>)
        ensures
            final(self).source() == old(self).source(),
            old(self)@.len() == 0 ==> r is None && final(self)@ == old(self)@,
            old(self)@.len() > 0 ==> r == Some(old(self)@[0]) && final(self)@ == old(self)@.drop_first(),
    {
        proof {
            use_type_invariant(&*self);
        }
        let found = match self.pos {
            0 => (Cardinal::East, self.values.east),
            1 => (Cardinal::North, self.values.north),
            2 => (Cardinal::West, self.values.west),
            3 => (Cardinal::South, self.values.south),
            _ => {
                return None;
            },
        };
        self.pos = self.pos + 1;
        Some(found)
    }
}

/// Iterating a record, plain or enumerated, yields four items that hold the
/// record's four values, each once: the enumerated items pair each direction,
/// in declaration order, with the value held for it.
pub proof fn lemma_iteration_yields_every_value<T>(v: CardinalValues<T>)
    ensures
        v.values().len() == 4,
        v.entries().len() == 4,
        v.values().to_multiset() == Multiset::empty().insert(v.east).insert(v.north).insert(
            v.west,
        ).insert(v.south),
        v.entries().map_values(|e: (Cardinal, T)| e.1) == v.values(),
        forall|i: int|
            0 <= i < 4 ==> #[trigger] v.entries()[i] == (
                all_cardinals()[i],
                v.at(all_cardinals()[i]),
            ),
{
    broadcast use vstd::seq_lib::group_to_multiset_ensures;

    let s0 = Seq::<T>::empty();
    let s1 = s0.push(v.east);
    let s2 = s1.push(v.north);
    let s3 = s2.push(v.west);
    let s4 = s3.push(v.south);
    assert(s0.to_multiset() =~= Multiset::empty());
    assert(s4 == v.values());
    assert(v.entries().map_values(|e: (Cardinal, T)| e.1) =~= v.values());
}

} // verus!
