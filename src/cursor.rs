//! The input cursor, the end-of-input policy and the three-way outcome of a
//! recognizer.

use vstd::prelude::*;
use vstd::slice::slice_subrange;

use crate::class::Class;

verus! {

/// What running out of input means.
#[derive(Clone, Copy, Debug, PartialEq, Eq, Structural)]
pub enum Mode {
    /// The whole input is at hand: its end is final.
    Complete,
    /// More input may arrive: its end only means that not enough came yet.
    Streaming,
}

/// How many more units an incomplete recognizer asks for.
#[derive(Clone, Copy, Debug, PartialEq, Eq, Structural)]
pub enum Needed {
    /// The count is not known.
    Unknown,
    /// At least this many more units.
    Size(usize),
}

/// An immutable view of an input sequence at a position. Advancing yields a
/// new cursor over the same input; nothing is copied.
#[derive(Copy, Debug, PartialEq, Eq)]
pub struct Cursor<'a, U> {
    input: &'a [U],
    pos: usize,
}

impl<'a, U> Clone for Cursor<'a, U> {
    fn clone(&self) -> (r: Self)
        ensures
            r == *self,
    {
        proof {
            use_type_invariant(self);
        }
        Cursor { input: self.input, pos: self.pos }
    }
}

impl<'a, U> View for Cursor<'a, U> {
    /// The units not yet consumed.
    type V = Seq<U>;

    closed spec fn view(&self) -> Seq<U> {
        self.input@.skip(self.pos as int)
    }
}

impl<'a, U> Cursor<'a, U> {
    #[verifier::type_invariant]
    spec fn inv(self) -> bool {
        self.pos <= self.input@.len()
    }

    /// The whole input this cursor was made over.
    pub closed spec fn spec_source(self) -> Seq<U> {
        self.input@
    }

    /// The position of the cursor, counted from the start of its input.
    pub closed spec fn spec_offset(self) -> nat {
        self.pos as nat
    }

    /// A cursor at the start of `input`.
    pub fn new(input: &'a [U]) -> (r: Self)
        ensures
            r.spec_source() == input@,
            r.spec_offset() == 0,
            r@ == input@,
    {
        proof {
            assert(input@.skip(0) =~= input@);
        }
        Cursor { input, pos: 0 }
    }

    /// The position of the cursor, counted from the start of its input.
    pub fn offset(&self) -> (r: usize)
        ensures
            r == self.spec_offset(),
    {
        self.pos
    }

    /// The number of units left.
    pub fn len(&self) -> (r: usize)
        ensures
            r == self@.len(),
            self.spec_offset() + r == self.spec_source().len(),
    {
        proof {
            use_type_invariant(self);
        }
        self.input.len() - self.pos
    }

    /// Whether no unit is left.
    pub fn is_empty(&self) -> (r: bool)
        ensures
            r == (self@.len() == 0),
    {
        self.len() == 0
    }

    /// The next unit, if any.
    pub fn first(&self) -> (r: Option<U>)
        where U: Copy
        ensures
            r == (if self@.len() > 0 {
                Some(self@[0])
            } else {
                None::<U>
            }),
    {
        proof {
            use_type_invariant(self);
        }
        if self.pos < self.input.len() {
            Some(self.input[self.pos])
        } else {
            None
        }
    }

    /// The cursor `n` units further on.
    pub fn advance(&self, n: usize) -> (r: Self)
        requires
            n <= self@.len(),
        ensures
            r.spec_source() == self.spec_source(),
            r.spec_offset() == self.spec_offset() + n,
            r@ == self@.skip(n as int),
    {
        proof {
            use_type_invariant(self);
            assert(self.input@.skip(self.pos + n) =~= self@.skip(n as int));
        }
        let _end = self.input.len();
        Cursor { input: self.input, pos: self.pos + n }
    }

    /// The next `n` units, as a slice of the input.
    pub fn take(&self, n: usize) -> (r: &'a [U])
        requires
            n <= self@.len(),
        ensures
            r@ == self@.take(n as int),
    {
        proof {
            use_type_invariant(self);
            assert(self.input@.subrange(self.pos as int, self.pos + n) =~= self@.take(n as int));
        }
        let _end = self.input.len();
        slice_subrange(self.input, self.pos, self.pos + n)
    }

    /// The units left, as a slice of the input.
    pub fn rest(&self) -> (r: &'a [U])
        ensures
            r@ == self@,
    {
        proof {
            use_type_invariant(self);
            assert(self.input@.subrange(self.pos as int, self.input@.len() as int) =~= self@);
        }
        slice_subrange(self.input, self.pos, self.input.len())
    }
}

/// The outcome of running a recognizer on a cursor.
#[derive(Debug, PartialEq, Eq)]
pub enum Outcome<'a, U, T> {
    /// The recognized value and the cursor past what it consumed.
    Matched(T, Cursor<'a, U>),
    /// The unit at this position (counted from the start of the input) fails
    /// the class; at the end of complete input, no unit is there to pass it.
    Rejected(usize, Class),
    /// Streaming input ran out before a decision could be made.
    Incomplete(Needed),
}

/// What a recognizer decides on the units in front of it, with positions
/// counted from the cursor it started at.
pub enum Verdict {
    /// It consumes this many units.
    Match(nat),
    /// The unit at this distance fails the class.
    Reject(nat, Class),
    /// It needs at least this many more units.
    Incomplete(nat),
}

impl Verdict {
    /// The verdict with every position moved `k` units further on.
    pub open spec fn shift(self, k: nat) -> Verdict {
        match self {
            Verdict::Match(n) => Verdict::Match(n + k),
            Verdict::Reject(p, class) => Verdict::Reject(p + k, class),
            Verdict::Incomplete(n) => Verdict::Incomplete(n),
        }
    }
}

/// The verdict at the end of the input, where the class `class` was wanted
/// at distance `at`.
pub open spec fn at_end(at: nat, class: Class, mode: Mode) -> Verdict {
    match mode {
        Mode::Complete => Verdict::Reject(at, class),
        Mode::Streaming => Verdict::Incomplete(1),
    }
}

impl<'a, U, T> Outcome<'a, U, T> {
    /// This outcome, of a recognizer started at `start`, carries out the
    /// verdict `v`.
    pub open spec fn carries(self, start: Cursor<'a, U>, v: Verdict) -> bool {
        match v {
            Verdict::Match(n) => self matches Outcome::Matched(_, rest) && {
                &&& rest.spec_source() == start.spec_source()
                &&& rest.spec_offset() == start.spec_offset() + n
                &&& rest@ == start@.skip(n as int)
            },
            Verdict::Reject(p, class) => self == Outcome::<'a, U, T>::Rejected(
                (start.spec_offset() + p) as usize,
                class,
            ),
            Verdict::Incomplete(n) => self == Outcome::<'a, U, T>::Incomplete(
                Needed::Size(n as usize),
            ),
        }
    }

    /// Whether this outcome is a match.
    pub fn is_matched(&self) -> (r: bool)
        ensures
            r == (self is Matched),
    {
        match self {
            Outcome::Matched(..) => true,
            _ => false,
        }
    }

    /// Whether this outcome is a rejection.
    pub fn is_rejected(&self) -> (r: bool)
        ensures
            r == (self is Rejected),
    {
        match self {
            Outcome::Rejected(..) => true,
            _ => false,
        }
    }

    /// Whether this outcome asks for more input.
    pub fn is_incomplete(&self) -> (r: bool)
        ensures
            r == (self is Incomplete),
    {
        match self {
            Outcome::Incomplete(..) => true,
            _ => false,
        }
    }
}

} // verus!
