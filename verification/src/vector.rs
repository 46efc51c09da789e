//! The vector itself: three encoded components in the order x, y, z.

use vstd::prelude::*;

use crate::binary64::{lemma_negate_twice, negate, negated, POSITIVE_ZERO};
use crate::error::Vec3Error;

verus! {

/// How many components a vector has.
pub const DIMENSION: usize = 3;

/// A point or a direction in space: the encodings of x, y and z, in that
/// order.
///
/// Any encoding may stand in any component, the infinities and the NaNs
/// included.
#[derive(Clone, Copy, Debug)]
pub struct Vec3 {
    pub e: [u64; 3],
}

/// A point is a vector read as a position.
pub type Point3 = Vec3;

impl View for Vec3 {
    type V = Seq<u64>;

    /// The three encodings as a sequence: x first, z last.
    open spec fn view(&self) -> Seq<u64> {
        self.e@
    }
}

/// Admits a position that names a component.
///
/// Positions 0, 1 and 2 are handed back unchanged; every other position is
/// refused with `IndexOutOfRange`.
pub fn check_index(index: usize) -> (r: Result<usize, Vec3Error>)
    ensures
        index < DIMENSION ==> r == Ok::<usize, Vec3Error>(index),
        index >= DIMENSION ==> r == Err::<usize, Vec3Error>(Vec3Error::IndexOutOfRange),
{
    if index < DIMENSION {
        Ok(index)
    } else {
        Err(Vec3Error::IndexOutOfRange)
    }
}

impl Vec3 {
    /// What reading the component at `index` gives: the encoding stored
    /// there, or `IndexOutOfRange` where the vector has no such position.
    pub open spec fn component(self, index: int) -> Result<u64, Vec3Error> {
        if 0 <= index < DIMENSION {
            Ok(self@[index])
        } else {
            Err(Vec3Error::IndexOutOfRange)
        }
    }

    /// The vector whose components are the negations of those of `self`.
    pub open spec fn negation(self) -> Vec3 {
        Vec3 { e: [negated(self.e[0]), negated(self.e[1]), negated(self.e[2])] }
    }

    /// The zero vector: every component is `+0.0`.
    pub fn new() -> (v: Vec3)
        ensures
            v@ == seq![POSITIVE_ZERO, POSITIVE_ZERO, POSITIVE_ZERO],
    {
        let v = Vec3 { e: [POSITIVE_ZERO, POSITIVE_ZERO, POSITIVE_ZERO] };
        assert(v@ =~= seq![POSITIVE_ZERO, POSITIVE_ZERO, POSITIVE_ZERO]);
        v
    }

    /// The vector with the given encodings as x, y and z. Nothing is
    /// checked: every encoding is accepted.
    pub fn from(e0: u64, e1: u64, e2: u64) -> (v: Vec3)
        ensures
            v@ == seq![e0, e1, e2],
    {
        let v = Vec3 { e: [e0, e1, e2] };
        assert(v@ =~= seq![e0, e1, e2]);
        v
    }

    /// The first component.
    pub fn x(&self) -> (r: u64)
        ensures
            r == self@[0],
    {
        self.e[0]
    }

    /// The second component.
    pub fn y(&self) -> (r: u64)
        ensures
            r == self@[1],
    {
        self.e[1]
    }

    /// The third component.
    pub fn z(&self) -> (r: u64)
        ensures
            r == self@[2],
    {
        self.e[2]
    }

    /// The component at a position: 0 is x, 1 is y, 2 is z.
    ///
    /// Any other position is refused with `IndexOutOfRange`.
    pub fn index(&self, index: usize) -> (r: Result<&u64, Vec3Error>)
        ensures
            match r {
                Ok(c) => self.component(index as int) == Ok::<u64, Vec3Error>(*c),
                Err(e) => self.component(index as int) == Err::<u64, Vec3Error>(e),
            },
    {
        match check_index(index) {
            Ok(i) => Ok(&self.e[i]),
            Err(e) => Err(e),
        }
    }

    /// A vector always has exactly three components.
    pub proof fn lemma_three_components(self)
        ensures
            self@.len() == DIMENSION,
    {
    }

    /// Reading by position agrees with reading by name: position 0 holds
    /// what `x` returns, position 1 what `y` returns and position 2 what `z`
    /// returns, and no other position can be read.
    pub proof fn lemma_positions_name_components(self, index: int)
        ensures
            self.component(0) == Ok::<u64, Vec3Error>(self@[0]),
            self.component(1) == Ok::<u64, Vec3Error>(self@[1]),
            self.component(2) == Ok::<u64, Vec3Error>(self@[2]),
            index < 0 || index > 2 ==> self.component(index) == Err::<u64, Vec3Error>(
                Vec3Error::IndexOutOfRange,
            ),
    {
    }

    /// Negating a vector twice gives the vector back, bit for bit.
    pub proof fn lemma_negation_twice(self)
        ensures
            self.negation().negation() == self,
    {
        lemma_negate_twice(self.e[0]);
        lemma_negate_twice(self.e[1]);
        lemma_negate_twice(self.e[2]);
        assert(self.negation().negation().e =~= self.e);
    }
}

impl core::ops::Neg for Vec3 {
    type Output = Vec3;

    /// Flips the sign of every component.
    ///
    /// Inside `verus!` call `neg` by name: a prefix minus is read there as
    /// integer arithmetic.
    fn neg(self) -> (r: Vec3)
        ensures
            r == self.negation(),
    {
        Vec3 { e: [negate(self.e[0]), negate(self.e[1]), negate(self.e[2])] }
    }
}

impl vstd::std_specs::ops::NegSpecImpl for Vec3 {
    open spec fn obeys_neg_spec() -> bool {
        true
    }

    open spec fn neg_req(self) -> bool {
        true
    }

    open spec fn neg_spec(self) -> Vec3 {
        self.negation()
    }
}

} // verus!
