//! The lattice algebra: meet-semilattices with a bottom element, the flat
//! lattice of constants, and the lattice of booleans.

pub mod call_lattice;
pub mod heap_lattice;
pub mod reaching_defs_lattice;
pub mod regslattice;
pub mod slot_map;
pub mod stack_growth_lattice;
pub mod state_lattice;
pub mod switch_lattice;

use crate::ir::types::LocIdx;
use std::cmp::Ordering;
use vstd::prelude::*;
use vstd::std_specs::cmp::PartialOrdSpec;

verus! {

/// A value that can be compared for equality and copied: the carrier of a
/// flat lattice.
pub trait Atom: Sized {
    /// Whether two atoms are the same.
    fn same(&self, other: &Self) -> (r: bool)
        ensures
            r == (*self == *other),
    ;

    /// A copy of this atom.
    fn duplicate(&self) -> (r: Self)
        ensures
            r == *self,
    ;
}

impl Atom for u32 {
    fn same(&self, other: &Self) -> (r: bool) {
        *self == *other
    }

    fn duplicate(&self) -> (r: Self) {
        *self
    }
}

impl Atom for (i64, i64) {
    fn same(&self, other: &Self) -> (r: bool) {
        self.0 == other.0 && self.1 == other.1
    }

    fn duplicate(&self) -> (r: Self) {
        (self.0, self.1)
    }
}

/// A domain with a meet (greatest lower bound) and the partial order that
/// goes with it.
///
/// The meet and the order are functions of the contents of the values. Two
/// values need not be comparable at all: the laws that speak of two or
/// three values hold where the values are pairwise comparable.
pub trait Semilattice: View + Sized {
    /// The meet of two contents.
    spec fn meet_spec(a: Self::V, b: Self::V) -> Self::V;

    /// Whether the first content is below the second or equal to it.
    spec fn le_spec(a: Self::V, b: Self::V) -> bool;

    /// Whether two contents can be met and ordered.
    spec fn comparable_spec(a: Self::V, b: Self::V) -> bool;

    /// The meet of two values. The location tells where in the program the
    /// two values flow together.
    fn meet(&self, other: &Self, loc: &LocIdx) -> (r: Self)
        ensures
            r@ == Self::meet_spec(self@, other@),
    ;

    /// Whether this value is below the other or equal to it.
    fn leq(&self, other: &Self) -> (r: bool)
        ensures
            r == Self::le_spec(self@, other@),
    ;

    /// Whether two values have the same content.
    fn same(&self, other: &Self) -> (r: bool)
        ensures
            r == (self@ == other@),
    ;

    /// A copy of this value.
    fn duplicate(&self) -> (r: Self)
        ensures
            r@ == self@,
    ;

    /// Being comparable is symmetric, and a value is comparable with itself.
    proof fn lemma_comparable(a: Self::V, b: Self::V)
        ensures
            Self::comparable_spec(a, a),
            Self::comparable_spec(a, b) == Self::comparable_spec(b, a),
    ;

    /// The meet of two comparable values is comparable with what either of
    /// them is comparable with.
    proof fn lemma_meet_comparable(a: Self::V, b: Self::V, c: Self::V)
        requires
            Self::comparable_spec(a, b),
            Self::comparable_spec(a, c),
            Self::comparable_spec(b, c),
        ensures
            Self::comparable_spec(Self::meet_spec(a, b), c),
    ;

    /// `a ⊓ a = a`.
    proof fn lemma_meet_idempotent(a: Self::V)
        ensures
            Self::meet_spec(a, a) == a,
    ;

    /// `a ⊓ b = b ⊓ a`.
    proof fn lemma_meet_commutative(a: Self::V, b: Self::V)
        requires
            Self::comparable_spec(a, b),
        ensures
            Self::meet_spec(a, b) == Self::meet_spec(b, a),
    ;

    /// `(a ⊓ b) ⊓ c = a ⊓ (b ⊓ c)`.
    proof fn lemma_meet_associative(a: Self::V, b: Self::V, c: Self::V)
        requires
            Self::comparable_spec(a, b),
            Self::comparable_spec(b, c),
            Self::comparable_spec(a, c),
        ensures
            Self::meet_spec(Self::meet_spec(a, b), c) == Self::meet_spec(a, Self::meet_spec(b, c)),
    ;

    /// `a ≤ b` exactly if `a` and `b` are comparable and `a ⊓ b = a`.
    proof fn lemma_le_iff_meet(a: Self::V, b: Self::V)
        ensures
            Self::le_spec(a, b) <==> Self::comparable_spec(a, b) && Self::meet_spec(a, b) == a,
    ;
}

/// A semilattice with a least element.
pub trait Lattice: Semilattice {
    /// The content of the least element.
    spec fn bot_spec() -> Self::V;

    /// The least element.
    fn bot() -> (r: Self)
        ensures
            r@ == Self::bot_spec(),
    ;

    /// `a ⊓ ⊥ = ⊥`.
    proof fn lemma_meet_bot(a: Self::V)
        requires
            Self::comparable_spec(a, Self::bot_spec()),
        ensures
            Self::meet_spec(a, Self::bot_spec()) == Self::bot_spec(),
    ;
}

/// The meet is below both of its arguments.
pub proof fn lemma_meet_is_lower_bound<L: Semilattice>(a: L::V, b: L::V)
    requires
        L::comparable_spec(a, b),
    ensures
        L::le_spec(L::meet_spec(a, b), a),
        L::le_spec(L::meet_spec(a, b), b),
{
    let m = L::meet_spec(a, b);
    L::lemma_comparable(a, b);
    L::lemma_comparable(b, a);
    L::lemma_meet_comparable(a, b, a);
    L::lemma_meet_comparable(a, b, b);
    L::lemma_meet_commutative(a, b);
    L::lemma_meet_idempotent(a);
    L::lemma_meet_idempotent(b);
    // (a ⊓ b) ⊓ b = a ⊓ (b ⊓ b) = a ⊓ b
    L::lemma_meet_associative(a, b, b);
    L::lemma_le_iff_meet(m, b);
    // (a ⊓ b) ⊓ a = (b ⊓ a) ⊓ a = b ⊓ (a ⊓ a) = b ⊓ a = a ⊓ b
    L::lemma_meet_associative(b, a, a);
    L::lemma_le_iff_meet(m, a);
}

/// The order is reflexive.
pub proof fn lemma_le_reflexive<L: Semilattice>(a: L::V)
    ensures
        L::le_spec(a, a),
{
    L::lemma_comparable(a, a);
    L::lemma_meet_idempotent(a);
    L::lemma_le_iff_meet(a, a);
}

/// The order is antisymmetric.
pub proof fn lemma_le_antisymmetric<L: Semilattice>(a: L::V, b: L::V)
    requires
        L::le_spec(a, b),
        L::le_spec(b, a),
    ensures
        a == b,
{
    L::lemma_le_iff_meet(a, b);
    L::lemma_le_iff_meet(b, a);
    L::lemma_meet_commutative(a, b);
}

/// The booleans, with `false` below `true` and conjunction as the meet.
#[derive(Clone, Copy, Debug)]
pub struct BooleanLattice {
    pub v: bool,
}

impl View for BooleanLattice {
    type V = bool;

    open spec fn view(&self) -> bool {
        self.v
    }
}

impl PartialEq for BooleanLattice {
    fn eq(&self, other: &BooleanLattice) -> (r: bool) {
        self.v == other.v
    }
}

impl vstd::std_specs::cmp::PartialEqSpecImpl for BooleanLattice {
    open spec fn obeys_eq_spec() -> bool {
        true
    }

    open spec fn eq_spec(&self, other: &BooleanLattice) -> bool {
        self.v == other.v
    }
}

impl Eq for BooleanLattice {

}

impl PartialOrd for BooleanLattice {
    fn partial_cmp(&self, other: &BooleanLattice) -> (r: Option<Ordering>) {
        if self.v == other.v {
            Some(Ordering::Equal)
        } else if other.v {
            Some(Ordering::Less)
        } else {
            Some(Ordering::Greater)
        }
    }
}

impl vstd::std_specs::cmp::PartialOrdSpecImpl for BooleanLattice {
    open spec fn obeys_partial_cmp_spec() -> bool {
        true
    }

    open spec fn partial_cmp_spec(&self, other: &BooleanLattice) -> Option<Ordering> {
        if self.v == other.v {
            Some(Ordering::Equal)
        } else if other.v {
            Some(Ordering::Less)
        } else {
            Some(Ordering::Greater)
        }
    }
}

impl Semilattice for BooleanLattice {
    open spec fn meet_spec(a: bool, b: bool) -> bool {
        a && b
    }

    open spec fn le_spec(a: bool, b: bool) -> bool {
        a ==> b
    }

    open spec fn comparable_spec(a: bool, b: bool) -> bool {
        true
    }

    fn meet(&self, other: &Self, _loc_idx: &LocIdx) -> (r: Self) {
        BooleanLattice { v: self.v && other.v }
    }

    fn leq(&self, other: &Self) -> (r: bool) {
        !self.v || other.v
    }

    fn same(&self, other: &Self) -> (r: bool) {
        self.v == other.v
    }

    fn duplicate(&self) -> (r: Self) {
        BooleanLattice { v: self.v }
    }

    proof fn lemma_comparable(a: bool, b: bool) {
    }

    proof fn lemma_meet_comparable(a: bool, b: bool, c: bool) {
    }

    proof fn lemma_meet_idempotent(a: bool) {
    }

    proof fn lemma_meet_commutative(a: bool, b: bool) {
    }

    proof fn lemma_meet_associative(a: bool, b: bool, c: bool) {
    }

    proof fn lemma_le_iff_meet(a: bool, b: bool) {
    }
}

impl Lattice for BooleanLattice {
    open spec fn bot_spec() -> bool {
        false
    }

    fn bot() -> (r: Self) {
        BooleanLattice { v: false }
    }

    proof fn lemma_meet_bot(a: bool) {
    }
}

impl Default for BooleanLattice {
    fn default() -> (r: Self)
        ensures
            r.v == false,
    {
        BooleanLattice { v: false }
    }
}

/// `true` is the greatest boolean: `a ⊓ ⊤ = a`.
pub proof fn lemma_boolean_meet_top(a: bool)
    ensures
        BooleanLattice::meet_spec(a, true) == a,
{
}

/// The order of the booleans as `<=` computes it is the order of the
/// lattice.
pub proof fn lemma_boolean_order(a: BooleanLattice, b: BooleanLattice)
    ensures
        BooleanLattice::le_spec(a@, b@) <==> (a.partial_cmp_spec(&b) == Some(Ordering::Less)
            || a.partial_cmp_spec(&b) == Some(Ordering::Equal)),
{
}

/// The flat lattice over atoms of type `T`: `None` is the least element and
/// stands for "unknown", the atoms `Some(x)` lie above it and are not
/// comparable with each other.
#[derive(Clone, Copy, Debug)]
pub struct ConstLattice<T> {
    pub v: Option<T>,
}

/// The flat lattice over 32-bit numbers.
pub type Constu32Lattice = ConstLattice<u32>;

impl<T> View for ConstLattice<T> {
    type V = Option<T>;

    open spec fn view(&self) -> Option<T> {
        self.v
    }
}

/// The meet of the flat lattice: equal atoms give themselves, every other
/// pair gives `None`.
pub open spec fn flat_meet<T>(a: Option<T>, b: Option<T>) -> Option<T> {
    if a == b {
        a
    } else {
        None
    }
}

/// The order of the flat lattice: `None` is below everything, an atom is
/// below itself only.
pub open spec fn flat_le<T>(a: Option<T>, b: Option<T>) -> bool {
    a is None || a == b
}

/// How the flat lattice compares two values: `None` is less than every
/// atom, and two different atoms do not compare.
pub open spec fn flat_partial_cmp<T>(a: Option<T>, b: Option<T>) -> Option<Ordering> {
    match (a, b) {
        (None, None) => Some(Ordering::Equal),
        (None, Some(_)) => Some(Ordering::Less),
        (Some(_), None) => Some(Ordering::Greater),
        (Some(x), Some(y)) => if x == y {
            Some(Ordering::Equal)
        } else {
            None
        },
    }
}

impl<T: Atom> PartialEq for ConstLattice<T> {
    fn eq(&self, other: &ConstLattice<T>) -> (r: bool) {
        match (&self.v, &other.v) {
            (None, None) => true,
            (Some(x), Some(y)) => x.same(y),
            _ => false,
        }
    }
}

impl<T: Atom> vstd::std_specs::cmp::PartialEqSpecImpl for ConstLattice<T> {
    open spec fn obeys_eq_spec() -> bool {
        true
    }

    open spec fn eq_spec(&self, other: &ConstLattice<T>) -> bool {
        self.v == other.v
    }
}

impl<T: Atom> Eq for ConstLattice<T> {

}

impl<T: Atom> PartialOrd for ConstLattice<T> {
    fn partial_cmp(&self, other: &ConstLattice<T>) -> (r: Option<Ordering>) {
        match (&self.v, &other.v) {
            (None, None) => Some(Ordering::Equal),
            (None, Some(_)) => Some(Ordering::Less),
            (Some(_), None) => Some(Ordering::Greater),
            (Some(x), Some(y)) => {
                if x.same(y) {
                    Some(Ordering::Equal)
                } else {
                    None
                }
            },
        }
    }
}

impl<T: Atom> vstd::std_specs::cmp::PartialOrdSpecImpl for ConstLattice<T> {
    open spec fn obeys_partial_cmp_spec() -> bool {
        true
    }

    open spec fn partial_cmp_spec(&self, other: &ConstLattice<T>) -> Option<Ordering> {
        flat_partial_cmp(self.v, other.v)
    }
}

impl<T: Atom> Semilattice for ConstLattice<T> {
    open spec fn meet_spec(a: Option<T>, b: Option<T>) -> Option<T> {
        flat_meet(a, b)
    }

    open spec fn le_spec(a: Option<T>, b: Option<T>) -> bool {
        flat_le(a, b)
    }

    open spec fn comparable_spec(a: Option<T>, b: Option<T>) -> bool {
        true
    }

    fn meet(&self, other: &Self, _loc_idx: &LocIdx) -> (r: Self) {
        match (&self.v, &other.v) {
            (None, None) => ConstLattice { v: None },
            (Some(x), Some(y)) => {
                if x.same(y) {
                    ConstLattice { v: Some(x.duplicate()) }
                } else {
                    ConstLattice { v: None }
                }
            },
            _ => ConstLattice { v: None },
        }
    }

    fn leq(&self, other: &Self) -> (r: bool) {
        match (&self.v, &other.v) {
            (None, _) => true,
            (Some(x), Some(y)) => x.same(y),
            (Some(_), None) => false,
        }
    }

    fn same(&self, other: &Self) -> (r: bool) {
        match (&self.v, &other.v) {
            (None, None) => true,
            (Some(x), Some(y)) => x.same(y),
            _ => false,
        }
    }

    fn duplicate(&self) -> (r: Self) {
        match &self.v {
            None => ConstLattice { v: None },
            Some(x) => ConstLattice { v: Some(x.duplicate()) },
        }
    }

    proof fn lemma_comparable(a: Option<T>, b: Option<T>) {
    }

    proof fn lemma_meet_comparable(a: Option<T>, b: Option<T>, c: Option<T>) {
    }

    proof fn lemma_meet_idempotent(a: Option<T>) {
    }

    proof fn lemma_meet_commutative(a: Option<T>, b: Option<T>) {
    }

    proof fn lemma_meet_associative(a: Option<T>, b: Option<T>, c: Option<T>) {
    }

    proof fn lemma_le_iff_meet(a: Option<T>, b: Option<T>) {
    }
}

impl<T: Atom> Lattice for ConstLattice<T> {
    open spec fn bot_spec() -> Option<T> {
        None
    }

    fn bot() -> (r: Self) {
        ConstLattice { v: None }
    }

    proof fn lemma_meet_bot(a: Option<T>) {
    }
}

impl<T> Default for ConstLattice<T> {
    fn default() -> (r: Self)
        ensures
            r.v is None,
    {
        ConstLattice { v: None }
    }
}

impl<T> ConstLattice<T> {
    /// The atom `v`.
    pub fn new(v: T) -> (r: Self)
        ensures
            r.v == Some(v),
    {
        ConstLattice { v: Some(v) }
    }
}

/// The order of the flat lattice as `<=` computes it is the order of the
/// lattice.
pub proof fn lemma_flat_order<T>(a: Option<T>, b: Option<T>)
    ensures
        flat_le(a, b) <==> (flat_partial_cmp(a, b) == Some(Ordering::Less) || flat_partial_cmp(a, b) == Some(
            Ordering::Equal,
        )),
{
}

} // verus!
