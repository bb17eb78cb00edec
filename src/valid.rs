//! The invariants of name nodes, checked at run time.
use vstd::prelude::*;
use crate::data::{NameData, NameType, Regular};
use crate::name::{maybe_regular, Name};

verus! {

/// Whether the top node of `n` meets the invariant of its variant: polygons
/// have at least 4 sides (5 if they may be regular) unless they are digons,
/// simplices, hyperblocks and orthoplices have rank at least 3, every
/// multi-operation has at least two bases and none of its own kind, and
/// generic polytopes have at least 2 facets and a rank from 3 to 20.
pub open spec fn valid_node<T: NameType>(n: Name<T>) -> bool {
    match n {
        Name::Polygon { regular, n: k } => k == 2 || if maybe_regular::<T>(regular) {
            k >= 5
        } else {
            k >= 4
        },
        Name::Simplex { rank, .. } | Name::Hyperblock { rank, .. } | Name::Orthoplex {
            rank,
            ..
        } => rank >= 3,
        Name::Multipyramid(v) => v@.len() >= 2 && forall|i: int|
            0 <= i < v@.len() ==> !((#[trigger] v@[i]) is Multipyramid),
        Name::Multiprism(v) => v@.len() >= 2 && forall|i: int|
            0 <= i < v@.len() ==> !((#[trigger] v@[i]) is Multiprism),
        Name::Multitegum(v) => v@.len() >= 2 && forall|i: int|
            0 <= i < v@.len() ==> !((#[trigger] v@[i]) is Multitegum),
        Name::Multicomb(v) => v@.len() >= 2 && forall|i: int|
            0 <= i < v@.len() ==> !((#[trigger] v@[i]) is Multicomb),
        Name::Generic { facet_count, rank } => facet_count >= 2 && 3 <= rank <= 20,
        _ => true,
    }
}

/// Which variant a name has, as a number; equal for names of one variant.
pub open spec fn variant_index<T: NameType>(n: Name<T>) -> int {
    match n {
        Name::Multipyramid(_) => 1,
        Name::Multiprism(_) => 2,
        Name::Multitegum(_) => 3,
        Name::Multicomb(_) => 4,
        _ => 0,
    }
}

/// Whether none of `bases` is a multi-operation of the kind numbered `kind`.
fn none_of_kind<T: NameType>(bases: &Vec<Name<T>>, kind: u8) -> (r: bool)
    requires
        1 <= kind <= 4,
    ensures
        r == forall|i: int| 0 <= i < bases@.len() ==> variant_index(#[trigger] bases@[i]) != kind,
{
    let mut i: usize = 0;
    while i < bases.len()
        invariant
            1 <= kind <= 4,
            i <= bases@.len(),
            forall|j: int| 0 <= j < i ==> variant_index(#[trigger] bases@[j]) != kind,
        decreases bases@.len() - i,
    {
        let same = match &bases[i] {
            Name::Multipyramid(_) => kind == 1,
            Name::Multiprism(_) => kind == 2,
            Name::Multitegum(_) => kind == 3,
            Name::Multicomb(_) => kind == 4,
            _ => false,
        };
        if same {
            assert(variant_index(bases@[i as int]) == kind);
            return false;
        }
        assert(variant_index(bases@[i as int]) != kind);
        i = i + 1;
    }
    true
}

impl<T: NameType> Name<T> {
    /// Whether the top node of `self` meets the invariant of its variant.
    pub fn is_valid(&self) -> (r: bool)
        ensures
            r == valid_node(*self),
    {
        match self {
            Name::Polygon { regular, n } => {
                if *n == 2 {
                    return true;
                }
                let yes = |x: &Regular| -> (b: bool)
                    ensures
                        b == (*x is Yes),
                    { x.is_yes() };
                if regular.satisfies(yes) {
                    *n >= 5
                } else {
                    *n >= 4
                }
            },
            Name::Simplex { rank, .. } | Name::Hyperblock { rank, .. } | Name::Orthoplex {
                rank,
                ..
            } => *rank >= 3,
            Name::Multipyramid(bases) => bases.len() >= 2 && none_of_kind(bases, 1),
            Name::Multiprism(bases) => bases.len() >= 2 && none_of_kind(bases, 2),
            Name::Multitegum(bases) => bases.len() >= 2 && none_of_kind(bases, 3),
            Name::Multicomb(bases) => bases.len() >= 2 && none_of_kind(bases, 4),
            Name::Generic { facet_count, rank } => *facet_count >= 2 && *rank >= 3 && *rank <= 20,
            _ => true,
        }
    }
}

} // verus!
