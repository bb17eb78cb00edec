//! The name tree and its smart constructors for basic shapes.
use vstd::prelude::*;
use crate::data::{NameData, NameType, Point, Regular};

verus! {

/// The rank of a polytope: -1 for the nullitope, 0 for a point, and so on.
pub type Rank = isize;

/// A symbolic name of a polytope, as a tree.
///
/// Several variants carry invariants (see [`Name::is_valid`]); the smart
/// constructors establish them.
#[derive(Debug, PartialEq)]
pub enum Name<T: NameType> {
    /// The nullitope.
    Nullitope,
    /// A point.
    Point,
    /// A dyad.
    Dyad,
    /// A triangle.
    Triangle { regular: T::DataRegular },
    /// A square.
    Square,
    /// A rectangle.
    Rectangle,
    /// An orthodiagonal quadrilateral.
    Orthodiagonal,
    /// A polygon with at least 4 sides if irregular, at least 5 if regular.
    Polygon { regular: T::DataRegular, n: usize },
    /// A pyramid over a base.
    Pyramid(Box<Name<T>>),
    /// A prism over a base.
    Prism(Box<Name<T>>),
    /// A tegum over a base.
    Tegum(Box<Name<T>>),
    /// A multipyramid of at least two bases, none of them a multipyramid.
    Multipyramid(Vec<Name<T>>),
    /// A multiprism of at least two bases, none of them a multiprism.
    Multiprism(Vec<Name<T>>),
    /// A multitegum of at least two bases, none of them a multitegum.
    Multitegum(Vec<Name<T>>),
    /// A multicomb of at least two bases, none of them a multicomb.
    Multicomb(Vec<Name<T>>),
    /// An antiprism over a base.
    Antiprism { base: Box<Name<T>> },
    /// An antitegum over a base, about a center.
    Antitegum { base: Box<Name<T>>, center: T::DataPoint },
    /// The Petrial of a polyhedron.
    Petrial { base: Box<Name<T>> },
    /// The dual of a polytope about a center.
    Dual { base: Box<Name<T>>, center: T::DataPoint },
    /// A simplex of rank at least 3.
    Simplex { regular: T::DataRegular, rank: Rank },
    /// A hyperblock of rank at least 3.
    Hyperblock { regular: T::DataRegular, rank: Rank },
    /// An orthoplex of rank at least 3.
    Orthoplex { regular: T::DataRegular, rank: Rank },
    /// A polytope with a facet count of at least 2 and a rank from 3 to 20.
    Generic { facet_count: usize, rank: Rank },
    /// A smaller variant of a polytope.
    Small(Box<Name<T>>),
    /// A greater variant of a polytope.
    Great(Box<Name<T>>),
    /// A stellation of a polytope.
    Stellated(Box<Name<T>>),
}

/// A name is the nullitope unless said otherwise.
impl<T: NameType> Default for Name<T> {
    fn default() -> (r: Name<T>)
        ensures
            r is Nullitope,
    {
        Name::Nullitope
    }
}

/// Whether a regularity capsule records "not regular" (always, for a
/// capsule that stores nothing).
pub open spec fn irregular<T: NameType>(d: T::DataRegular) -> bool {
    T::DataRegular::is_phantom() || d.stored() is No
}

/// Whether a regularity capsule cannot rule out "regular".
pub open spec fn maybe_regular<T: NameType>(d: T::DataRegular) -> bool {
    T::DataRegular::is_phantom() || d.stored() is Yes
}

/// Whether two point capsules hold the same point.
pub open spec fn same_point<T: NameType>(a: T::DataPoint, b: T::DataPoint) -> bool {
    T::DataPoint::is_phantom() || a.stored()@ == b.stored()@
}

/// The name of an `n`-gon.
pub open spec fn polygon_of<T: NameType>(regular: T::DataRegular, n: usize, r: Name<T>) -> bool {
    if n == 3 {
        r == Name::<T>::Triangle { regular }
    } else if n == 4 && maybe_regular::<T>(regular) {
        r is Square
    } else {
        r == Name::<T>::Polygon { regular, n }
    }
}

/// The name of a rectangle: a square when abstract.
pub open spec fn rectangle_of<T: NameType>(r: Name<T>) -> bool {
    if T::abstract_marker() {
        r is Square
    } else {
        r is Rectangle
    }
}

/// The name of an orthodiagonal quadrilateral: a square when abstract.
pub open spec fn orthodiagonal_of<T: NameType>(r: Name<T>) -> bool {
    if T::abstract_marker() {
        r is Square
    } else {
        r is Orthodiagonal
    }
}

/// The names shared by the simplex, hyperblock and orthoplex of rank below 2.
pub open spec fn low_rank_of<T: NameType>(rank: Rank, r: Name<T>) -> bool {
    &&& rank == -1 ==> r is Nullitope
    &&& rank == 0 ==> r is Point
    &&& rank == 1 ==> r is Dyad
}

/// The name of a simplex of a given rank.
pub open spec fn simplex_of<T: NameType>(regular: T::DataRegular, rank: Rank, r: Name<T>) -> bool {
    if -1 <= rank <= 1 {
        low_rank_of(rank, r)
    } else if rank == 2 {
        r == Name::<T>::Triangle { regular }
    } else {
        r == Name::<T>::Simplex { regular, rank }
    }
}

/// The name of a hyperblock of a given rank.
pub open spec fn hyperblock_of<T: NameType>(regular: T::DataRegular, rank: Rank, r: Name<T>) -> bool {
    if -1 <= rank <= 1 {
        low_rank_of(rank, r)
    } else if rank == 2 {
        rectangle_of(r)
    } else {
        r == Name::<T>::Hyperblock { regular, rank }
    }
}

/// The name of an orthoplex of a given rank.
pub open spec fn orthoplex_of<T: NameType>(regular: T::DataRegular, rank: Rank, r: Name<T>) -> bool {
    if -1 <= rank <= 1 {
        low_rank_of(rank, r)
    } else if rank == 2 {
        orthodiagonal_of(r)
    } else {
        r == Name::<T>::Orthoplex { regular, rank }
    }
}

/// The name of a polytope known only by its facet count and rank.
pub open spec fn generic_of<T: NameType>(n: usize, rank: Rank, r: Name<T>) -> bool {
    if -1 <= rank <= 1 {
        low_rank_of(rank, r)
    } else if rank == 2 {
        if n == 3 {
            r is Triangle && irregular::<T>(r->Triangle_regular)
        } else if n == 4 && T::DataRegular::is_phantom() {
            r is Square
        } else {
            r is Polygon && r->Polygon_n == n && irregular::<T>(r->Polygon_regular)
        }
    } else {
        r == Name::<T>::Generic { facet_count: n, rank }
    }
}

/// A regularity capsule that records "not regular".
pub fn irregular_data<T: NameType>() -> (r: T::DataRegular)
    ensures
        irregular::<T>(r),
{
    T::DataRegular::new(Regular::No)
}

impl<T: NameType> Name<T> {
    /// The name of a polygon with `n` sides, regular or not.
    pub fn polygon(regular: T::DataRegular, n: usize) -> (r: Self)
        ensures
            polygon_of(regular, n, r),
    {
        if n == 3 {
            Name::Triangle { regular }
        } else if n == 4 && regular.satisfies(|x: &Regular| -> (b: bool) ensures b == (x is Yes) { x.is_yes() }) {
            Name::Square
        } else {
            Name::Polygon { regular, n }
        }
    }

    /// The name of a rectangle, which is a square when abstract.
    pub fn rectangle() -> (r: Self)
        ensures
            rectangle_of(r),
    {
        if T::is_abstract() {
            Name::Square
        } else {
            Name::Rectangle
        }
    }

    /// The name of an orthodiagonal quadrilateral, which is a square when
    /// abstract.
    pub fn orthodiagonal() -> (r: Self)
        ensures
            orthodiagonal_of(r),
    {
        if T::is_abstract() {
            Name::Square
        } else {
            Name::Orthodiagonal
        }
    }

    /// The name of a simplex of a given rank.
    pub fn simplex(regular: T::DataRegular, rank: Rank) -> (r: Self)
        ensures
            simplex_of(regular, rank, r),
    {
        if rank == -1 {
            Name::Nullitope
        } else if rank == 0 {
            Name::Point
        } else if rank == 1 {
            Name::Dyad
        } else if rank == 2 {
            Name::Triangle { regular }
        } else {
            Name::Simplex { regular, rank }
        }
    }

    /// The name of a hyperblock of a given rank.
    pub fn hyperblock(regular: T::DataRegular, rank: Rank) -> (r: Self)
        ensures
            hyperblock_of(regular, rank, r),
    {
        if rank == -1 {
            Name::Nullitope
        } else if rank == 0 {
            Name::Point
        } else if rank == 1 {
            Name::Dyad
        } else if rank == 2 {
            Self::rectangle()
        } else {
            Name::Hyperblock { regular, rank }
        }
    }

    /// The name of an orthoplex of a given rank.
    pub fn orthoplex(regular: T::DataRegular, rank: Rank) -> (r: Self)
        ensures
            orthoplex_of(regular, rank, r),
    {
        if rank == -1 {
            Name::Nullitope
        } else if rank == 0 {
            Name::Point
        } else if rank == 1 {
            Name::Dyad
        } else if rank == 2 {
            Self::orthodiagonal()
        } else {
            Name::Orthoplex { regular, rank }
        }
    }

    /// The name of a polytope with `n` facets and a given rank.
    pub fn generic(n: usize, rank: Rank) -> (r: Self)
        ensures
            generic_of(n, rank, r),
    {
        if rank == -1 {
            Name::Nullitope
        } else if rank == 0 {
            Name::Point
        } else if rank == 1 {
            Name::Dyad
        } else if rank == 2 {
            Self::polygon(irregular_data::<T>(), n)
        } else {
            Name::Generic { facet_count: n, rank }
        }
    }
}

} // verus!
