//! Pyramids, prisms, tegums, antiprisms and Petrials of a single name.
use vstd::prelude::*;
use crate::data::{NameData, NameType, Regular};
use crate::merge::{multipyramid_of, multiprism_of, multitegum_of, pyramid_counts_fit, prism_counts_fit, tegum_counts_fit};
use crate::name::{irregular, irregular_data, orthodiagonal_of, rectangle_of, Name};

verus! {

/// The rectangle, as a value: a square when abstract.
pub open spec fn rectangle_name<T: NameType>() -> Name<T> {
    if T::abstract_marker() {
        Name::Square
    } else {
        Name::Rectangle
    }
}

/// The orthodiagonal quadrilateral, as a value: a square when abstract.
pub open spec fn orthodiagonal_name<T: NameType>() -> Name<T> {
    if T::abstract_marker() {
        Name::Square
    } else {
        Name::Orthodiagonal
    }
}

/// Taking the pyramid of `n` keeps every rank and count within machine
/// integers.
pub open spec fn pyramid_fits<T: NameType>(n: Name<T>) -> bool {
    match n {
        Name::Simplex { rank, .. } => rank < isize::MAX,
        Name::Pyramid(b) => pyramid_counts_fit(seq![Name::Dyad, *b]),
        Name::Multipyramid(v) => pyramid_counts_fit(v@.push(Name::Point)),
        _ => true,
    }
}

/// The pyramid of `n`.
pub open spec fn pyramid_of<T: NameType>(n: Name<T>, r: Name<T>) -> bool {
    match n {
        Name::Nullitope => r is Point,
        Name::Point => r is Dyad,
        Name::Dyad => r is Triangle && irregular::<T>(r->Triangle_regular),
        Name::Triangle { regular } => if irregular::<T>(regular) {
            r == Name::<T>::Simplex { regular, rank: 3 }
        } else {
            r == Name::<T>::Pyramid(Box::new(n))
        },
        Name::Simplex { regular, rank } => if irregular::<T>(regular) {
            r == Name::<T>::Simplex { regular, rank: (rank + 1) as isize }
        } else {
            r == Name::<T>::Pyramid(Box::new(n))
        },
        Name::Pyramid(b) => multipyramid_of(seq![Name::Dyad, *b], r),
        Name::Multipyramid(v) => multipyramid_of(v@.push(Name::Point), r),
        _ => r == Name::<T>::Pyramid(Box::new(n)),
    }
}

/// Taking the prism of `n` keeps every rank and count within machine
/// integers.
pub open spec fn prism_fits<T: NameType>(n: Name<T>) -> bool {
    match n {
        Name::Hyperblock { rank, .. } => rank < isize::MAX,
        Name::Prism(b) => prism_counts_fit(seq![rectangle_name::<T>(), *b]),
        Name::Multiprism(v) => prism_counts_fit(v@.push(Name::Dyad)),
        _ => true,
    }
}

/// The prism of `n`.
pub open spec fn prism_of<T: NameType>(n: Name<T>, r: Name<T>) -> bool {
    match n {
        Name::Nullitope => r is Nullitope,
        Name::Point => r is Dyad,
        Name::Dyad => rectangle_of(r),
        Name::Rectangle => r is Hyperblock && r->Hyperblock_rank == 3 && irregular::<T>(
            r->Hyperblock_regular,
        ),
        Name::Hyperblock { regular, rank } => if irregular::<T>(regular) {
            r == Name::<T>::Hyperblock { regular, rank: (rank + 1) as isize }
        } else {
            r == Name::<T>::Prism(Box::new(n))
        },
        Name::Prism(b) => multiprism_of(seq![rectangle_name::<T>(), *b], r),
        Name::Multiprism(v) => multiprism_of(v@.push(Name::Dyad), r),
        _ => r == Name::<T>::Prism(Box::new(n)),
    }
}

/// Taking the tegum of `n` keeps every rank and count within machine
/// integers.
pub open spec fn tegum_fits<T: NameType>(n: Name<T>) -> bool {
    match n {
        Name::Orthoplex { rank, .. } => rank < isize::MAX,
        Name::Tegum(b) => tegum_counts_fit(seq![orthodiagonal_name::<T>(), *b]),
        Name::Multitegum(v) => tegum_counts_fit(v@.push(Name::Dyad)),
        _ => true,
    }
}

/// The tegum of `n`.
pub open spec fn tegum_of<T: NameType>(n: Name<T>, r: Name<T>) -> bool {
    match n {
        Name::Nullitope => r is Nullitope,
        Name::Point => r is Dyad,
        Name::Dyad => orthodiagonal_of(r),
        Name::Orthodiagonal => r is Orthoplex && r->Orthoplex_rank == 3 && irregular::<T>(
            r->Orthoplex_regular,
        ),
        Name::Orthoplex { regular, rank } => if irregular::<T>(regular) {
            r == Name::<T>::Orthoplex { regular, rank: (rank + 1) as isize }
        } else {
            r == Name::<T>::Tegum(Box::new(n))
        },
        Name::Tegum(b) => multitegum_of(seq![orthodiagonal_name::<T>(), *b], r),
        Name::Multitegum(v) => multitegum_of(v@.push(Name::Dyad), r),
        _ => r == Name::<T>::Tegum(Box::new(n)),
    }
}

/// Taking the antiprism of `n` keeps its rank within machine integers.
pub open spec fn antiprism_fits<T: NameType>(n: Name<T>) -> bool {
    match n {
        Name::Simplex { rank, .. } => rank < isize::MAX,
        _ => true,
    }
}

/// The antiprism of `n`.
pub open spec fn antiprism_of<T: NameType>(n: Name<T>, r: Name<T>) -> bool {
    match n {
        Name::Nullitope => r is Point,
        Name::Point => r is Dyad,
        Name::Dyad => r is Orthodiagonal,
        Name::Simplex { rank, .. } => r is Orthoplex && r->Orthoplex_rank == rank + 1
            && irregular::<T>(r->Orthoplex_regular),
        _ => r == Name::<T>::Antiprism { base: Box::new(n) },
    }
}

/// The Petrial of `n`.
pub open spec fn petrial_of<T: NameType>(n: Name<T>) -> Name<T> {
    match n {
        Name::Petrial { base } => *base,
        _ => Name::Petrial { base: Box::new(n) },
    }
}

impl<T: NameType> Name<T> {
    /// The pyramid of `self`, in normal form.
    pub fn pyramid(self) -> (r: Self)
        requires
            pyramid_fits(self),
        ensures
            pyramid_of(self, r),
    {
        match self {
            Name::Nullitope => Name::Point,
            Name::Point => Name::Dyad,
            Name::Dyad => Name::Triangle { regular: irregular_data::<T>() },
            Name::Triangle { regular } => {
                if regular.contains(&Regular::No) {
                    Name::Simplex { regular, rank: 3 }
                } else {
                    Name::Pyramid(Box::new(Name::Triangle { regular }))
                }
            },
            Name::Simplex { regular, rank } => {
                if regular.contains(&Regular::No) {
                    Name::Simplex { regular, rank: rank + 1 }
                } else {
                    Name::Pyramid(Box::new(Name::Simplex { regular, rank }))
                }
            },
            Name::Pyramid(base) => Name::multipyramid(vec![Name::Dyad, *base]),
            Name::Multipyramid(mut bases) => {
                bases.push(Name::Point);
                Name::multipyramid(bases)
            },
            _ => Name::Pyramid(Box::new(self)),
        }
    }

    /// The prism of `self`, in normal form.
    pub fn prism(self) -> (r: Self)
        requires
            prism_fits(self),
        ensures
            prism_of(self, r),
    {
        match self {
            Name::Nullitope => Name::Nullitope,
            Name::Point => Name::Dyad,
            Name::Dyad => Name::rectangle(),
            Name::Rectangle => Name::Hyperblock { regular: irregular_data::<T>(), rank: 3 },
            Name::Hyperblock { regular, rank } => {
                if regular.contains(&Regular::No) {
                    Name::Hyperblock { regular, rank: rank + 1 }
                } else {
                    Name::Prism(Box::new(Name::Hyperblock { regular, rank }))
                }
            },
            Name::Prism(base) => Name::multiprism(vec![Name::rectangle(), *base]),
            Name::Multiprism(mut bases) => {
                bases.push(Name::Dyad);
                Name::multiprism(bases)
            },
            _ => Name::Prism(Box::new(self)),
        }
    }

    /// The tegum of `self`, in normal form.
    pub fn tegum(self) -> (r: Self)
        requires
            tegum_fits(self),
        ensures
            tegum_of(self, r),
    {
        match self {
            Name::Nullitope => Name::Nullitope,
            Name::Point => Name::Dyad,
            Name::Dyad => Name::orthodiagonal(),
            Name::Orthodiagonal => Name::Orthoplex { regular: irregular_data::<T>(), rank: 3 },
            Name::Orthoplex { regular, rank } => {
                if regular.contains(&Regular::No) {
                    Name::Orthoplex { regular, rank: rank + 1 }
                } else {
                    Name::Tegum(Box::new(Name::Orthoplex { regular, rank }))
                }
            },
            Name::Tegum(base) => Name::multitegum(vec![Name::orthodiagonal(), *base]),
            Name::Multitegum(mut bases) => {
                bases.push(Name::Dyad);
                Name::multitegum(bases)
            },
            _ => Name::Tegum(Box::new(self)),
        }
    }

    /// The antiprism of `self`, in normal form.
    pub fn antiprism(self) -> (r: Self)
        requires
            antiprism_fits(self),
        ensures
            antiprism_of(self, r),
    {
        match self {
            Name::Nullitope => Name::Point,
            Name::Point => Name::Dyad,
            Name::Dyad => Name::Orthodiagonal,
            Name::Simplex { rank, .. } => Name::Orthoplex {
                regular: irregular_data::<T>(),
                rank: rank + 1,
            },
            _ => Name::Antiprism { base: Box::new(self) },
        }
    }

    /// The Petrial of `self`: taking it twice gives `self` back.
    pub fn petrial(self) -> (r: Self)
        ensures
            r == petrial_of(self),
    {
        match self {
            Name::Petrial { base } => *base,
            _ => Name::Petrial { base: Box::new(self) },
        }
    }
}

} // verus!
