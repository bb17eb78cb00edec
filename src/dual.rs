//! Duals of names.
use vstd::prelude::*;
use crate::data::{NameData, NameType, Point, Regular};
use crate::name::{irregular, irregular_data, orthodiagonal_of, same_point, Name, Rank};

verus! {

/// Whether a regular shape keeps its regularity under a dual about `c`: it
/// is not regular, or it is regular about `c` itself. Capsules that store
/// nothing always keep it.
pub open spec fn centered_at<T: NameType>(regular: T::DataRegular, c: T::DataPoint) -> bool {
    T::DataRegular::is_phantom() || match regular.stored() {
        Regular::Yes { center } => T::DataPoint::is_phantom() || c.stored()@ == center@,
        Regular::No => true,
    }
}

/// `r` is the regularity of the dual about `c` of a shape with regularity
/// `regular`: kept when centered there, else "not regular".
pub open spec fn dual_regular<T: NameType>(
    regular: T::DataRegular,
    c: T::DataPoint,
    r: T::DataRegular,
) -> bool {
    if centered_at::<T>(regular, c) {
        r == regular
    } else {
        irregular::<T>(r)
    }
}

/// `r` is an explicit dual of `n` about `c`.
pub open spec fn deferred_dual<T: NameType>(n: Name<T>, c: T::DataPoint, r: Name<T>) -> bool {
    r is Dual && *r->Dual_base == n && same_point::<T>(r->Dual_center, c)
}

/// `r` lists the duals about `c` of the names in `s`.
pub open spec fn duals_of<T: NameType>(
    s: Seq<Name<T>>,
    c: T::DataPoint,
    facet_count: usize,
    rank: Rank,
    r: Seq<Name<T>>,
) -> bool
    decreases s, 0nat,
{
    &&& r.len() == s.len()
    &&& forall|i: int|
        0 <= i < s.len() ==> dual_of(#[trigger] s[i], c, facet_count, rank, r[i])
}

/// `r` is the dual of `n` about `c`, where `facet_count` and `rank` are those
/// of the polytope that `n` names.
pub open spec fn dual_of<T: NameType>(
    n: Name<T>,
    c: T::DataPoint,
    facet_count: usize,
    rank: Rank,
    r: Name<T>,
) -> bool
    decreases n, 1nat,
{
    match n {
        Name::Nullitope | Name::Point | Name::Dyad => r == n,
        Name::Triangle { regular } => r is Triangle && dual_regular::<T>(
            regular,
            c,
            r->Triangle_regular,
        ),
        Name::Square | Name::Rectangle => orthodiagonal_of(r),
        Name::Orthodiagonal => if T::DataRegular::is_phantom() {
            r is Square
        } else {
            r is Polygon && r->Polygon_n == 4 && irregular::<T>(r->Polygon_regular)
        },
        Name::Dual { base, center } => if same_point::<T>(c, center) {
            r == *base
        } else {
            r == Name::<T>::Generic { facet_count, rank }
        },
        Name::Polygon { regular, n } => r is Polygon && r->Polygon_n == n && dual_regular::<T>(
            regular,
            c,
            r->Polygon_regular,
        ),
        Name::Simplex { regular, rank: k } => r is Simplex && r->Simplex_rank == k
            && dual_regular::<T>(regular, c, r->Simplex_regular),
        Name::Hyperblock { regular, rank: k } => r is Orthoplex && r->Orthoplex_rank == k
            && dual_regular::<T>(regular, c, r->Orthoplex_regular),
        Name::Orthoplex { regular, rank: k } => r is Hyperblock && r->Hyperblock_rank == k
            && dual_regular::<T>(regular, c, r->Hyperblock_regular),
        Name::Pyramid(b) => if T::abstract_marker() {
            r is Pyramid && dual_of(*b, c, facet_count, rank, *r->Pyramid_0)
        } else {
            deferred_dual(n, c, r)
        },
        Name::Prism(b) => if T::abstract_marker() {
            r is Tegum && dual_of(*b, c, facet_count, rank, *r->Tegum_0)
        } else {
            deferred_dual(n, c, r)
        },
        Name::Tegum(b) => if T::abstract_marker() {
            r is Prism && dual_of(*b, c, facet_count, rank, *r->Prism_0)
        } else {
            deferred_dual(n, c, r)
        },
        Name::Antiprism { base } => r is Antitegum && r->Antitegum_base == base
            && same_point::<T>(r->Antitegum_center, c),
        Name::Antitegum { base, center } => if same_point::<T>(c, center) {
            r is Antiprism && r->Antiprism_base == base
        } else {
            deferred_dual(n, c, r)
        },
        Name::Multipyramid(v) => if T::abstract_marker() {
            r is Multipyramid && duals_of(v@, c, facet_count, rank, r->Multipyramid_0@)
        } else {
            deferred_dual(n, c, r)
        },
        Name::Multiprism(v) => if T::abstract_marker() {
            r is Multitegum && duals_of(v@, c, facet_count, rank, r->Multitegum_0@)
        } else {
            deferred_dual(n, c, r)
        },
        Name::Multitegum(v) => if T::abstract_marker() {
            r is Multiprism && duals_of(v@, c, facet_count, rank, r->Multiprism_0@)
        } else {
            deferred_dual(n, c, r)
        },
        Name::Multicomb(v) => if T::abstract_marker() {
            r is Multicomb && duals_of(v@, c, facet_count, rank, r->Multicomb_0@)
        } else {
            deferred_dual(n, c, r)
        },
        _ => deferred_dual(n, c, r),
    }
}

/// The regularity of the dual about `center` of a shape with regularity
/// `regular`.
fn dual_regularity<T: NameType>(regular: T::DataRegular, center: &T::DataPoint) -> (r:
    T::DataRegular)
    ensures
        dual_regular::<T>(regular, *center, r),
{
    let centered = |x: &Regular| -> (b: bool)
        ensures
            b == match *x {
                Regular::Yes { center: oc } => T::DataPoint::is_phantom() || center.stored()@ == oc@,
                Regular::No => true,
            },
        {
            match x {
                Regular::Yes { center: oc } => {
                    let near = |p: &Point| -> (b2: bool)
                        ensures
                            b2 == (p@ == oc@),
                        { p.same_as(oc) };
                    center.satisfies(near)
                },
                Regular::No => true,
            }
        };
    let keep = regular.satisfies(centered);
    if keep {
        regular
    } else {
        irregular_data::<T>()
    }
}

/// The duals about `center` of each name of a list, in order.
fn duals_about<T: NameType>(
    bases: Vec<Name<T>>,
    center: &T::DataPoint,
    facet_count: usize,
    rank: Rank,
) -> (r: Vec<Name<T>>)
    ensures
        duals_of(bases@, *center, facet_count, rank, r@),
    decreases bases, 0nat,
{
    let ghost s = bases@;
    let mut rest = bases;
    let mut out: Vec<Name<T>> = Vec::new();
    let mut i: usize = 0;
    proof {
        assert(s.len() == rest.len());
    }
    while rest.len() > 0
        invariant
            s == bases@,
            s.len() <= usize::MAX,
            i + rest@.len() == s.len(),
            rest@ == s.subrange(i as int, s.len() as int),
            out@.len() == i,
            forall|j: int| 0 <= j < i ==> dual_of(#[trigger] s[j], *center, facet_count, rank, out@[j]),
        decreases rest@.len(),
    {
        let base = rest.remove(0);
        proof {
            assert(s[i as int] == base);
            assert(decreases_to!(bases => bases[i as int]));
        }
        let d = base.dual_about(center, facet_count, rank);
        out.push(d);
        i = i + 1;
        proof {
            assert(rest@ =~= s.subrange(i as int, s.len() as int));
        }
    }
    out
}

impl<T: NameType> Name<T> {
    /// The dual of `self` about `center`, where `facet_count` and `rank` are
    /// those of the polytope that `self` names.
    pub fn dual(self, center: T::DataPoint, facet_count: usize, rank: Rank) -> (r: Self)
        ensures
            dual_of(self, center, facet_count, rank, r),
    {
        self.dual_about(&center, facet_count, rank)
    }

    /// The dual of `self` about `center`, which the result copies where it
    /// stores it.
    fn dual_about(self, center: &T::DataPoint, facet_count: usize, rank: Rank) -> (r: Self)
        ensures
            dual_of(self, *center, facet_count, rank, r),
        decreases self, 1nat,
    {
        match self {
            Name::Nullitope | Name::Point | Name::Dyad => self,
            Name::Triangle { regular } => Name::Triangle {
                regular: dual_regularity::<T>(regular, center),
            },
            Name::Square | Name::Rectangle => Name::orthodiagonal(),
            Name::Orthodiagonal => Name::polygon(irregular_data::<T>(), 4),
            Name::Dual { base, center: stored } => {
                if center.same_as(&stored) {
                    *base
                } else {
                    Name::Generic { facet_count, rank }
                }
            },
            Name::Polygon { regular, n } => Name::Polygon {
                regular: dual_regularity::<T>(regular, center),
                n,
            },
            Name::Simplex { regular, rank: k } => Name::Simplex {
                regular: dual_regularity::<T>(regular, center),
                rank: k,
            },
            Name::Hyperblock { regular, rank: k } => Name::Orthoplex {
                regular: dual_regularity::<T>(regular, center),
                rank: k,
            },
            Name::Orthoplex { regular, rank: k } => Name::Hyperblock {
                regular: dual_regularity::<T>(regular, center),
                rank: k,
            },
            Name::Pyramid(base) => {
                if T::is_abstract() {
                    Name::Pyramid(Box::new(base.dual_about(center, facet_count, rank)))
                } else {
                    Name::Dual { base: Box::new(Name::Pyramid(base)), center: center.duplicate() }
                }
            },
            Name::Prism(base) => {
                if T::is_abstract() {
                    Name::Tegum(Box::new(base.dual_about(center, facet_count, rank)))
                } else {
                    Name::Dual { base: Box::new(Name::Prism(base)), center: center.duplicate() }
                }
            },
            Name::Tegum(base) => {
                if T::is_abstract() {
                    Name::Prism(Box::new(base.dual_about(center, facet_count, rank)))
                } else {
                    Name::Dual { base: Box::new(Name::Tegum(base)), center: center.duplicate() }
                }
            },
            Name::Antiprism { base } => Name::Antitegum { base, center: center.duplicate() },
            Name::Antitegum { base, center: stored } => {
                if center.same_as(&stored) {
                    Name::Antiprism { base }
                } else {
                    Name::Dual {
                        base: Box::new(Name::Antitegum { base, center: stored }),
                        center: center.duplicate(),
                    }
                }
            },
            Name::Multipyramid(bases) => {
                if T::is_abstract() {
                    Name::Multipyramid(duals_about(bases, center, facet_count, rank))
                } else {
                    Name::Dual {
                        base: Box::new(Name::Multipyramid(bases)),
                        center: center.duplicate(),
                    }
                }
            },
            Name::Multiprism(bases) => {
                if T::is_abstract() {
                    Name::Multitegum(duals_about(bases, center, facet_count, rank))
                } else {
                    Name::Dual {
                        base: Box::new(Name::Multiprism(bases)),
                        center: center.duplicate(),
                    }
                }
            },
            Name::Multitegum(bases) => {
                if T::is_abstract() {
                    Name::Multiprism(duals_about(bases, center, facet_count, rank))
                } else {
                    Name::Dual {
                        base: Box::new(Name::Multitegum(bases)),
                        center: center.duplicate(),
                    }
                }
            },
            Name::Multicomb(bases) => {
                if T::is_abstract() {
                    Name::Multicomb(duals_about(bases, center, facet_count, rank))
                } else {
                    Name::Dual {
                        base: Box::new(Name::Multicomb(bases)),
                        center: center.duplicate(),
                    }
                }
            },
            _ => Name::Dual { base: Box::new(self), center: center.duplicate() },
        }
    }
}

} // verus!
