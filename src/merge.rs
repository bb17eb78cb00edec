//! Merging lists of bases into multipyramids, multiprisms, multitegums and
//! multicombs, absorbing the bases that only add rank.
use vstd::prelude::*;
use crate::data::NameType;
use crate::name::{irregular, irregular_data, orthodiagonal_of, rectangle_of, Name};

verus! {

/// How many unit pyramids a base of a multipyramid stands for.
pub open spec fn pyramid_units<T: NameType>(n: Name<T>) -> int {
    match n {
        Name::Point => 1,
        Name::Dyad => 2,
        Name::Triangle { .. } => 3,
        Name::Simplex { rank, .. } => rank + 1,
        _ => 0,
    }
}

/// The unit pyramids that a list of bases stands for.
pub open spec fn pyramid_total<T: NameType>(s: Seq<Name<T>>) -> int
    decreases s.len(),
{
    if s.len() == 0 {
        0
    } else {
        pyramid_total(s.drop_last()) + pyramid_units(s.last())
    }
}

/// The bases that a multipyramid keeps: nested multipyramids are spliced in,
/// bases that only add rank are dropped.
pub open spec fn pyramid_kept<T: NameType>(s: Seq<Name<T>>) -> Seq<Name<T>>
    decreases s.len(),
{
    if s.len() == 0 {
        seq![]
    } else {
        pyramid_kept(s.drop_last()) + match s.last() {
            Name::Nullitope | Name::Point | Name::Dyad | Name::Triangle { .. } | Name::Simplex {
                ..
            } => seq![],
            Name::Multipyramid(v) => v@,
            b => seq![b],
        }
    }
}

/// Every running count of unit pyramids fits in a rank.
pub open spec fn pyramid_counts_fit<T: NameType>(s: Seq<Name<T>>) -> bool {
    forall|k: int|
        0 <= k <= s.len() ==> isize::MIN <= #[trigger] pyramid_total(s.take(k)) <= isize::MAX
}

/// `x` is the irregular simplex of rank `k`, for `k >= 1`.
pub open spec fn irregular_simplex<T: NameType>(k: int, x: Name<T>) -> bool {
    if k == 1 {
        x is Dyad
    } else if k == 2 {
        x is Triangle && irregular::<T>(x->Triangle_regular)
    } else {
        x is Simplex && x->Simplex_rank == k && irregular::<T>(x->Simplex_regular)
    }
}

/// `c` is the list `kept`, followed by the irregular simplex of rank `t - 1`
/// when `t >= 2`, made into one name: `empty` when there is nothing, the sole
/// element, or a multipyramid of all of them.
pub open spec fn pyramid_joined<T: NameType>(kept: Seq<Name<T>>, t: int, c: Name<T>) -> bool {
    if t >= 2 {
        if kept.len() == 0 {
            irregular_simplex(t - 1, c)
        } else {
            &&& c is Multipyramid
            &&& c->Multipyramid_0@.len() == kept.len() + 1
            &&& c->Multipyramid_0@.drop_last() == kept
            &&& irregular_simplex(t - 1, c->Multipyramid_0@.last())
        }
    } else if kept.len() == 0 {
        c is Nullitope
    } else if kept.len() == 1 {
        c == kept[0]
    } else {
        c is Multipyramid && c->Multipyramid_0@ == kept
    }
}

/// The multipyramid of a list of bases.
pub open spec fn multipyramid_of<T: NameType>(s: Seq<Name<T>>, r: Name<T>) -> bool {
    let t = pyramid_total(s);
    if t == 1 {
        r is Pyramid && pyramid_joined(pyramid_kept(s), t, *r->Pyramid_0)
    } else {
        pyramid_joined(pyramid_kept(s), t, r)
    }
}

/// How many unit prisms a base of a multiprism stands for.
pub open spec fn prism_units<T: NameType>(n: Name<T>) -> int {
    match n {
        Name::Dyad => 1,
        Name::Square | Name::Rectangle => 2,
        Name::Hyperblock { rank, .. } => rank as int,
        _ => 0,
    }
}

/// The unit prisms that a list of bases stands for.
pub open spec fn prism_total<T: NameType>(s: Seq<Name<T>>) -> int
    decreases s.len(),
{
    if s.len() == 0 {
        0
    } else {
        prism_total(s.drop_last()) + prism_units(s.last())
    }
}

/// The bases that a multiprism keeps: nested multiprisms are spliced in,
/// bases that only add rank are dropped.
pub open spec fn prism_kept<T: NameType>(s: Seq<Name<T>>) -> Seq<Name<T>>
    decreases s.len(),
{
    if s.len() == 0 {
        seq![]
    } else {
        prism_kept(s.drop_last()) + match s.last() {
            Name::Nullitope | Name::Point | Name::Dyad | Name::Square | Name::Rectangle
            | Name::Hyperblock { .. } => seq![],
            Name::Multiprism(v) => v@,
            b => seq![b],
        }
    }
}

/// Every running count of unit prisms fits in a rank.
pub open spec fn prism_counts_fit<T: NameType>(s: Seq<Name<T>>) -> bool {
    forall|k: int|
        0 <= k <= s.len() ==> isize::MIN <= #[trigger] prism_total(s.take(k)) <= isize::MAX
}

/// `x` is the irregular hyperblock of rank `k`, for `k >= 2`.
pub open spec fn irregular_hyperblock<T: NameType>(k: int, x: Name<T>) -> bool {
    if k == 2 {
        rectangle_of(x)
    } else {
        x is Hyperblock && x->Hyperblock_rank == k && irregular::<T>(x->Hyperblock_regular)
    }
}

/// `c` is the list `kept`, followed by the irregular hyperblock of rank `t`
/// when `t >= 2`, made into one name: a point when there is nothing, the
/// sole element, or a multiprism of all of them.
pub open spec fn prism_joined<T: NameType>(kept: Seq<Name<T>>, t: int, c: Name<T>) -> bool {
    if t >= 2 {
        if kept.len() == 0 {
            irregular_hyperblock(t, c)
        } else {
            &&& c is Multiprism
            &&& c->Multiprism_0@.len() == kept.len() + 1
            &&& c->Multiprism_0@.drop_last() == kept
            &&& irregular_hyperblock(t, c->Multiprism_0@.last())
        }
    } else if kept.len() == 0 {
        c is Point
    } else if kept.len() == 1 {
        c == kept[0]
    } else {
        c is Multiprism && c->Multiprism_0@ == kept
    }
}

/// The multiprism of a list of bases.
pub open spec fn multiprism_of<T: NameType>(s: Seq<Name<T>>, r: Name<T>) -> bool {
    let t = prism_total(s);
    if exists|i: int| 0 <= i < s.len() && (#[trigger] s[i]) is Nullitope {
        r is Nullitope
    } else if t == 1 {
        r is Prism && prism_joined(prism_kept(s), t, *r->Prism_0)
    } else {
        prism_joined(prism_kept(s), t, r)
    }
}

/// How many unit tegums a base of a multitegum stands for.
pub open spec fn tegum_units<T: NameType>(n: Name<T>) -> int {
    match n {
        Name::Dyad => 1,
        Name::Square | Name::Orthodiagonal => 2,
        Name::Orthoplex { rank, .. } => rank as int,
        _ => 0,
    }
}

/// The unit tegums that a list of bases stands for.
pub open spec fn tegum_total<T: NameType>(s: Seq<Name<T>>) -> int
    decreases s.len(),
{
    if s.len() == 0 {
        0
    } else {
        tegum_total(s.drop_last()) + tegum_units(s.last())
    }
}

/// The bases that a multitegum keeps: nested multitegums are spliced in,
/// bases that only add rank are dropped.
pub open spec fn tegum_kept<T: NameType>(s: Seq<Name<T>>) -> Seq<Name<T>>
    decreases s.len(),
{
    if s.len() == 0 {
        seq![]
    } else {
        tegum_kept(s.drop_last()) + match s.last() {
            Name::Nullitope | Name::Point | Name::Dyad | Name::Square | Name::Orthodiagonal
            | Name::Orthoplex { .. } => seq![],
            Name::Multitegum(v) => v@,
            b => seq![b],
        }
    }
}

/// Every running count of unit tegums fits in a rank.
pub open spec fn tegum_counts_fit<T: NameType>(s: Seq<Name<T>>) -> bool {
    forall|k: int|
        0 <= k <= s.len() ==> isize::MIN <= #[trigger] tegum_total(s.take(k)) <= isize::MAX
}

/// `x` is the irregular orthoplex of rank `k`, for `k >= 2`.
pub open spec fn irregular_orthoplex<T: NameType>(k: int, x: Name<T>) -> bool {
    if k == 2 {
        orthodiagonal_of(x)
    } else {
        x is Orthoplex && x->Orthoplex_rank == k && irregular::<T>(x->Orthoplex_regular)
    }
}

/// `c` is the list `kept`, followed by the irregular orthoplex of rank `t`
/// when `t >= 2`, made into one name: a point when there is nothing, the
/// sole element, or a multitegum of all of them.
pub open spec fn tegum_joined<T: NameType>(kept: Seq<Name<T>>, t: int, c: Name<T>) -> bool {
    if t >= 2 {
        if kept.len() == 0 {
            irregular_orthoplex(t, c)
        } else {
            &&& c is Multitegum
            &&& c->Multitegum_0@.len() == kept.len() + 1
            &&& c->Multitegum_0@.drop_last() == kept
            &&& irregular_orthoplex(t, c->Multitegum_0@.last())
        }
    } else if kept.len() == 0 {
        c is Point
    } else if kept.len() == 1 {
        c == kept[0]
    } else {
        c is Multitegum && c->Multitegum_0@ == kept
    }
}

/// The multitegum of a list of bases.
pub open spec fn multitegum_of<T: NameType>(s: Seq<Name<T>>, r: Name<T>) -> bool {
    let t = tegum_total(s);
    if exists|i: int| 0 <= i < s.len() && (#[trigger] s[i]) is Nullitope {
        r is Nullitope
    } else if t == 1 {
        r is Tegum && tegum_joined(tegum_kept(s), t, *r->Tegum_0)
    } else {
        tegum_joined(tegum_kept(s), t, r)
    }
}

/// The bases that a multicomb keeps: nested multicombs are spliced in.
pub open spec fn comb_kept<T: NameType>(s: Seq<Name<T>>) -> Seq<Name<T>>
    decreases s.len(),
{
    if s.len() == 0 {
        seq![]
    } else {
        comb_kept(s.drop_last()) + match s.last() {
            Name::Multicomb(v) => v@,
            b => seq![b],
        }
    }
}

/// The multicomb of a list of bases.
pub open spec fn multicomb_of<T: NameType>(s: Seq<Name<T>>, r: Name<T>) -> bool {
    let kept = comb_kept(s);
    if kept.len() == 0 {
        r is Point
    } else if kept.len() == 1 {
        r == kept[0]
    } else {
        r is Multicomb && r->Multicomb_0@ == kept
    }
}

impl<T: NameType> Name<T> {
    /// The multipyramid of a list of bases, in normal form.
    pub fn multipyramid(bases: Vec<Name<T>>) -> (r: Self)
        requires
            pyramid_counts_fit(bases@),
        ensures
            multipyramid_of(bases@, r),
    {
        let ghost s = bases@;
        let mut rest = bases;
        let mut new_bases: Vec<Name<T>> = Vec::new();
        let mut count: isize = 0;
        let mut i: usize = 0;
        proof {
            assert(s.len() == rest.len());
            assert(s.take(0) =~= Seq::<Name<T>>::empty());
        }
        while rest.len() > 0
            invariant
                pyramid_counts_fit(s),
                s.len() <= usize::MAX,
                i + rest@.len() == s.len(),
                rest@ == s.subrange(i as int, s.len() as int),
                new_bases@ == pyramid_kept(s.take(i as int)),
                count == pyramid_total(s.take(i as int)),
            decreases rest@.len(),
        {
            let base = rest.remove(0);
            proof {
                assert(s.take(i + 1).drop_last() =~= s.take(i as int));
                assert(s.take(i + 1).last() == base);
                assert(isize::MIN <= pyramid_total(s.take(i + 1)) <= isize::MAX);
            }
            match base {
                Name::Nullitope => {},
                Name::Point => {
                    count = count + 1;
                },
                Name::Dyad => {
                    count = count + 2;
                },
                Name::Triangle { .. } => {
                    count = count + 3;
                },
                Name::Simplex { rank, .. } => {
                    let c: i128 = count as i128 + rank as i128 + 1;
                    count = c as isize;
                },
                Name::Multipyramid(mut extra) => {
                    new_bases.append(&mut extra);
                },
                _ => {
                    new_bases.push(base);
                },
            }
            i = i + 1;
            proof {
                assert(rest@ =~= s.subrange(i as int, s.len() as int));
            }
        }
        proof {
            assert(s.take(i as int) =~= s);
        }
        if count >= 2 {
            let x = Name::simplex(irregular_data::<T>(), count - 1);
            new_bases.push(x);
        }
        let ghost kept = pyramid_kept(s);
        let ghost nb = new_bases@;
        proof {
            if count >= 2 {
                assert(nb.drop_last() =~= kept);
                assert(irregular_simplex(count - 1, nb.last()));
            } else {
                assert(nb == kept);
            }
        }
        let joined = if new_bases.len() == 0 {
            Name::Nullitope
        } else if new_bases.len() == 1 {
            new_bases.swap_remove(0)
        } else {
            Name::Multipyramid(new_bases)
        };
        if count == 1 {
            Name::Pyramid(Box::new(joined))
        } else {
            joined
        }
    }
    /// The multiprism of a list of bases, in normal form.
    pub fn multiprism(bases: Vec<Name<T>>) -> (r: Self)
        requires
            prism_counts_fit(bases@),
        ensures
            multiprism_of(bases@, r),
    {
        let ghost s = bases@;
        let mut rest = bases;
        let mut new_bases: Vec<Name<T>> = Vec::new();
        let mut count: isize = 0;
        let mut i: usize = 0;
        proof {
            assert(s.len() == rest.len());
            assert(s.take(0) =~= Seq::<Name<T>>::empty());
        }
        while rest.len() > 0
            invariant
                prism_counts_fit(s),
                s == bases@,
                s.len() <= usize::MAX,
                i + rest@.len() == s.len(),
                rest@ == s.subrange(i as int, s.len() as int),
                new_bases@ == prism_kept(s.take(i as int)),
                count == prism_total(s.take(i as int)),
                forall|j: int| 0 <= j < i ==> !((#[trigger] s[j]) is Nullitope),
            decreases rest@.len(),
        {
            let base = rest.remove(0);
            proof {
                assert(s.take(i + 1).drop_last() =~= s.take(i as int));
                assert(s.take(i + 1).last() == base);
                assert(isize::MIN <= prism_total(s.take(i + 1)) <= isize::MAX);
                assert(s[i as int] == base);
            }
            match base {
                Name::Nullitope => {
                    assert(s[i as int] is Nullitope);
                    return Name::Nullitope;
                },
                Name::Point => {},
                Name::Dyad => {
                    count = count + 1;
                },
                Name::Square | Name::Rectangle => {
                    count = count + 2;
                },
                Name::Hyperblock { rank, .. } => {
                    count = count + rank;
                },
                Name::Multiprism(mut extra) => {
                    new_bases.append(&mut extra);
                },
                _ => {
                    new_bases.push(base);
                },
            }
            i = i + 1;
            proof {
                assert(rest@ =~= s.subrange(i as int, s.len() as int));
            }
        }
        proof {
            assert(s.take(i as int) =~= s);
        }
        if count >= 2 {
            let x = Name::hyperblock(irregular_data::<T>(), count);
            new_bases.push(x);
        }
        let ghost kept = prism_kept(s);
        let ghost nb = new_bases@;
        proof {
            if count >= 2 {
                assert(nb.drop_last() =~= kept);
                assert(irregular_hyperblock(count as int, nb.last()));
            } else {
                assert(nb == kept);
            }
        }
        let joined = if new_bases.len() == 0 {
            Name::Point
        } else if new_bases.len() == 1 {
            new_bases.swap_remove(0)
        } else {
            Name::Multiprism(new_bases)
        };
        if count == 1 {
            Name::Prism(Box::new(joined))
        } else {
            joined
        }
    }


    /// The multitegum of a list of bases, in normal form.
    pub fn multitegum(bases: Vec<Name<T>>) -> (r: Self)
        requires
            tegum_counts_fit(bases@),
        ensures
            multitegum_of(bases@, r),
    {
        let ghost s = bases@;
        let mut rest = bases;
        let mut new_bases: Vec<Name<T>> = Vec::new();
        let mut count: isize = 0;
        let mut i: usize = 0;
        proof {
            assert(s.len() == rest.len());
            assert(s.take(0) =~= Seq::<Name<T>>::empty());
        }
        while rest.len() > 0
            invariant
                tegum_counts_fit(s),
                s == bases@,
                s.len() <= usize::MAX,
                i + rest@.len() == s.len(),
                rest@ == s.subrange(i as int, s.len() as int),
                new_bases@ == tegum_kept(s.take(i as int)),
                count == tegum_total(s.take(i as int)),
                forall|j: int| 0 <= j < i ==> !((#[trigger] s[j]) is Nullitope),
            decreases rest@.len(),
        {
            let base = rest.remove(0);
            proof {
                assert(s.take(i + 1).drop_last() =~= s.take(i as int));
                assert(s.take(i + 1).last() == base);
                assert(isize::MIN <= tegum_total(s.take(i + 1)) <= isize::MAX);
                assert(s[i as int] == base);
            }
            match base {
                Name::Nullitope => {
                    assert(s[i as int] is Nullitope);
                    return Name::Nullitope;
                },
                Name::Point => {},
                Name::Dyad => {
                    count = count + 1;
                },
                Name::Square | Name::Orthodiagonal => {
                    count = count + 2;
                },
                Name::Orthoplex { rank, .. } => {
                    count = count + rank;
                },
                Name::Multitegum(mut extra) => {
                    new_bases.append(&mut extra);
                },
                _ => {
                    new_bases.push(base);
                },
            }
            i = i + 1;
            proof {
                assert(rest@ =~= s.subrange(i as int, s.len() as int));
            }
        }
        proof {
            assert(s.take(i as int) =~= s);
        }
        if count >= 2 {
            let x = Name::orthoplex(irregular_data::<T>(), count);
            new_bases.push(x);
        }
        let ghost kept = tegum_kept(s);
        let ghost nb = new_bases@;
        proof {
            if count >= 2 {
                assert(nb.drop_last() =~= kept);
                assert(irregular_orthoplex(count as int, nb.last()));
            } else {
                assert(nb == kept);
            }
        }
        let joined = if new_bases.len() == 0 {
            Name::Point
        } else if new_bases.len() == 1 {
            new_bases.swap_remove(0)
        } else {
            Name::Multitegum(new_bases)
        };
        if count == 1 {
            Name::Tegum(Box::new(joined))
        } else {
            joined
        }
    }
    /// The multicomb of a list of bases, in normal form.
    pub fn multicomb(bases: Vec<Self>) -> (r: Self)
        ensures
            multicomb_of(bases@, r),
    {
        let ghost s = bases@;
        let mut rest = bases;
        let mut new_bases: Vec<Name<T>> = Vec::new();
        let mut i: usize = 0;
        proof {
            assert(s.len() == rest.len());
            assert(s.take(0) =~= Seq::<Name<T>>::empty());
        }
        while rest.len() > 0
            invariant
                s == bases@,
                s.len() <= usize::MAX,
                i + rest@.len() == s.len(),
                rest@ == s.subrange(i as int, s.len() as int),
                new_bases@ == comb_kept(s.take(i as int)),
            decreases rest@.len(),
        {
            let base = rest.remove(0);
            proof {
                assert(s.take(i + 1).drop_last() =~= s.take(i as int));
                assert(s.take(i + 1).last() == base);
            }
            match base {
                Name::Multicomb(mut extra) => {
                    new_bases.append(&mut extra);
                },
                _ => {
                    new_bases.push(base);
                },
            }
            i = i + 1;
            proof {
                assert(rest@ =~= s.subrange(i as int, s.len() as int));
            }
        }
        proof {
            assert(s.take(i as int) =~= s);
        }
        if new_bases.len() == 0 {
            Name::Point
        } else if new_bases.len() == 1 {
            new_bases.swap_remove(0)
        } else {
            Name::Multicomb(new_bases)
        }
    }
}

} // verus!
