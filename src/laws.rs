//! Laws that relate the operations on names.
use vstd::prelude::*;
use crate::data::NameType;
use crate::dual::dual_of;
use crate::header::{header_payload, NAME_MARKER};
use crate::merge::{
    comb_kept, multicomb_of, multipyramid_of, multiprism_of, multitegum_of, prism_kept, prism_total, pyramid_kept,
    pyramid_total, tegum_kept, tegum_total,
};
use crate::valid::valid_node;
use crate::modifier::petrial_of;
use crate::name::{same_point, Name, Rank};
use vstd::utf8::is_char_boundary;

verus! {

/// Taking the Petrial twice gives back the name, unless that name
/// is a Petrial of a Petrial (which no construction produces): that one
/// loses both layers.
pub proof fn lemma_petrial_involution<T: NameType>(n: Name<T>)
    requires
        !(n is Petrial && *n->Petrial_base is Petrial),
    ensures
        petrial_of(petrial_of(n)) == n,
{
}

/// When the dual of `n` about `c` is an explicit dual node (which then
/// stores `c`), or `n` is an antiprism, dualizing again about the same `c`
/// gives back `n`. A name that is already an explicit dual is left out: its
/// dual unwraps it instead.
pub proof fn lemma_dual_involution<T: NameType>(
    n: Name<T>,
    c: T::DataPoint,
    facet_count: usize,
    rank: Rank,
    d: Name<T>,
    e: Name<T>,
)
    requires
        !(n is Dual),
        d is Dual || n is Antiprism,
        dual_of(n, c, facet_count, rank, d),
        dual_of(d, c, facet_count, rank, e),
    ensures
        e == n,
{
    reveal_with_fuel(dual_of, 2);
    if n is Antiprism {
        assert(e == n);
    } else {
        assert(*d->Dual_base == n);
        assert(same_point::<T>(c, d->Dual_center));
    }
}

/// Dualizing an explicit dual about a center other than its own does not
/// give back its base: it gives a generic name with the facet count and
/// rank supplied.
pub proof fn lemma_dual_mismatch<T: NameType>(
    base: Name<T>,
    center: T::DataPoint,
    c: T::DataPoint,
    facet_count: usize,
    rank: Rank,
    r: Name<T>,
)
    requires
        !same_point::<T>(c, center),
        dual_of((Name::Dual { base: Box::new(base), center }), c, facet_count, rank, r),
    ensures
        r == (Name::<T>::Generic { facet_count, rank }),
{
}

/// A nullitope among the bases of a multiprism makes the whole multiprism a
/// nullitope.
pub proof fn lemma_multiprism_nullitope<T: NameType>(s: Seq<Name<T>>, i: int, r: Name<T>)
    requires
        0 <= i < s.len(),
        s[i] is Nullitope,
        multiprism_of(s, r),
    ensures
        r is Nullitope,
{
}

/// A nullitope among the bases of a multitegum makes the whole multitegum a
/// nullitope.
pub proof fn lemma_multitegum_nullitope<T: NameType>(s: Seq<Name<T>>, i: int, r: Name<T>)
    requires
        0 <= i < s.len(),
        s[i] is Nullitope,
        multitegum_of(s, r),
    ensures
        r is Nullitope,
{
}

/// A header line made of `#` followed by a payload gives back that payload.
pub proof fn lemma_header_round_trip(payload: Seq<u8>)
    requires
        payload.len() >= 1,
        is_char_boundary(seq![NAME_MARKER] + payload, 1),
    ensures
        header_payload(seq![NAME_MARKER] + payload) == Some(payload),
{
    let line = seq![NAME_MARKER] + payload;
    assert(line.subrange(1, line.len() as int) =~= payload);
}

/// When every multipyramid among `s` is valid, the bases that a
/// multipyramid of `s` keeps hold no multipyramid.
proof fn lemma_pyramid_kept_flat<T: NameType>(s: Seq<Name<T>>)
    requires
        forall|i: int| 0 <= i < s.len() && (#[trigger] s[i]) is Multipyramid ==> valid_node(s[i]),
    ensures
        forall|j: int| 0 <= j < pyramid_kept(s).len() ==> !((#[trigger] pyramid_kept(s)[j]) is Multipyramid),
    decreases s.len(),
{
    if s.len() > 0 {
        let init = s.drop_last();
        assert forall|i: int| 0 <= i < init.len() && (#[trigger] init[i]) is Multipyramid implies valid_node(init[i]) by {
            assert(init[i] == s[i]);
        }
        lemma_pyramid_kept_flat(init);
        let last = s.last();
        assert(s[s.len() - 1] == last);
        let kept = pyramid_kept(s);
        assert forall|j: int| 0 <= j < kept.len() implies !((#[trigger] kept[j]) is Multipyramid) by {
            if j < pyramid_kept(init).len() {
                assert(kept[j] == pyramid_kept(init)[j]);
            }
        }
    }
}

/// A multipyramid built from bases whose own multipyramids are valid is a
/// valid multipyramid node, whenever it is one: at least two bases, none of
/// them a multipyramid.
pub proof fn lemma_multipyramid_valid<T: NameType>(s: Seq<Name<T>>, r: Name<T>)
    requires
        forall|i: int| 0 <= i < s.len() && (#[trigger] s[i]) is Multipyramid ==> valid_node(s[i]),
        multipyramid_of(s, r),
    ensures
        r is Multipyramid ==> valid_node(r),
{
    lemma_pyramid_kept_flat(s);
    let kept = pyramid_kept(s);
    if r is Multipyramid && pyramid_total(s) >= 2 && kept.len() > 0 {
        let v = r->Multipyramid_0@;
        assert forall|i: int| 0 <= i < v.len() implies !((#[trigger] v[i]) is Multipyramid) by {
            if i < kept.len() {
                assert(v[i] == v.drop_last()[i]);
            }
        }
    }
}

/// When every multiprism among `s` is valid, the bases that a
/// multiprism of `s` keeps hold no multiprism.
proof fn lemma_prism_kept_flat<T: NameType>(s: Seq<Name<T>>)
    requires
        forall|i: int| 0 <= i < s.len() && (#[trigger] s[i]) is Multiprism ==> valid_node(s[i]),
    ensures
        forall|j: int| 0 <= j < prism_kept(s).len() ==> !((#[trigger] prism_kept(s)[j]) is Multiprism),
    decreases s.len(),
{
    if s.len() > 0 {
        let init = s.drop_last();
        assert forall|i: int| 0 <= i < init.len() && (#[trigger] init[i]) is Multiprism implies valid_node(init[i]) by {
            assert(init[i] == s[i]);
        }
        lemma_prism_kept_flat(init);
        let last = s.last();
        assert(s[s.len() - 1] == last);
        let kept = prism_kept(s);
        assert forall|j: int| 0 <= j < kept.len() implies !((#[trigger] kept[j]) is Multiprism) by {
            if j < prism_kept(init).len() {
                assert(kept[j] == prism_kept(init)[j]);
            }
        }
    }
}

/// A multiprism built from bases whose own multiprisms are valid is a
/// valid multiprism node, whenever it is one: at least two bases, none of
/// them a multiprism.
pub proof fn lemma_multiprism_valid<T: NameType>(s: Seq<Name<T>>, r: Name<T>)
    requires
        forall|i: int| 0 <= i < s.len() && (#[trigger] s[i]) is Multiprism ==> valid_node(s[i]),
        multiprism_of(s, r),
    ensures
        r is Multiprism ==> valid_node(r),
{
    lemma_prism_kept_flat(s);
    let kept = prism_kept(s);
    if r is Multiprism && prism_total(s) >= 2 && kept.len() > 0 {
        let v = r->Multiprism_0@;
        assert forall|i: int| 0 <= i < v.len() implies !((#[trigger] v[i]) is Multiprism) by {
            if i < kept.len() {
                assert(v[i] == v.drop_last()[i]);
            }
        }
    }
}

/// When every multitegum among `s` is valid, the bases that a
/// multitegum of `s` keeps hold no multitegum.
proof fn lemma_tegum_kept_flat<T: NameType>(s: Seq<Name<T>>)
    requires
        forall|i: int| 0 <= i < s.len() && (#[trigger] s[i]) is Multitegum ==> valid_node(s[i]),
    ensures
        forall|j: int| 0 <= j < tegum_kept(s).len() ==> !((#[trigger] tegum_kept(s)[j]) is Multitegum),
    decreases s.len(),
{
    if s.len() > 0 {
        let init = s.drop_last();
        assert forall|i: int| 0 <= i < init.len() && (#[trigger] init[i]) is Multitegum implies valid_node(init[i]) by {
            assert(init[i] == s[i]);
        }
        lemma_tegum_kept_flat(init);
        let last = s.last();
        assert(s[s.len() - 1] == last);
        let kept = tegum_kept(s);
        assert forall|j: int| 0 <= j < kept.len() implies !((#[trigger] kept[j]) is Multitegum) by {
            if j < tegum_kept(init).len() {
                assert(kept[j] == tegum_kept(init)[j]);
            }
        }
    }
}

/// A multitegum built from bases whose own multitegums are valid is a
/// valid multitegum node, whenever it is one: at least two bases, none of
/// them a multitegum.
pub proof fn lemma_multitegum_valid<T: NameType>(s: Seq<Name<T>>, r: Name<T>)
    requires
        forall|i: int| 0 <= i < s.len() && (#[trigger] s[i]) is Multitegum ==> valid_node(s[i]),
        multitegum_of(s, r),
    ensures
        r is Multitegum ==> valid_node(r),
{
    lemma_tegum_kept_flat(s);
    let kept = tegum_kept(s);
    if r is Multitegum && tegum_total(s) >= 2 && kept.len() > 0 {
        let v = r->Multitegum_0@;
        assert forall|i: int| 0 <= i < v.len() implies !((#[trigger] v[i]) is Multitegum) by {
            if i < kept.len() {
                assert(v[i] == v.drop_last()[i]);
            }
        }
    }
}

/// When every multicomb among `s` is valid, the bases that a multicomb of
/// `s` keeps hold no multicomb.
proof fn lemma_comb_kept_flat<T: NameType>(s: Seq<Name<T>>)
    requires
        forall|i: int| 0 <= i < s.len() && (#[trigger] s[i]) is Multicomb ==> valid_node(s[i]),
    ensures
        forall|j: int| 0 <= j < comb_kept(s).len() ==> !((#[trigger] comb_kept(s)[j]) is Multicomb),
    decreases s.len(),
{
    if s.len() > 0 {
        let init = s.drop_last();
        assert forall|i: int| 0 <= i < init.len() && (#[trigger] init[i]) is Multicomb implies valid_node(init[i]) by {
            assert(init[i] == s[i]);
        }
        lemma_comb_kept_flat(init);
        assert(s[s.len() - 1] == s.last());
        let kept = comb_kept(s);
        assert forall|j: int| 0 <= j < kept.len() implies !((#[trigger] kept[j]) is Multicomb) by {
            if j < comb_kept(init).len() {
                assert(kept[j] == comb_kept(init)[j]);
            }
        }
    }
}

/// A multicomb built from bases whose own multicombs are valid is a valid
/// multicomb node, whenever it is one: at least two bases, none of them a
/// multicomb.
pub proof fn lemma_multicomb_valid<T: NameType>(s: Seq<Name<T>>, r: Name<T>)
    requires
        forall|i: int| 0 <= i < s.len() && (#[trigger] s[i]) is Multicomb ==> valid_node(s[i]),
        multicomb_of(s, r),
    ensures
        r is Multicomb ==> valid_node(r),
{
    lemma_comb_kept_flat(s);
}

} // verus!
