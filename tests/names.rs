use polytope_names::data::{Abs, AbsData, Con, ConData, NameData, Point, Regular};
use polytope_names::header::name_source;
use polytope_names::name::Name;

fn no() -> ConData<Regular> {
    ConData(Regular::No)
}

fn yes(coords: Vec<i64>) -> ConData<Regular> {
    ConData(Regular::Yes { center: Point::new(coords) })
}

fn at(coords: Vec<i64>) -> ConData<Point> {
    ConData(Point::new(coords))
}

#[test]
fn petrial_twice_gives_back_the_name() {
    let n: Name<Con> = Name::Generic { facet_count: 6, rank: 3 };
    let p = n.petrial();
    assert_eq!(p, Name::Petrial { base: Box::new(Name::Generic { facet_count: 6, rank: 3 }) });
    assert_eq!(p.petrial(), Name::Generic { facet_count: 6, rank: 3 });
    let a: Name<Abs> = Name::Square;
    assert_eq!(a.petrial().petrial(), Name::Square);
}

#[test]
fn petrial_of_a_double_petrial_loses_both_layers() {
    let inner: Name<Con> = Name::Petrial { base: Box::new(Name::Point) };
    let n = Name::Petrial { base: Box::new(inner) };
    assert_eq!(n.petrial().petrial(), Name::Point);
}

#[test]
fn dual_twice_about_the_same_center_gives_back_the_name() {
    let n: Name<Con> = Name::Generic { facet_count: 7, rank: 4 };
    let d = n.dual(at(vec![1, 2]), 7, 4);
    assert_eq!(
        d,
        Name::Dual { base: Box::new(Name::Generic { facet_count: 7, rank: 4 }), center: at(vec![1, 2]) }
    );
    assert_eq!(d.dual(at(vec![1, 2]), 7, 4), Name::Generic { facet_count: 7, rank: 4 });
}

#[test]
fn dual_about_another_center_gives_a_generic_name() {
    let n: Name<Con> = Name::Dual { base: Box::new(Name::Square), center: at(vec![0, 0]) };
    assert_eq!(n.dual(at(vec![1, 0]), 5, 3), Name::Generic { facet_count: 5, rank: 3 });
}

#[test]
fn dual_of_concrete_pyramid_is_deferred() {
    let n: Name<Con> = Name::Pyramid(Box::new(Name::Square));
    let d = n.dual(at(vec![0, 0, 0]), 5, 3);
    assert_eq!(
        d,
        Name::Dual { base: Box::new(Name::Pyramid(Box::new(Name::Square))), center: at(vec![0, 0, 0]) }
    );
    assert_eq!(d.dual(at(vec![0, 0, 0]), 5, 3), Name::Pyramid(Box::new(Name::Square)));
}

#[test]
fn dual_of_abstract_prism_is_tegum_of_dual() {
    let n: Name<Abs> = Name::Prism(Box::new(Name::Square));
    let d = n.dual(AbsData::empty(), 6, 3);
    assert_eq!(d, Name::Tegum(Box::new(Name::Square)));
}

#[test]
fn dual_of_abstract_multiprism_is_multitegum_of_duals() {
    let n: Name<Abs> = Name::Multiprism(vec![Name::Pyramid(Box::new(Name::Square)), Name::Antiprism { base: Box::new(Name::Square) }]);
    let d = n.dual(AbsData::empty(), 9, 5);
    assert_eq!(
        d,
        Name::Multitegum(vec![
            Name::Pyramid(Box::new(Name::Square)),
            Name::Antitegum { base: Box::new(Name::Square), center: AbsData::empty() },
        ])
    );
}

#[test]
fn dual_of_regular_shapes() {
    let t: Name<Con> = Name::Triangle { regular: yes(vec![0, 0]) };
    assert_eq!(t.dual(at(vec![0, 0]), 3, 2), Name::Triangle { regular: yes(vec![0, 0]) });
    let t: Name<Con> = Name::Triangle { regular: yes(vec![0, 0]) };
    assert_eq!(t.dual(at(vec![1, 0]), 3, 2), Name::Triangle { regular: no() });
    let h: Name<Con> = Name::Hyperblock { regular: yes(vec![0, 0, 0, 0]), rank: 4 };
    assert_eq!(h.dual(at(vec![0, 0, 0, 0]), 8, 4), Name::Orthoplex { regular: yes(vec![0, 0, 0, 0]), rank: 4 });
    let o: Name<Con> = Name::Orthodiagonal;
    assert_eq!(o.dual(at(vec![0, 0]), 4, 2), Name::Polygon { regular: no(), n: 4 });
    let s: Name<Con> = Name::Square;
    assert_eq!(s.dual(at(vec![0, 0]), 4, 2), Name::Orthodiagonal);
    let a: Name<Abs> = Name::Orthodiagonal;
    assert_eq!(a.dual(AbsData::empty(), 4, 2), Name::Square);
}

#[test]
fn dual_of_antiprism_and_antitegum() {
    let n: Name<Con> = Name::Antiprism { base: Box::new(Name::Square) };
    let d = n.dual(at(vec![0, 0, 0]), 10, 3);
    assert_eq!(d, Name::Antitegum { base: Box::new(Name::Square), center: at(vec![0, 0, 0]) });
    assert_eq!(d.dual(at(vec![0, 0, 0]), 10, 3), Name::Antiprism { base: Box::new(Name::Square) });
    let t: Name<Con> = Name::Antitegum { base: Box::new(Name::Square), center: at(vec![0, 0, 0]) };
    assert_eq!(
        t.dual(at(vec![0, 0, 1]), 10, 3),
        Name::Dual {
            base: Box::new(Name::Antitegum { base: Box::new(Name::Square), center: at(vec![0, 0, 0]) }),
            center: at(vec![0, 0, 1]),
        }
    );
}

#[test]
fn self_dual_names() {
    for n in [Name::<Con>::Nullitope, Name::Point, Name::Dyad] {
        let expected = match n {
            Name::Nullitope => Name::Nullitope,
            Name::Point => Name::Point,
            _ => Name::Dyad,
        };
        assert_eq!(n.dual(at(vec![0]), 2, 1), expected);
    }
}

#[test]
fn multipyramid_small_lists() {
    assert_eq!(Name::<Con>::multipyramid(vec![]), Name::Nullitope);
    assert_eq!(Name::<Con>::multipyramid(vec![Name::Point]), Name::Pyramid(Box::new(Name::Nullitope)));
    assert_eq!(Name::<Con>::multipyramid(vec![Name::Point, Name::Point]), Name::Dyad);
}

#[test]
fn multipyramid_absorbs_and_flattens() {
    let inner: Name<Con> = Name::Multipyramid(vec![Name::Square, Name::Orthodiagonal]);
    let r = Name::<Con>::multipyramid(vec![Name::Triangle { regular: no() }, inner, Name::Dyad]);
    assert_eq!(
        r,
        Name::Multipyramid(vec![
            Name::Square,
            Name::Orthodiagonal,
            Name::Simplex { regular: no(), rank: 4 },
        ])
    );
    let r = Name::<Con>::multipyramid(vec![Name::Square, Name::Point]);
    assert_eq!(r, Name::Pyramid(Box::new(Name::Square)));
}

#[test]
fn multiprism_nullitope_absorbs() {
    assert_eq!(Name::<Con>::multiprism(vec![Name::Nullitope, Name::Square]), Name::Nullitope);
    assert_eq!(Name::<Con>::multiprism(vec![Name::Orthodiagonal, Name::Nullitope]), Name::Nullitope);
    assert_eq!(Name::<Con>::multitegum(vec![Name::Nullitope, Name::Rectangle]), Name::Nullitope);
}

#[test]
fn multiprism_combines_units() {
    assert_eq!(Name::<Con>::multiprism(vec![]), Name::Point);
    assert_eq!(Name::<Con>::multiprism(vec![Name::Dyad, Name::Dyad]), Name::Rectangle);
    assert_eq!(Name::<Abs>::multiprism(vec![Name::Dyad, Name::Dyad]), Name::Square);
    assert_eq!(
        Name::<Con>::multiprism(vec![Name::Rectangle, Name::Dyad, Name::Orthodiagonal]),
        Name::Multiprism(vec![Name::Orthodiagonal, Name::Hyperblock { regular: no(), rank: 3 }])
    );
    assert_eq!(
        Name::<Con>::multiprism(vec![Name::Dyad, Name::Triangle { regular: no() }]),
        Name::Prism(Box::new(Name::Triangle { regular: no() }))
    );
    assert_eq!(Name::<Con>::multitegum(vec![Name::Dyad, Name::Dyad, Name::Dyad]), Name::Orthoplex { regular: no(), rank: 3 });
}

#[test]
fn multicomb_flattens() {
    assert_eq!(Name::<Con>::multicomb(vec![]), Name::Point);
    assert_eq!(Name::<Con>::multicomb(vec![Name::Square]), Name::Square);
    let inner: Name<Con> = Name::Multicomb(vec![Name::Square, Name::Dyad]);
    assert_eq!(
        Name::<Con>::multicomb(vec![Name::Point, inner]),
        Name::Multicomb(vec![Name::Point, Name::Square, Name::Dyad])
    );
}

#[test]
fn is_valid_rejects_broken_nodes() {
    let p: Name<Con> = Name::Polygon { regular: yes(vec![0, 0]), n: 3 };
    assert!(!p.is_valid());
    let p: Name<Con> = Name::Polygon { regular: yes(vec![0, 0]), n: 5 };
    assert!(p.is_valid());
    let p: Name<Con> = Name::Polygon { regular: no(), n: 4 };
    assert!(p.is_valid());
    let p: Name<Con> = Name::Polygon { regular: no(), n: 2 };
    assert!(p.is_valid());
    let m: Name<Con> = Name::Multipyramid(vec![Name::Dyad]);
    assert!(!m.is_valid());
    let m: Name<Con> = Name::Multipyramid(vec![
        Name::Triangle { regular: no() },
        Name::Multipyramid(vec![Name::Square, Name::Square]),
    ]);
    assert!(!m.is_valid());
    let m: Name<Con> = Name::Multiprism(vec![Name::Triangle { regular: no() }, Name::Multipyramid(vec![Name::Square, Name::Square])]);
    assert!(m.is_valid());
    let s: Name<Con> = Name::Simplex { regular: no(), rank: 2 };
    assert!(!s.is_valid());
    let g: Name<Con> = Name::Generic { facet_count: 2, rank: 20 };
    assert!(g.is_valid());
    let g: Name<Con> = Name::Generic { facet_count: 2, rank: 21 };
    assert!(!g.is_valid());
    let g: Name<Con> = Name::Generic { facet_count: 1, rank: 3 };
    assert!(!g.is_valid());
}

#[test]
fn pyramid_of_simplex() {
    let s: Name<Con> = Name::Simplex { regular: no(), rank: 3 };
    assert_eq!(s.pyramid(), Name::Simplex { regular: no(), rank: 4 });
    let s: Name<Con> = Name::Simplex { regular: yes(vec![0, 0, 0]), rank: 3 };
    assert_eq!(s.pyramid(), Name::Pyramid(Box::new(Name::Simplex { regular: yes(vec![0, 0, 0]), rank: 3 })));
    let s: Name<Abs> = Name::Simplex { regular: AbsData::empty(), rank: 3 };
    assert_eq!(s.pyramid(), Name::Simplex { regular: AbsData::empty(), rank: 4 });
}

#[test]
fn pyramid_low_ranks_and_nesting() {
    assert_eq!(Name::<Con>::Nullitope.pyramid(), Name::Point);
    assert_eq!(Name::<Con>::Point.pyramid(), Name::Dyad);
    assert_eq!(Name::<Con>::Dyad.pyramid(), Name::Triangle { regular: no() });
    assert_eq!(Name::<Con>::Triangle { regular: no() }.pyramid(), Name::Simplex { regular: no(), rank: 3 });
    let p: Name<Con> = Name::Pyramid(Box::new(Name::Square));
    assert_eq!(p.pyramid(), Name::Multipyramid(vec![Name::Square, Name::Dyad]));
    let m: Name<Con> = Name::Multipyramid(vec![Name::Square, Name::Orthodiagonal]);
    assert_eq!(m.pyramid(), Name::Pyramid(Box::new(Name::Multipyramid(vec![Name::Square, Name::Orthodiagonal]))));
}

#[test]
fn prism_and_tegum_chains() {
    assert_eq!(Name::<Con>::Nullitope.prism(), Name::Nullitope);
    assert_eq!(Name::<Con>::Dyad.prism(), Name::Rectangle);
    assert_eq!(Name::<Abs>::Dyad.prism(), Name::Square);
    assert_eq!(Name::<Con>::Rectangle.prism(), Name::Hyperblock { regular: no(), rank: 3 });
    assert_eq!(Name::<Con>::Hyperblock { regular: no(), rank: 3 }.prism(), Name::Hyperblock { regular: no(), rank: 4 });
    assert_eq!(Name::<Con>::Triangle { regular: no() }.prism(), Name::Prism(Box::new(Name::Triangle { regular: no() })));
    assert_eq!(
        Name::<Con>::Prism(Box::new(Name::Triangle { regular: no() })).prism(),
        Name::Multiprism(vec![Name::Triangle { regular: no() }, Name::Rectangle])
    );
    assert_eq!(Name::<Con>::Dyad.tegum(), Name::Orthodiagonal);
    assert_eq!(Name::<Con>::Orthodiagonal.tegum(), Name::Orthoplex { regular: no(), rank: 3 });
    let t: Name<Con> = Name::Tegum(Box::new(Name::Square));
    assert_eq!(t.tegum(), Name::Orthoplex { regular: no(), rank: 4 });
    let t: Name<Con> = Name::Tegum(Box::new(Name::Triangle { regular: no() }));
    assert_eq!(t.tegum(), Name::Multitegum(vec![Name::Triangle { regular: no() }, Name::Orthodiagonal]));
}

#[test]
fn antiprism_cases() {
    assert_eq!(Name::<Con>::Nullitope.antiprism(), Name::Point);
    assert_eq!(Name::<Con>::Dyad.antiprism(), Name::Orthodiagonal);
    assert_eq!(Name::<Abs>::Dyad.antiprism(), Name::Orthodiagonal);
    assert_eq!(
        Name::<Con>::Simplex { regular: yes(vec![0, 0, 0]), rank: 3 }.antiprism(),
        Name::Orthoplex { regular: no(), rank: 4 }
    );
    assert_eq!(Name::<Con>::Square.antiprism(), Name::Antiprism { base: Box::new(Name::Square) });
}

#[test]
fn smart_constructors() {
    assert_eq!(Name::<Con>::polygon(no(), 3), Name::Triangle { regular: no() });
    assert_eq!(Name::<Con>::polygon(yes(vec![0, 0]), 4), Name::Square);
    assert_eq!(Name::<Con>::polygon(no(), 4), Name::Polygon { regular: no(), n: 4 });
    assert_eq!(Name::<Abs>::polygon(AbsData::empty(), 4), Name::Square);
    assert_eq!(Name::<Con>::rectangle(), Name::Rectangle);
    assert_eq!(Name::<Abs>::rectangle(), Name::Square);
    assert_eq!(Name::<Con>::orthodiagonal(), Name::Orthodiagonal);
    assert_eq!(Name::<Con>::simplex(no(), -1), Name::Nullitope);
    assert_eq!(Name::<Con>::simplex(no(), 2), Name::Triangle { regular: no() });
    assert_eq!(Name::<Con>::simplex(no(), 5), Name::Simplex { regular: no(), rank: 5 });
    assert_eq!(Name::<Con>::hyperblock(no(), 2), Name::Rectangle);
    assert_eq!(Name::<Con>::orthoplex(no(), 2), Name::Orthodiagonal);
    assert_eq!(Name::<Con>::orthoplex(no(), 1), Name::Dyad);
    assert_eq!(Name::<Con>::generic(5, 0), Name::Point);
    assert_eq!(Name::<Con>::generic(5, 2), Name::Polygon { regular: no(), n: 5 });
    assert_eq!(Name::<Con>::generic(4, 2), Name::Polygon { regular: no(), n: 4 });
    assert_eq!(Name::<Abs>::generic(4, 2), Name::Square);
    assert_eq!(Name::<Con>::generic(9, 3), Name::Generic { facet_count: 9, rank: 3 });
    assert_eq!(Name::<Con>::default(), Name::Nullitope);
}

#[test]
fn capsules() {
    let c = yes(vec![1, 2]);
    assert!(!c.contains(&Regular::No));
    assert!(c.contains(&Regular::Yes { center: Point::new(vec![1, 2]) }));
    assert!(!c.contains(&Regular::Yes { center: Point::new(vec![2, 1]) }));
    assert!(c.satisfies(|r: &Regular| r.is_yes()));
    let a: AbsData<Regular> = AbsData::empty();
    assert!(a.contains(&Regular::No));
    assert!(a.satisfies(|_: &Regular| false));
    assert!(at(vec![3]) == at(vec![3]));
    assert!(at(vec![3]) != at(vec![3, 0]));
    assert_eq!(Regular::default(), Regular::No);
}

#[test]
fn header_line_framing() {
    assert_eq!(name_source("#Point"), Some("Point"));
    assert_eq!(name_source("#Generic(facet_count:5,rank:3)"), Some("Generic(facet_count:5,rank:3)"));
    assert_eq!(name_source("#"), None);
    assert_eq!(name_source(""), None);
    assert_eq!(name_source("Point"), None);
    assert_eq!(name_source("# Point"), Some(" Point"));
    assert_eq!(name_source("#é"), Some("é"));
}

#[test]
fn merged_multi_nodes_are_valid() {
    let inner: Name<Con> = Name::Multipyramid(vec![Name::Square, Name::Orthodiagonal]);
    let r = Name::<Con>::multipyramid(vec![inner, Name::Generic { facet_count: 5, rank: 3 }, Name::Point, Name::Dyad]);
    assert!(matches!(r, Name::Multipyramid(_)));
    assert!(r.is_valid());
    let inner: Name<Con> = Name::Multiprism(vec![Name::Triangle { regular: no() }, Name::Orthodiagonal]);
    let r = Name::<Con>::multiprism(vec![Name::Square, inner]);
    assert!(matches!(r, Name::Multiprism(_)));
    assert!(r.is_valid());
    let inner: Name<Con> = Name::Multitegum(vec![Name::Triangle { regular: no() }, Name::Rectangle]);
    let r = Name::<Con>::multitegum(vec![inner, Name::Generic { facet_count: 6, rank: 3 }]);
    assert!(matches!(r, Name::Multitegum(_)));
    assert!(r.is_valid());
    let inner: Name<Con> = Name::Multicomb(vec![Name::Square, Name::Dyad]);
    let r = Name::<Con>::multicomb(vec![inner, Name::Multicomb(vec![Name::Point, Name::Point])]);
    assert!(r.is_valid());
}
