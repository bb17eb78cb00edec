//! Auxiliary data stored inside name nodes: points, regularity records and
//! the two capsule strategies that hold them.
use vstd::prelude::*;

verus! {

/// A point in space, with coordinates given in a fixed unit of length.
#[derive(Debug, Clone)]
pub struct Point {
    pub coords: Vec<i64>,
}

impl View for Point {
    type V = Seq<i64>;

    open spec fn view(&self) -> Seq<i64> {
        self.coords@
    }
}

impl Point {
    /// Builds a point from its coordinates.
    pub fn new(coords: Vec<i64>) -> (r: Point)
        ensures
            r@ == coords@,
    {
        Point { coords }
    }

    /// Whether two points coincide.
    pub fn same_as(&self, other: &Point) -> (r: bool)
        ensures
            r == (self@ == other@),
    {
        if self.coords.len() != other.coords.len() {
            return false;
        }
        let mut i: usize = 0;
        while i < self.coords.len()
            invariant
                self.coords@.len() == other.coords@.len(),
                i <= self.coords@.len(),
                forall|j: int| 0 <= j < i ==> self.coords@[j] == other.coords@[j],
            decreases self.coords@.len() - i,
        {
            if self.coords[i] != other.coords[i] {
                return false;
            }
            i = i + 1;
        }
        assert(self.coords@ =~= other.coords@);
        true
    }

    /// A copy of the point.
    pub fn duplicate(&self) -> (r: Point)
        ensures
            r@ == self@,
    {
        Point { coords: self.coords.clone() }
    }
}

impl PartialEq for Point {
    fn eq(&self, other: &Point) -> (r: bool) {
        self.same_as(other)
    }
}

impl vstd::std_specs::cmp::PartialEqSpecImpl for Point {
    open spec fn obeys_eq_spec() -> bool {
        true
    }

    open spec fn eq_spec(&self, other: &Point) -> bool {
        self@ == other@
    }
}

/// Whether a polytope is regular, and about which center.
#[derive(Debug, Clone)]
pub enum Regular {
    /// The polytope is regular about the given center.
    Yes { center: Point },
    /// The polytope is not regular.
    No,
}

impl View for Regular {
    /// The center of a regular polytope, or `None`.
    type V = Option<Seq<i64>>;

    open spec fn view(&self) -> Option<Seq<i64>> {
        match self {
            Regular::Yes { center } => Some(center@),
            Regular::No => None,
        }
    }
}

impl PartialEq for Regular {
    fn eq(&self, other: &Regular) -> (r: bool) {
        match (self, other) {
            (Regular::Yes { center: a }, Regular::Yes { center: b }) => a.same_as(b),
            (Regular::No, Regular::No) => true,
            _ => false,
        }
    }
}

impl vstd::std_specs::cmp::PartialEqSpecImpl for Regular {
    open spec fn obeys_eq_spec() -> bool {
        true
    }

    open spec fn eq_spec(&self, other: &Regular) -> bool {
        self@ == other@
    }
}

/// A polytope is not taken to be regular unless said so.
impl Default for Regular {
    fn default() -> (r: Regular)
        ensures
            r is No,
    {
        Regular::No
    }
}

impl Regular {
    /// Whether `self` is the `Yes` case.
    pub fn is_yes(&self) -> (r: bool)
        ensures
            r == (self is Yes),
    {
        match self {
            Regular::Yes { .. } => true,
            Regular::No => false,
        }
    }

    /// A copy of the record.
    pub fn duplicate(&self) -> (r: Regular)
        ensures
            r@ == self@,
    {
        match self {
            Regular::Yes { center } => Regular::Yes { center: center.duplicate() },
            Regular::No => Regular::No,
        }
    }
}

/// A container for a value of type `V` attached to a name node. Either it
/// stores nothing and answers every query with `true` (abstract polytopes),
/// or it stores the value and answers queries about it (concrete polytopes).
pub trait NameData<V: View>: Sized + Clone + PartialEq + core::fmt::Debug {
    /// Whether this strategy stores nothing.
    spec fn is_phantom() -> bool;

    /// The stored value (meaningless for the phantom strategy).
    spec fn stored(&self) -> V;

    /// Builds a capsule that holds `value`.
    fn new(value: V) -> (r: Self)
        ensures
            !Self::is_phantom() ==> r.stored()@ == value@;

    /// Whether `self` holds `value`.
    fn contains(&self, value: &V) -> (r: bool)
        ensures
            r == (Self::is_phantom() || self.stored()@ == value@);

    /// Whether the stored value satisfies `f`.
    fn satisfies<F: Fn(&V) -> bool>(&self, f: F) -> (r: bool)
        requires
            !Self::is_phantom() ==> f.requires((&self.stored(),)),
        ensures
            Self::is_phantom() ==> r,
            !Self::is_phantom() ==> f.ensures((&self.stored(),), r);

    /// A copy of the capsule.
    fn duplicate(&self) -> (r: Self)
        ensures
            Self::is_phantom() || r.stored()@ == self.stored()@;

    /// Whether two capsules hold the same value.
    fn same_as(&self, other: &Self) -> (r: bool)
        ensures
            r == (Self::is_phantom() || self.stored()@ == other.stored()@);
}

/// Data of an abstract polytope: stores nothing.
#[derive(Debug)]
pub struct AbsData<V> {
    marker: core::marker::PhantomData<V>,
}

impl<V> AbsData<V> {
    /// The only value of the type.
    pub fn empty() -> (r: AbsData<V>) {
        AbsData { marker: core::marker::PhantomData }
    }
}

/// The empty capsule is the only one there is.
impl<V> Default for AbsData<V> {
    fn default() -> (r: AbsData<V>) {
        AbsData::empty()
    }
}

/// Any two empty capsules are equal.
impl<V> PartialEq for AbsData<V> {
    fn eq(&self, other: &AbsData<V>) -> (r: bool) {
        true
    }
}

impl<V> vstd::std_specs::cmp::PartialEqSpecImpl for AbsData<V> {
    open spec fn obeys_eq_spec() -> bool {
        true
    }

    open spec fn eq_spec(&self, other: &AbsData<V>) -> bool {
        true
    }
}

/// Copying an empty capsule makes another empty one.
impl<V> Clone for AbsData<V> {
    fn clone(&self) -> (r: AbsData<V>) {
        AbsData::empty()
    }
}

impl<V: View + core::fmt::Debug> NameData<V> for AbsData<V> {
    open spec fn is_phantom() -> bool {
        true
    }

    open spec fn stored(&self) -> V {
        arbitrary()
    }

    fn new(value: V) -> (r: Self) {
        AbsData::empty()
    }

    fn contains(&self, value: &V) -> (r: bool) {
        true
    }

    fn satisfies<F: Fn(&V) -> bool>(&self, f: F) -> (r: bool) {
        true
    }

    fn duplicate(&self) -> (r: Self) {
        AbsData::empty()
    }

    fn same_as(&self, other: &Self) -> (r: bool) {
        true
    }
}

/// Data of a concrete polytope: stores the value itself.
#[derive(Debug, Clone)]
pub struct ConData<V>(pub V);

/// Compares the points held.
impl PartialEq for ConData<Point> {
    fn eq(&self, other: &ConData<Point>) -> (r: bool) {
        self.0.same_as(&other.0)
    }
}

impl vstd::std_specs::cmp::PartialEqSpecImpl for ConData<Point> {
    open spec fn obeys_eq_spec() -> bool {
        true
    }

    open spec fn eq_spec(&self, other: &ConData<Point>) -> bool {
        self.0@ == other.0@
    }
}

/// Compares the regularity records held.
impl PartialEq for ConData<Regular> {
    fn eq(&self, other: &ConData<Regular>) -> (r: bool) {
        self.contains(&other.0)
    }
}

impl vstd::std_specs::cmp::PartialEqSpecImpl for ConData<Regular> {
    open spec fn obeys_eq_spec() -> bool {
        true
    }

    open spec fn eq_spec(&self, other: &ConData<Regular>) -> bool {
        self.0@ == other.0@
    }
}

/// A concrete regularity record is "not regular" unless said so.
impl Default for ConData<Regular> {
    fn default() -> (r: ConData<Regular>)
        ensures
            r.0 is No,
    {
        ConData(Regular::No)
    }
}

impl NameData<Point> for ConData<Point> {
    open spec fn is_phantom() -> bool {
        false
    }

    open spec fn stored(&self) -> Point {
        self.0
    }

    fn new(value: Point) -> (r: Self) {
        ConData(value)
    }

    fn contains(&self, value: &Point) -> (r: bool) {
        self.0.same_as(value)
    }

    fn satisfies<F: Fn(&Point) -> bool>(&self, f: F) -> (r: bool) {
        f(&self.0)
    }

    fn duplicate(&self) -> (r: Self) {
        ConData(self.0.duplicate())
    }

    fn same_as(&self, other: &Self) -> (r: bool) {
        self.0.same_as(&other.0)
    }
}

impl NameData<Regular> for ConData<Regular> {
    open spec fn is_phantom() -> bool {
        false
    }

    open spec fn stored(&self) -> Regular {
        self.0
    }

    fn new(value: Regular) -> (r: Self) {
        ConData(value)
    }

    fn contains(&self, value: &Regular) -> (r: bool) {
        match (&self.0, value) {
            (Regular::Yes { center: a }, Regular::Yes { center: b }) => a.same_as(b),
            (Regular::No, Regular::No) => true,
            _ => false,
        }
    }

    fn satisfies<F: Fn(&Regular) -> bool>(&self, f: F) -> (r: bool) {
        f(&self.0)
    }

    fn duplicate(&self) -> (r: Self) {
        ConData(self.0.duplicate())
    }

    fn same_as(&self, other: &Self) -> (r: bool) {
        self.contains(&other.0)
    }
}

/// Selects how names store their auxiliary data: abstract polytopes keep
/// none of it, concrete ones keep all of it.
pub trait NameType: Sized + Clone + PartialEq + core::fmt::Debug {
    /// The capsule for points.
    type DataPoint: NameData<Point>;

    /// The capsule for regularity records.
    type DataRegular: NameData<Regular>;

    /// Whether this is the abstract selector.
    spec fn abstract_marker() -> bool;

    /// Whether this is the abstract selector.
    fn is_abstract() -> (r: bool)
        ensures
            r == Self::abstract_marker();
}

/// A name type that can be read back from text.
pub trait NameTypeOwned: NameType {}

/// Names of abstract polytopes.
#[derive(Debug, Clone, Copy, PartialEq, Eq)]
pub struct Abs;

impl NameType for Abs {
    type DataPoint = AbsData<Point>;
    type DataRegular = AbsData<Regular>;

    open spec fn abstract_marker() -> bool {
        true
    }

    fn is_abstract() -> (r: bool) {
        true
    }
}

impl NameTypeOwned for Abs {}

/// Names of concrete polytopes.
#[derive(Debug, Clone, Copy, PartialEq, Eq)]
pub struct Con;

impl NameType for Con {
    type DataPoint = ConData<Point>;
    type DataRegular = ConData<Regular>;

    open spec fn abstract_marker() -> bool {
        false
    }

    fn is_abstract() -> (r: bool) {
        false
    }
}

impl NameTypeOwned for Con {}

} // verus!
