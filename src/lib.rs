//! Canonical symbolic names of polytopes.
//!
//! A [`name::Name`] is a tree built by construction operations (pyramid,
//! prism, tegum, antiprism, dual, Petrial, multi-operations and the smart
//! constructors of basic shapes), each of which returns a name already in
//! normal form. Names are generic over [`data::NameType`]: abstract names
//! keep no points or regularity records, concrete names keep both.
//!
//! - `data`: points, regularity records, capsules and the name types.
//! - `name`: the tree and the smart constructors of basic shapes.
//! - `merge`: multipyramids, multiprisms, multitegums and multicombs.
//! - `modifier`: pyramids, prisms, tegums, antiprisms and Petrials.
//! - `dual`: duals about a center.
//! - `valid`: the invariants of name nodes.
//! - `header`: the header line that carries a serialized name.
//! - `laws`: properties that relate the operations.
pub mod data;
pub mod name;
pub mod merge;
pub mod modifier;
pub mod dual;
pub mod valid;
pub mod header;
pub mod laws;
