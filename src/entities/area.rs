//! An area: a named part of a user's calendar.
use vstd::prelude::*;

verus! {

/// One row of the `Area` table, keyed by `id`.
#[derive(Clone, Debug, PartialEq)]
pub struct Model {
    pub id: u32,
    pub user_id: u32,
    pub title: Option<String>,
    pub descrption: Option<String>,
}

/// The relations of an area to other records. It has none: the one variant
/// holds an `Infallible`, so no value of this type can be built.
#[derive(Copy, Clone, Debug)]
pub enum Relation {
    Unrelated(core::convert::Infallible),
}

} // verus!
