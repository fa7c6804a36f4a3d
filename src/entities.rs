//! Records that the application keeps in its relational store. The
//! object-relational mapping of each record lives with the application
//! shell; here they are plain data.
use vstd::prelude::*;

pub mod area;
pub mod event;

verus! {

/// A calendar date of chrono, carried through the records unchanged.
#[verifier::external_type_specification]
#[verifier::external_body]
pub struct ExNaiveDate(chrono::NaiveDate);

/// A JSON document of serde_json, carried through the records unchanged.
#[verifier::external_type_specification]
#[verifier::external_body]
pub struct ExJsonValue(serde_json::Value);

} // verus!
