//! Data exchanged between the user interface and the backend's commands.
use chrono::NaiveDate;
use vstd::prelude::*;

verus! {

/// Name of the event that carries a URL received by the OAuth redirect
/// listener to the user interface.
pub const URL_EVENT: &'static str = "url";

/// An event as the user interface sends it with a command.
#[derive(Clone, Debug)]
pub struct Event {
    pub id: i32,
    pub title: String,
    pub create: Option<NaiveDate>,
}

/// A command from the user interface together with the event it acts on.
#[derive(Clone, Debug)]
pub struct Payload {
    pub command: String,
    pub data: Event,
    pub id: i32,
}

} // verus!
