//! A calendar event as the calendar provider describes it, kept as one row
//! of the `events` table. Nested structures of the provider stay JSON.
use chrono::NaiveDate;
use serde_json::Value;
use vstd::prelude::*;

verus! {

/// One row of the `events` table, keyed by the provider's event id.
#[derive(Clone, Debug, PartialEq)]
pub struct Model {
    pub id: i32,
    pub kind: Option<String>,
    pub etag: Option<String>,
    pub status: Option<String>,
    pub html_link: Option<String>,
    pub created: Option<NaiveDate>,
    pub updated: Option<NaiveDate>,
    pub summary: Option<String>,
    pub description: Option<String>,
    pub location: Option<String>,
    pub color_id: Option<String>,
    pub start_date: Option<NaiveDate>,
    pub start_datetime: Option<NaiveDate>,
    pub start_timezone: Option<String>,
    pub end_date: Option<NaiveDate>,
    pub end_datetime: Option<NaiveDate>,
    pub end_timezone: Option<String>,
    pub end_time_unspecified: Option<bool>,
    pub recurrence: Option<Value>,
    pub recurring_event_id: Option<String>,
    pub transparency: Option<String>,
    pub visibility: Option<String>,
    pub ical_uid: Option<String>,
    pub sequence: Option<i32>,
    pub attendees_omitted: Option<bool>,
    pub anyone_can_add_self: Option<bool>,
    pub guests_can_invite_others: Option<bool>,
    pub guests_can_modify: Option<bool>,
    pub guests_can_see_other_guests: Option<bool>,
    pub private_copy: Option<bool>,
    pub locked: Option<bool>,
    pub hangout_link: Option<String>,
    pub event_type: Option<String>,
    pub creator: Option<Value>,
    pub organizer: Option<Value>,
    pub original_start_time: Option<Value>,
    pub attendees: Option<Value>,
    pub extended_properties: Option<Value>,
    pub conference_data: Option<Value>,
    pub gadget: Option<Value>,
    pub reminders: Option<Value>,
    pub source: Option<Value>,
    pub working_location_properties: Option<Value>,
    pub out_of_office_properties: Option<Value>,
    pub focus_time_properties: Option<Value>,
    pub attachments: Option<Value>,
    pub birthday_properties: Option<Value>,
}

} // verus!
