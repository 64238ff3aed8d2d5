//! Calendars, as stored and as a service reports them.

use vstd::prelude::*;

verus! {

/// A calendar as it is stored.
#[derive(Debug)]
pub struct Calendar {
    pub id: u64,
    pub external_id: String,
    pub name: String,
    pub background_color: String,
    pub foreground_color: String,
    pub integration_id: String,
}

/// A calendar as a service reports it. A caller compares `external_id`
/// with what it has stored to tell a known calendar from a new one.
#[derive(Debug)]
pub struct CalendarResult {
    pub external_id: String,
    pub name: String,
    pub background_color: String,
    pub foreground_color: String,
}

/// What a `CalendarResult` holds, with its texts as characters.
pub struct CalendarResultView {
    pub external_id: Seq<char>,
    pub name: Seq<char>,
    pub background_color: Seq<char>,
    pub foreground_color: Seq<char>,
}

impl View for CalendarResult {
    type V = CalendarResultView;

    open spec fn view(&self) -> CalendarResultView {
        CalendarResultView {
            external_id: self.external_id@,
            name: self.name@,
            background_color: self.background_color@,
            foreground_color: self.foreground_color@,
        }
    }
}

} // verus!
