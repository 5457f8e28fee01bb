use crate::usecase::status_filter::is_text;
use vstd::prelude::*;

verus! {

/// How many updates the channel to the open pages keeps for a page that
/// lags behind.
pub const BROADCAST_CAPACITY: usize = 10;

/// The name under which an update is sent to the open pages.
pub const UPDATE_EVENT: &'static str = "update_todo_view";

/// Whether a setting of the process switches something on: it does
/// where it is set to `1`.
pub fn is_switched_on(setting: Option<&String>) -> (on: bool)
    ensures
        on == (setting matches Some(value) && value@ == "1"@),
{
    match setting {
        Some(value) => is_text(value, "1"),
        None => false,
    }
}

} // verus!
