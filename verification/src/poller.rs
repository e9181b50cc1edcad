//! The poller: once a minute it has the calendar read and decides what the
//! answer means for the shared cell.

use crate::calendar::CalendarInfo;
use crate::cell::SharedStatusCell;
use crate::client::FetchError;
use vstd::prelude::*;

verus! {

/// The time between two readings of the calendar, whatever the last one came
/// to.
pub const POLL_INTERVAL_SEC: u64 = 60;

/// What a reading of the calendar led to. After each of them the poller
/// sleeps for [`POLL_INTERVAL_SEC`] and reads again.
#[derive(Clone, Copy, Debug, PartialEq, Eq, Structural)]
pub enum PollAction {
    /// The new status is in the cell; nothing is left to do.
    Published,
    /// The access token was refused: have it renewed before the next reading.
    Refresh,
    /// The reading failed for this reason, which is worth a line in the log.
    Report(FetchError),
}

/// Takes in the outcome of one reading of the calendar. A status is
/// published; a failure leaves the cell as it was, so that the display keeps
/// its last known status, and only a refused token asks for more than a note.
pub fn on_fetch(cell: &mut SharedStatusCell, fetched: Result<CalendarInfo, FetchError>) -> (action:
    PollAction)
    ensures
        match fetched {
            Ok(info) => {
                &&& action == PollAction::Published
                &&& final(cell).current() == Some(info@)
                &&& final(cell).spec_version() == SharedStatusCell::version_after(
                    old(cell).spec_version(),
                )
            },
            Err(error) => {
                &&& *final(cell) == *old(cell)
                &&& action == if error == FetchError::Unauthorized {
                    PollAction::Refresh
                } else {
                    PollAction::Report(error)
                }
            },
        },
{
    match fetched {
        Ok(info) => {
            cell.publish(info);
            PollAction::Published
        },
        Err(FetchError::Unauthorized) => PollAction::Refresh,
        Err(error) => PollAction::Report(error),
    }
}

} // verus!
