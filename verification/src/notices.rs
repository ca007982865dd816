//! The texts of the notifications that a run sends to its host.

use crate::text::joined;
use vstd::prelude::*;

verus! {

/// The author and the publisher of every issue.
pub const PUBLISHER: &'static str = "Ligonier Ministries";

/// The kind of every issue's file.
pub const FILE_KIND: &'static str = "epub";

/// The terminal notification of a run with errors.
pub const UPDATED_WITH_ERRORS: &'static str = "TABLETALK updated with errors";

/// The terminal notification of a run without errors.
pub const UPDATED: &'static str = "TABLETALK successfully updated";

/// What the host is told while the device's WiFi is off.
pub const ENABLE_WIFI: &'static str = "Please enable WiFi to update TABLETALK";

/// What the host is told while the network is not up.
pub const AWAIT_NETWORK: &'static str = "Waiting for the network to come up";

/// The text that starts the report of a link without a year.
pub const NO_YEAR: &'static str = "Could not parse year from ";

/// The text that starts the report of a link without a month.
pub const NO_MONTH: &'static str = "Could not parse month from ";

/// The text that starts the announcement of an added issue.
pub const ADDED: &'static str = "Added ";

/// The text that starts the progress notice of a fetch.
pub const LOADING: &'static str = "loading ";

/// The terminal notification: it speaks of errors exactly where there were some.
pub fn terminal_message(with_errors: bool) -> (message: &'static str)
    ensures
        with_errors ==> message@ == UPDATED_WITH_ERRORS@,
        !with_errors ==> message@ == UPDATED@,
{
    if with_errors {
        UPDATED_WITH_ERRORS
    } else {
        UPDATED
    }
}

/// What the host is told before a run that has to wait for the network:
/// nothing where the network is up, else which of the two it waits for.
pub fn startup_notice(wifi: bool, online: bool) -> (notice: Option<&'static str>)
    ensures
        online ==> notice is None,
        !online && !wifi ==> notice is Some && notice.unwrap()@ == ENABLE_WIFI@,
        !online && wifi ==> notice is Some && notice.unwrap()@ == AWAIT_NETWORK@,
{
    if online {
        None
    } else if !wifi {
        Some(ENABLE_WIFI)
    } else {
        Some(AWAIT_NETWORK)
    }
}

/// The report of a link in which no year was found.
pub fn year_message(href: &str) -> (message: String)
    ensures
        message@ == NO_YEAR@ + href@,
{
    joined(NO_YEAR, href)
}

/// The report of a link in which no month was found.
pub fn month_message(href: &str) -> (message: String)
    ensures
        message@ == NO_MONTH@ + href@,
{
    joined(NO_MONTH, href)
}

/// The announcement of an added issue.
pub fn added_message(title: &str) -> (message: String)
    ensures
        message@ == ADDED@ + title@,
{
    joined(ADDED, title)
}

/// The progress notice that a fetch sends before its request.
pub fn loading_message(resource: &str) -> (message: String)
    ensures
        message@ == LOADING@ + resource@,
{
    joined(LOADING, resource)
}

} // verus!
