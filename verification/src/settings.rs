//! The settings of a run.

use vstd::prelude::*;

verus! {

/// The page that lists the issues, unless the settings name another.
pub const DEFAULT_URL: &'static str =
    "https://subscribe.pcspublink.com/websis/DigitalIssues/TBLT/2330";

/// The number of issues that a run attempts, unless the settings say otherwise.
pub const DEFAULT_LIMIT: usize = 1;

/// Holds the settings of the application.
#[derive(Debug, Clone)]
pub struct Settings {
    /// Link to the page with links to the issues.
    pub url: String,
    /// The number of issues to download, starting with the most recent issue.
    pub limit: usize,
}

impl Default for Settings {
    fn default() -> (settings: Settings)
        ensures
            settings.url@ == DEFAULT_URL@,
            settings.limit == DEFAULT_LIMIT,
    {
        Settings { url: DEFAULT_URL.to_owned(), limit: DEFAULT_LIMIT }
    }
}

} // verus!
