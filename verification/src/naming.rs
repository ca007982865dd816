//! Naming strategy: the title and the file name of an issue, and the
//! identifier under which it is announced.

use crate::period::{Month, ResolvedPeriod};
use crate::text::{find_all, regex_matches, texts};
use chrono::NaiveDate;
use std::fmt::Write;
use vstd::prelude::*;

verus! {

/// The format of an issue's title: the publication, the month's name, the year.
pub const TITLE_FORMAT: &'static str = "TABLETALK - %B %Y";

/// The format of an issue's file name: the slug, the year, the month's number.
pub const FILE_FORMAT: &'static str = "tabletalk-%Y-%m.epub";

/// The pattern of an identifier inside a link: five groups of lower-case
/// hexadecimal digits.
pub const UUID_PATTERN: &'static str =
    "[0-9a-f]{8}-[0-9a-f]{4}-[0-9a-f]{4}-[0-9a-f]{4}-[0-9a-f]{12}";

/// The day of the month on which an issue is dated.
pub const ISSUE_DAY: u32 = 1;

/// The title and the file name under which an issue is kept.
#[derive(Clone, Debug)]
pub struct LocalArtifact {
    pub title: String,
    pub filename: String,
}

impl View for LocalArtifact {
    type V = (Seq<char>, Seq<char>);

    open spec fn view(&self) -> (Seq<char>, Seq<char>) {
        (self.title@, self.filename@)
    }
}

/// Why an issue could not be named.
#[derive(Clone, Copy, Debug, PartialEq, Eq, Structural)]
pub enum NamingError {
    /// The month and year do not make a date that can be written out.
    Unrepresentable { year: i32, month: Month },
}

/// What the `chrono` crate writes for the date `year`-`month`-`day` under
/// `format`, or `None` where there is no such date or the format is refused.
pub uninterp spec fn chrono_format(year: int, month: int, day: int, format: Seq<char>) -> Option<
    Seq<char>,
>;

/// Calls `chrono::NaiveDate::from_ymd_opt` and writes the date out with
/// `NaiveDate::format`. Nothing is proved of it: the contract gives the
/// result its name, `chrono_format`.
#[verifier::external_body]
pub(crate) fn format_date(year: i32, month: u32, day: u32, format: &str) -> (result: Option<
    String,
>)
    ensures
        match result {
            Some(s) => chrono_format(year as int, month as int, day as int, format@) == Some(s@),
            None => chrono_format(year as int, month as int, day as int, format@) is None,
        },
{
    let date = NaiveDate::from_ymd_opt(year, month, day)?;
    let mut out = String::new();
    match write!(out, "{}", date.format(format)) {
        Ok(()) => Some(out),
        Err(_) => None,
    }
}

/// A title and a file name make an artifact only where both were written.
pub open spec fn paired(title: Option<Seq<char>>, filename: Option<Seq<char>>) -> Option<
    (Seq<char>, Seq<char>),
> {
    match (title, filename) {
        (Some(t), Some(f)) => Some((t, f)),
        _ => None,
    }
}

/// The artifact of a period: its date written under the two formats.
pub open spec fn naming(period: ResolvedPeriod) -> Option<(Seq<char>, Seq<char>)> {
    paired(
        chrono_format(
            period.year as int,
            period.month.number_spec(),
            ISSUE_DAY as int,
            TITLE_FORMAT@,
        ),
        chrono_format(
            period.year as int,
            period.month.number_spec(),
            ISSUE_DAY as int,
            FILE_FORMAT@,
        ),
    )
}

/// Makes the artifact from the two written forms of a period's date, and
/// fails where either is lacking.
pub fn artifact_from(
    title: Option<String>,
    filename: Option<String>,
    period: ResolvedPeriod,
) -> (result: Result<LocalArtifact, NamingError>)
    ensures
        match result {
            Ok(a) => title.is_some() && filename.is_some() && a.title == title.unwrap()
                && a.filename == filename.unwrap(),
            Err(e) => (title.is_none() || filename.is_none()) && e == (NamingError::Unrepresentable {
                year: period.year,
                month: period.month,
            }),
        },
{
    match (title, filename) {
        (Some(title), Some(filename)) => Ok(LocalArtifact { title, filename }),
        _ => Err(NamingError::Unrepresentable { year: period.year, month: period.month }),
    }
}

/// Names an issue: the title and file name of the first day of its month.
/// The same period always gets the same names.
pub fn name_period(period: ResolvedPeriod) -> (result: Result<LocalArtifact, NamingError>)
    ensures
        match result {
            Ok(a) => naming(period) == Some(a@),
            Err(e) => naming(period) is None && e == (NamingError::Unrepresentable {
                year: period.year,
                month: period.month,
            }),
        },
{
    let month = period.month.number();
    let title = format_date(period.year, month, ISSUE_DAY, TITLE_FORMAT);
    let filename = format_date(period.year, month, ISSUE_DAY, FILE_FORMAT);
    artifact_from(title, filename, period)
}

/// Naming is a function of the period: two artifacts named for one period
/// have the same title and the same file name, character for character.
pub proof fn lemma_naming_is_stable(period: ResolvedPeriod, first: LocalArtifact, second: LocalArtifact)
    requires
        naming(period) == Some(first@),
        naming(period) == Some(second@),
    ensures
        first.title@ == second.title@,
        first.filename@ == second.filename@,
{
}

/// The identifier among the matches of `UUID_PATTERN` in a link: the first
/// match, or the file name where there is none.
pub open spec fn chosen_identifier(matches: Seq<Seq<char>>, filename: Seq<char>) -> Seq<char> {
    if matches.len() > 0 {
        matches[0]
    } else {
        filename
    }
}

/// Picks the identifier: the first match, or the file name where there is none.
pub fn identifier_from(matches: &Vec<String>, filename: &str) -> (result: String)
    ensures
        result@ == chosen_identifier(texts(matches@), filename@),
{
    if matches.len() > 0 {
        matches[0].clone()
    } else {
        filename.to_owned()
    }
}

/// The stable identifier of an issue: the part of its link that has the
/// shape of a UUID, or its file name where the link has none. `None` only
/// where the pattern is refused.
pub fn identifier(href: &str, filename: &str) -> (result: Option<String>)
    ensures
        match result {
            Some(id) => regex_matches(UUID_PATTERN@, href@) is Some && id@ == chosen_identifier(
                regex_matches(UUID_PATTERN@, href@).unwrap(),
                filename@,
            ),
            None => regex_matches(UUID_PATTERN@, href@) is None,
        },
{
    match find_all(UUID_PATTERN, href) {
        Some(matches) => Some(identifier_from(&matches, filename)),
        None => None,
    }
}

} // verus!
