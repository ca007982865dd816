//! Identity resolution: from the text of a link to the year and month of the
//! issue that it names.

use crate::text::{find_all, regex_matches, texts};
use chrono::Month as CalendarMonth;
use vstd::prelude::*;

verus! {

/// A month of the year.
#[derive(Clone, Copy, Debug, PartialEq, Eq, Structural)]
pub enum Month {
    January,
    February,
    March,
    April,
    May,
    June,
    July,
    August,
    September,
    October,
    November,
    December,
}

impl Month {
    /// The month's number, January being 1.
    pub open spec fn number_spec(self) -> int {
        match self {
            Month::January => 1,
            Month::February => 2,
            Month::March => 3,
            Month::April => 4,
            Month::May => 5,
            Month::June => 6,
            Month::July => 7,
            Month::August => 8,
            Month::September => 9,
            Month::October => 10,
            Month::November => 11,
            Month::December => 12,
        }
    }

    /// The month's number, January being 1.
    pub fn number(self) -> (n: u32)
        ensures
            n == self.number_spec(),
            1 <= n <= 12,
    {
        match self {
            Month::January => 1,
            Month::February => 2,
            Month::March => 3,
            Month::April => 4,
            Month::May => 5,
            Month::June => 6,
            Month::July => 7,
            Month::August => 8,
            Month::September => 9,
            Month::October => 10,
            Month::November => 11,
            Month::December => 12,
        }
    }
}

/// The earliest year that is no longer accepted: issues are dated after it.
pub const YEAR_FLOOR: i32 = 2000;

/// The pattern of a year candidate: four digits in a row.
pub const YEAR_PATTERN: &'static str = "\\d{4}";

/// The pattern of a month candidate: a run of letters.
pub const WORD_PATTERN: &'static str = "[A-Za-z]+";

/// The year and month of one issue. It is well formed for a given current
/// year when its year lies after `YEAR_FLOOR` and not after that year.
#[derive(Clone, Copy, Debug, PartialEq, Eq, Structural)]
pub struct ResolvedPeriod {
    pub year: i32,
    pub month: Month,
}

impl ResolvedPeriod {
    /// The year bound that every resolved period meets.
    pub open spec fn wf(self, current_year: int) -> bool {
        YEAR_FLOOR < self.year <= current_year
    }
}

/// What identity resolution says of a link: the period, or which of the two
/// fields could not be found.
#[derive(Clone, Copy, Debug, PartialEq, Eq, Structural)]
pub enum Resolution {
    Resolved(ResolvedPeriod),
    Unresolved { year_missing: bool, month_missing: bool },
}

/// Whether `c` is one of the ten ASCII digits.
pub open spec fn is_digit(c: char) -> bool {
    '0' <= c <= '9'
}

/// The number that four ASCII digits write, or `None` for any other token.
pub open spec fn four_digit_value(token: Seq<char>) -> Option<int> {
    if token.len() == 4 && is_digit(token[0]) && is_digit(token[1]) && is_digit(token[2])
        && is_digit(token[3]) {
        Some(
            (token[0] as int - 48) * 1000 + (token[1] as int - 48) * 100 + (token[2] as int - 48)
                * 10 + (token[3] as int - 48),
        )
    } else {
        None
    }
}

/// The year that a token stands for: its four-digit value where that lies
/// after `YEAR_FLOOR` and not after `current_year`.
pub open spec fn accepted_year(token: Seq<char>, current_year: int) -> Option<int> {
    match four_digit_value(token) {
        Some(y) => if YEAR_FLOOR < y <= current_year {
            Some(y)
        } else {
            None
        },
        None => None,
    }
}

/// The accepted year of the first token that has one.
pub open spec fn first_year(tokens: Seq<Seq<char>>, current_year: int) -> Option<int>
    decreases tokens.len(),
{
    if tokens.len() == 0 {
        None
    } else {
        match accepted_year(tokens[0], current_year) {
            Some(y) => Some(y),
            None => first_year(tokens.drop_first(), current_year),
        }
    }
}

fn digit_value(c: char) -> (d: Option<i32>)
    ensures
        match d {
            Some(v) => is_digit(c) && v == c as int - 48,
            None => !is_digit(c),
        },
{
    if '0' <= c && c <= '9' {
        Some((c as u32 - 48) as i32)
    } else {
        None
    }
}

/// Reads one year candidate and applies the year bound.
pub fn year_of(token: &str, current_year: i32) -> (result: Option<i32>)
    ensures
        match result {
            Some(y) => accepted_year(token@, current_year as int) == Some(y as int),
            None => accepted_year(token@, current_year as int) is None,
        },
{
    if token.unicode_len() != 4 {
        return None;
    }
    let d0 = digit_value(token.get_char(0));
    let d1 = digit_value(token.get_char(1));
    let d2 = digit_value(token.get_char(2));
    let d3 = digit_value(token.get_char(3));
    match (d0, d1, d2, d3) {
        (Some(a), Some(b), Some(c), Some(d)) => {
            let y: i32 = a * 1000 + b * 100 + c * 10 + d;
            if YEAR_FLOOR < y && y <= current_year {
                Some(y)
            } else {
                None
            }
        },
        _ => None,
    }
}

/// Scans the year candidates from the left and returns the first accepted
/// year; candidates out of bound are passed over.
pub fn pick_year(tokens: &Vec<String>, current_year: i32) -> (result: Option<i32>)
    ensures
        match result {
            Some(y) => first_year(texts(tokens@), current_year as int) == Some(y as int),
            None => first_year(texts(tokens@), current_year as int) is None,
        },
{
    let ghost all = texts(tokens@);
    let mut i: usize = 0;
    proof {
        assert(all.skip(0) =~= all);
    }
    while i < tokens.len()
        invariant
            i <= tokens.len(),
            all == texts(tokens@),
            first_year(all, current_year as int) == first_year(
                all.skip(i as int),
                current_year as int,
            ),
        decreases tokens.len() - i,
    {
        proof {
            assert(all.skip(i as int).drop_first() =~= all.skip(i as int + 1));
            assert(all.skip(i as int)[0] == tokens@[i as int]@);
        }
        match year_of(tokens[i].as_str(), current_year) {
            Some(y) => {
                return Some(y);
            },
            None => {},
        }
        i += 1;
    }
    proof {
        assert(all.skip(i as int).len() == 0);
    }
    None
}

/// The lower-case form of an ASCII capital, and any other character as it is.
pub open spec fn lowered(c: char) -> char {
    if 'A' <= c && c <= 'Z' {
        ((c as u8) + 32) as u8 as char
    } else {
        c
    }
}

/// The month that a lower-case name stands for: a month's English name or
/// its first three letters, and nothing else.
pub open spec fn month_named(name: Seq<char>) -> Option<Month> {
    if name == "jan"@ || name == "january"@ {
        Some(Month::January)
    } else if name == "feb"@ || name == "february"@ {
        Some(Month::February)
    } else if name == "mar"@ || name == "march"@ {
        Some(Month::March)
    } else if name == "apr"@ || name == "april"@ {
        Some(Month::April)
    } else if name == "may"@ {
        Some(Month::May)
    } else if name == "jun"@ || name == "june"@ {
        Some(Month::June)
    } else if name == "jul"@ || name == "july"@ {
        Some(Month::July)
    } else if name == "aug"@ || name == "august"@ {
        Some(Month::August)
    } else if name == "sep"@ || name == "september"@ {
        Some(Month::September)
    } else if name == "oct"@ || name == "october"@ {
        Some(Month::October)
    } else if name == "nov"@ || name == "november"@ {
        Some(Month::November)
    } else if name == "dec"@ || name == "december"@ {
        Some(Month::December)
    } else {
        None
    }
}

/// The month that a token names, whatever the case of its letters.
pub open spec fn month_of_token(token: Seq<char>) -> Option<Month> {
    month_named(token.map_values(|c: char| lowered(c)))
}

/// Calls `chrono::Month`'s `from_str` on `token` and maps the month that came
/// back, variant by variant. Nothing is proved of it: the contract states
/// what the crate documents, that a month is read from its English name or
/// the first three letters of it, without regard to ASCII letter case, and
/// from no other text.
#[verifier::external_body]
pub(crate) fn month_of(token: &str) -> (result: Option<Month>)
    ensures
        result == month_of_token(token@),
{
    match token.parse::<CalendarMonth>() {
        Ok(CalendarMonth::January) => Some(Month::January),
        Ok(CalendarMonth::February) => Some(Month::February),
        Ok(CalendarMonth::March) => Some(Month::March),
        Ok(CalendarMonth::April) => Some(Month::April),
        Ok(CalendarMonth::May) => Some(Month::May),
        Ok(CalendarMonth::June) => Some(Month::June),
        Ok(CalendarMonth::July) => Some(Month::July),
        Ok(CalendarMonth::August) => Some(Month::August),
        Ok(CalendarMonth::September) => Some(Month::September),
        Ok(CalendarMonth::October) => Some(Month::October),
        Ok(CalendarMonth::November) => Some(Month::November),
        Ok(CalendarMonth::December) => Some(Month::December),
        Err(_) => None,
    }
}

/// The month of the first token that names one.
pub open spec fn first_month(tokens: Seq<Seq<char>>) -> Option<Month>
    decreases tokens.len(),
{
    if tokens.len() == 0 {
        None
    } else {
        match month_of_token(tokens[0]) {
            Some(m) => Some(m),
            None => first_month(tokens.drop_first()),
        }
    }
}

/// The first of the readings that is a month.
pub open spec fn first_some(readings: Seq<Option<Month>>) -> Option<Month>
    decreases readings.len(),
{
    if readings.len() == 0 {
        None
    } else {
        match readings[0] {
            Some(m) => Some(m),
            None => first_some(readings.drop_first()),
        }
    }
}

/// Given what each word was read as, the first month among the readings.
pub fn first_recognized(readings: &Vec<Option<Month>>) -> (result: Option<Month>)
    ensures
        result == first_some(readings@),
{
    let mut i: usize = 0;
    proof {
        assert(readings@.skip(0) =~= readings@);
    }
    while i < readings.len()
        invariant
            i <= readings.len(),
            first_some(readings@) == first_some(readings@.skip(i as int)),
        decreases readings.len() - i,
    {
        proof {
            assert(readings@.skip(i as int).drop_first() =~= readings@.skip(i as int + 1));
        }
        match readings[i] {
            Some(m) => {
                return Some(m);
            },
            None => {},
        }
        i += 1;
    }
    None
}

/// Reads every word as a month name, in order.
pub fn read_months(words: &Vec<String>) -> (readings: Vec<Option<Month>>)
    ensures
        readings@ == texts(words@).map_values(|t: Seq<char>| month_of_token(t)),
{
    let mut readings: Vec<Option<Month>> = Vec::new();
    let mut i: usize = 0;
    while i < words.len()
        invariant
            i <= words.len(),
            readings@ == texts(words@).take(i as int).map_values(|t: Seq<char>| month_of_token(t)),
        decreases words.len() - i,
    {
        let m = month_of(words[i].as_str());
        readings.push(m);
        i += 1;
        proof {
            assert(readings@ =~= texts(words@).take(i as int).map_values(
                |t: Seq<char>| month_of_token(t),
            ));
        }
    }
    proof {
        assert(texts(words@).take(i as int) =~= texts(words@));
    }
    readings
}

/// The two findings put together: a period only where both are there.
pub open spec fn combine(year: Option<int>, month: Option<Month>) -> Resolution {
    match (year, month) {
        (Some(y), Some(m)) => Resolution::Resolved(ResolvedPeriod { year: y as i32, month: m }),
        _ => Resolution::Unresolved { year_missing: year is None, month_missing: month is None },
    }
}

/// Puts the two findings together.
pub fn resolution_of(year: Option<i32>, month: Option<Month>) -> (result: Resolution)
    ensures
        result == combine(
            match year {
                Some(y) => Some(y as int),
                None => None,
            },
            month,
        ),
{
    match (year, month) {
        (Some(y), Some(m)) => Resolution::Resolved(ResolvedPeriod { year: y, month: m }),
        _ => Resolution::Unresolved {
            year_missing: year.is_none(),
            month_missing: month.is_none(),
        },
    }
}

/// What a link resolves to, given its year candidates and its words.
pub open spec fn resolution(
    years: Seq<Seq<char>>,
    words: Seq<Seq<char>>,
    current_year: int,
) -> Resolution {
    combine(first_year(years, current_year), first_month(words))
}

/// Resolves a link from its year candidates and its words.
pub fn resolve_tokens(years: &Vec<String>, words: &Vec<String>, current_year: i32) -> (result:
    Resolution)
    ensures
        result == resolution(texts(years@), texts(words@), current_year as int),
        result matches Resolution::Resolved(p) ==> p.wf(current_year as int),
{
    let year = pick_year(years, current_year);
    let readings = read_months(words);
    let month = first_recognized(&readings);
    proof {
        lemma_first_some_of_readings(texts(words@));
        lemma_first_year(texts(years@), current_year as int);
    }
    resolution_of(year, month)
}

/// What `resolve` returns for a link: `None` only where one of the two
/// patterns is refused.
pub open spec fn resolve_spec(href: Seq<char>, current_year: int) -> Option<Resolution> {
    match (regex_matches(YEAR_PATTERN@, href), regex_matches(WORD_PATTERN@, href)) {
        (Some(years), Some(words)) => Some(resolution(years, words, current_year)),
        _ => None,
    }
}

/// Resolves a link: the first accepted year among its four-digit runs and
/// the first month among its runs of letters.
pub fn resolve(href: &str, current_year: i32) -> (result: Option<Resolution>)
    ensures
        result == resolve_spec(href@, current_year as int),
        result matches Some(Resolution::Resolved(p)) ==> p.wf(current_year as int),
{
    let years = find_all(YEAR_PATTERN, href);
    let words = find_all(WORD_PATTERN, href);
    match (years, words) {
        (Some(years), Some(words)) => Some(resolve_tokens(&years, &words, current_year)),
        _ => None,
    }
}

/// Reading the words first and taking the first month among the readings
/// is taking the month of the first word that names one.
pub proof fn lemma_first_some_of_readings(words: Seq<Seq<char>>)
    ensures
        first_some(words.map_values(|t: Seq<char>| month_of_token(t))) == first_month(words),
    decreases words.len(),
{
    let readings = words.map_values(|t: Seq<char>| month_of_token(t));
    if words.len() > 0 {
        lemma_first_some_of_readings(words.drop_first());
        assert(readings.drop_first() =~= words.drop_first().map_values(
            |t: Seq<char>| month_of_token(t),
        ));
    }
}

/// Whether no token before place `k` has an accepted year.
pub open spec fn no_year_before(tokens: Seq<Seq<char>>, current_year: int, k: int) -> bool {
    forall|j: int| 0 <= j < k ==> (#[trigger] accepted_year(tokens[j], current_year)) is None
}

/// Whether no word before place `k` names a month.
pub open spec fn no_month_before(words: Seq<Seq<char>>, k: int) -> bool {
    forall|j: int| 0 <= j < k ==> (#[trigger] month_of_token(words[j])) is None
}

/// The scan for a year stops at the first token with an accepted year and
/// passes over those out of bound; it finds nothing only where no token
/// has one.
pub proof fn lemma_first_year(tokens: Seq<Seq<char>>, current_year: int)
    ensures
        match first_year(tokens, current_year) {
            Some(y) => exists|k: int|
                0 <= k < tokens.len() && accepted_year(#[trigger] tokens[k], current_year) == Some(
                    y,
                ) && no_year_before(tokens, current_year, k),
            None => no_year_before(tokens, current_year, tokens.len() as int),
        },
        first_year(tokens, current_year) is Some ==> YEAR_FLOOR < first_year(
            tokens,
            current_year,
        ).unwrap() <= current_year,
    decreases tokens.len(),
{
    if tokens.len() > 0 {
        if accepted_year(tokens[0], current_year) is Some {
            assert(no_year_before(tokens, current_year, 0));
        } else {
            let rest = tokens.drop_first();
            lemma_first_year(rest, current_year);
            assert forall|j: int| 0 <= j < rest.len() implies rest[j] == tokens[j + 1] by {}
            match first_year(rest, current_year) {
                Some(y) => {
                    let k = choose|k: int|
                        0 <= k < rest.len() && accepted_year(#[trigger] rest[k], current_year)
                            == Some(y) && no_year_before(rest, current_year, k);
                    assert forall|j: int| 0 <= j < k + 1 implies (#[trigger] accepted_year(
                        tokens[j],
                        current_year,
                    )) is None by {
                        if j > 0 {
                            assert(accepted_year(rest[j - 1], current_year) is None);
                        }
                    }
                    assert(tokens[k + 1] == rest[k]);
                },
                None => {
                    assert forall|j: int| 0 <= j < tokens.len() implies (#[trigger] accepted_year(
                        tokens[j],
                        current_year,
                    )) is None by {
                        if j > 0 {
                            assert(accepted_year(rest[j - 1], current_year) is None);
                        }
                    }
                },
            }
        }
    }
}

/// The scan for a month stops at the first word that names one; it finds
/// nothing only where no word does.
pub proof fn lemma_first_month(words: Seq<Seq<char>>)
    ensures
        match first_month(words) {
            Some(m) => exists|k: int|
                0 <= k < words.len() && month_of_token(#[trigger] words[k]) == Some(m)
                    && no_month_before(words, k),
            None => no_month_before(words, words.len() as int),
        },
    decreases words.len(),
{
    if words.len() > 0 {
        if month_of_token(words[0]) is Some {
            assert(no_month_before(words, 0));
        } else {
            let rest = words.drop_first();
            lemma_first_month(rest);
            assert forall|j: int| 0 <= j < rest.len() implies rest[j] == words[j + 1] by {}
            match first_month(rest) {
                Some(m) => {
                    let k = choose|k: int|
                        0 <= k < rest.len() && month_of_token(#[trigger] rest[k]) == Some(m)
                            && no_month_before(rest, k);
                    assert forall|j: int| 0 <= j < k + 1 implies (#[trigger] month_of_token(
                        words[j],
                    )) is None by {
                        if j > 0 {
                            assert(month_of_token(rest[j - 1]) is None);
                        }
                    }
                    assert(words[k + 1] == rest[k]);
                },
                None => {
                    assert forall|j: int| 0 <= j < words.len() implies (#[trigger] month_of_token(
                        words[j],
                    )) is None by {
                        if j > 0 {
                            assert(month_of_token(rest[j - 1]) is None);
                        }
                    }
                },
            }
        }
    }
}

/// A link with a year in bound at place `i` and a month name at place `j`
/// resolves, and to the first such year and the first such month: where
/// nothing before `i` and `j` qualifies, to exactly that year and month.
pub proof fn lemma_resolves_with_year_and_month(
    years: Seq<Seq<char>>,
    words: Seq<Seq<char>>,
    current_year: int,
    i: int,
    j: int,
)
    requires
        current_year <= i32::MAX,
        0 <= i < years.len(),
        0 <= j < words.len(),
        accepted_year(years[i], current_year) is Some,
        month_of_token(words[j]) is Some,
    ensures
        resolution(years, words, current_year) is Resolved,
        resolution(years, words, current_year)->Resolved_0.wf(current_year),
        no_year_before(years, current_year, i) && no_month_before(words, j) ==> resolution(
            years,
            words,
            current_year,
        ) == Resolution::Resolved(
            ResolvedPeriod {
                year: accepted_year(years[i], current_year).unwrap() as i32,
                month: month_of_token(words[j]).unwrap(),
            },
        ),
{
    lemma_first_year(years, current_year);
    lemma_first_month(words);
}

/// A link resolves to a period only where both a year and a month were
/// found; otherwise the result names each missing field, and names it only
/// where no token of the link gives that field.
pub proof fn lemma_reports_missing_fields(
    years: Seq<Seq<char>>,
    words: Seq<Seq<char>>,
    current_year: int,
)
    ensures
        match resolution(years, words, current_year) {
            Resolution::Resolved(_) => !no_year_before(years, current_year, years.len() as int)
                && !no_month_before(words, words.len() as int),
            Resolution::Unresolved { year_missing, month_missing } => {
                &&& year_missing || month_missing
                &&& year_missing <==> no_year_before(years, current_year, years.len() as int)
                &&& month_missing <==> no_month_before(words, words.len() as int)
            },
        },
{
    lemma_first_year(years, current_year);
    lemma_first_month(words);
}


/// What holds of a link whose two scans ran: it resolves from its tokens;
/// a period lies within the year bound and is there only where a token
/// gives a year and a word gives a month; and otherwise each missing field
/// is named, and only where no token gives it.
pub proof fn lemma_link_resolution(href: Seq<char>, current_year: int)
    requires
        current_year <= i32::MAX,
        regex_matches(YEAR_PATTERN@, href) is Some,
        regex_matches(WORD_PATTERN@, href) is Some,
    ensures
        ({
            let years = regex_matches(YEAR_PATTERN@, href).unwrap();
            let words = regex_matches(WORD_PATTERN@, href).unwrap();
            &&& resolve_spec(href, current_year) == Some(resolution(years, words, current_year))
            &&& match resolution(years, words, current_year) {
                Resolution::Resolved(p) => {
                    &&& p.wf(current_year)
                    &&& first_year(years, current_year) == Some(p.year as int)
                    &&& first_month(words) == Some(p.month)
                },
                Resolution::Unresolved { year_missing, month_missing } => {
                    &&& year_missing || month_missing
                    &&& year_missing <==> no_year_before(years, current_year, years.len() as int)
                    &&& month_missing <==> no_month_before(words, words.len() as int)
                },
            }
        }),
{
    let years = regex_matches(YEAR_PATTERN@, href).unwrap();
    let words = regex_matches(WORD_PATTERN@, href).unwrap();
    lemma_first_year(years, current_year);
    lemma_first_month(words);
}

} // verus!
