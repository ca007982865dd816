use tabletalk::period::{
    pick_year, resolution_of, resolve, resolve_tokens, year_of, first_recognized, read_months,
    Month, Resolution, ResolvedPeriod,
};

fn period(year: i32, month: Month) -> Option<Resolution> {
    Some(Resolution::Resolved(ResolvedPeriod { year, month }))
}

fn unresolved(year_missing: bool, month_missing: bool) -> Option<Resolution> {
    Some(Resolution::Unresolved { year_missing, month_missing })
}

#[test]
fn resolves_year_and_month_of_a_link() {
    let href = "https://example.org/issues/TBLT-2024-March-uuid1234.epub";
    assert_eq!(resolve(href, 2024), period(2024, Month::March));
}

#[test]
fn resolves_every_month_name() {
    let names = [
        ("January", Month::January),
        ("February", Month::February),
        ("March", Month::March),
        ("April", Month::April),
        ("May", Month::May),
        ("June", Month::June),
        ("July", Month::July),
        ("August", Month::August),
        ("September", Month::September),
        ("October", Month::October),
        ("November", Month::November),
        ("December", Month::December),
    ];
    for (name, month) in names {
        let href = format!("/{}/2021.epub", name);
        assert_eq!(resolve(&href, 2024), period(2021, month));
    }
}

#[test]
fn month_names_are_read_in_any_case_and_in_short_form() {
    assert_eq!(resolve("/2023/mArCh/issue", 2024), period(2023, Month::March));
    assert_eq!(resolve("/2023/SEP/issue", 2024), period(2023, Month::September));
    assert_eq!(resolve("/2023-dec", 2024), period(2023, Month::December));
}

#[test]
fn truncated_month_names_are_not_months() {
    assert_eq!(resolve("/2023/septem/", 2024), unresolved(false, true));
    assert_eq!(resolve("/2023/Augustin/", 2024), unresolved(false, true));
}

#[test]
fn year_out_of_bound_is_year_missing() {
    assert_eq!(resolve("/TBLT-1999-March.epub", 2024), unresolved(true, false));
    assert_eq!(resolve("/TBLT-2000-March.epub", 2024), unresolved(true, false));
    assert_eq!(resolve("/TBLT-2025-March.epub", 2024), unresolved(true, false));
}

#[test]
fn year_bounds_are_exact() {
    assert_eq!(resolve("/2001-May", 2024), period(2001, Month::May));
    assert_eq!(resolve("/2024-May", 2024), period(2024, Month::May));
    assert_eq!(resolve("/2024-May", 2023), unresolved(true, false));
}

#[test]
fn scanning_passes_over_years_out_of_bound() {
    assert_eq!(resolve("/1999/TBLT-2023-June.epub", 2024), period(2023, Month::June));
    assert_eq!(resolve("/9999-2022-2023-June", 2024), period(2022, Month::June));
}

#[test]
fn first_month_wins() {
    assert_eq!(resolve("/2022/July/August", 2024), period(2022, Month::July));
    assert_eq!(resolve("/TBLT/2022/epub/Oct/Nov", 2024), period(2022, Month::October));
}

#[test]
fn year_candidates_do_not_overlap() {
    // the runs are "1202" and "4"; neither is a year in bound
    assert_eq!(resolve("/12024-May", 2024), unresolved(true, false));
    // the runs are "2020" and "2021"
    assert_eq!(resolve("/20202021-May", 2024), period(2020, Month::May));
}

#[test]
fn digits_outside_ascii_are_no_year() {
    assert_eq!(resolve("/\u{ff12}\u{ff10}\u{ff12}\u{ff14}-May", 2024), unresolved(true, false));
}

#[test]
fn missing_month_is_reported() {
    assert_eq!(resolve("/TBLT-2024-xx.epub", 2024), unresolved(false, true));
}

#[test]
fn both_fields_missing_are_both_reported() {
    assert_eq!(resolve("/TBLT-issue.epub", 2024), unresolved(true, true));
    assert_eq!(resolve("", 2024), unresolved(true, true));
}

#[test]
fn resolution_is_the_same_on_every_call() {
    let href = "/TBLT-2024-March-uuid1234.epub";
    assert_eq!(resolve(href, 2024), resolve(href, 2024));
}

#[test]
fn year_of_reads_four_ascii_digits() {
    assert_eq!(year_of("2024", 2024), Some(2024));
    assert_eq!(year_of("2001", 2024), Some(2001));
    assert_eq!(year_of("2000", 2024), None);
    assert_eq!(year_of("1999", 2024), None);
    assert_eq!(year_of("2025", 2024), None);
    assert_eq!(year_of("202", 2024), None);
    assert_eq!(year_of("20240", 2024), None);
    assert_eq!(year_of("20a4", 2024), None);
    assert_eq!(year_of("", 2024), None);
    assert_eq!(year_of("9999", i32::MAX), Some(9999));
}

#[test]
fn pick_year_takes_the_first_accepted() {
    let tokens = vec!["1999".to_string(), "2010".to_string(), "2011".to_string()];
    assert_eq!(pick_year(&tokens, 2024), Some(2010));
    assert_eq!(pick_year(&tokens, 2005), None);
    assert_eq!(pick_year(&Vec::new(), 2024), None);
}

#[test]
fn months_are_read_word_by_word() {
    let words = vec!["TBLT".to_string(), "feb".to_string(), "April".to_string()];
    let readings = read_months(&words);
    assert_eq!(readings, vec![None, Some(Month::February), Some(Month::April)]);
    assert_eq!(first_recognized(&readings), Some(Month::February));
    assert_eq!(first_recognized(&vec![None, None]), None);
    assert_eq!(first_recognized(&Vec::new()), None);
}

#[test]
fn resolve_tokens_combines_both_scans() {
    let years = vec!["1999".to_string(), "2024".to_string()];
    let words = vec!["TBLT".to_string(), "March".to_string()];
    assert_eq!(
        resolve_tokens(&years, &words, 2024),
        Resolution::Resolved(ResolvedPeriod { year: 2024, month: Month::March })
    );
    assert_eq!(
        resolve_tokens(&Vec::new(), &words, 2024),
        Resolution::Unresolved { year_missing: true, month_missing: false }
    );
}

#[test]
fn resolution_of_never_keeps_one_field() {
    assert_eq!(
        resolution_of(Some(2024), None),
        Resolution::Unresolved { year_missing: false, month_missing: true }
    );
    assert_eq!(
        resolution_of(None, Some(Month::May)),
        Resolution::Unresolved { year_missing: true, month_missing: false }
    );
    assert_eq!(
        resolution_of(None, None),
        Resolution::Unresolved { year_missing: true, month_missing: true }
    );
    assert_eq!(
        resolution_of(Some(2024), Some(Month::May)),
        Resolution::Resolved(ResolvedPeriod { year: 2024, month: Month::May })
    );
}

#[test]
fn month_numbers_start_at_one() {
    assert_eq!(Month::January.number(), 1);
    assert_eq!(Month::March.number(), 3);
    assert_eq!(Month::December.number(), 12);
}
