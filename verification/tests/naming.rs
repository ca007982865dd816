use tabletalk::naming::{artifact_from, identifier, identifier_from, name_period, NamingError};
use tabletalk::period::{Month, ResolvedPeriod};

#[test]
fn names_march_2024() {
    let artifact = name_period(ResolvedPeriod { year: 2024, month: Month::March }).unwrap();
    assert_eq!(artifact.title, "TABLETALK - March 2024");
    assert_eq!(artifact.filename, "tabletalk-2024-03.epub");
}

#[test]
fn names_months_with_two_digits() {
    let artifact = name_period(ResolvedPeriod { year: 2001, month: Month::December }).unwrap();
    assert_eq!(artifact.title, "TABLETALK - December 2001");
    assert_eq!(artifact.filename, "tabletalk-2001-12.epub");
    let artifact = name_period(ResolvedPeriod { year: 2019, month: Month::January }).unwrap();
    assert_eq!(artifact.title, "TABLETALK - January 2019");
    assert_eq!(artifact.filename, "tabletalk-2019-01.epub");
}

#[test]
fn naming_twice_gives_the_same_names() {
    let period = ResolvedPeriod { year: 2022, month: Month::July };
    let first = name_period(period).unwrap();
    let second = name_period(period).unwrap();
    assert_eq!(first.title.as_bytes(), second.title.as_bytes());
    assert_eq!(first.filename.as_bytes(), second.filename.as_bytes());
}

#[test]
fn a_year_without_a_date_is_not_named() {
    let period = ResolvedPeriod { year: 400000, month: Month::May };
    let result = name_period(period);
    assert_eq!(
        result.err(),
        Some(NamingError::Unrepresentable { year: 400000, month: Month::May })
    );
}

#[test]
fn artifact_needs_both_names() {
    let period = ResolvedPeriod { year: 2022, month: Month::July };
    let error = NamingError::Unrepresentable { year: 2022, month: Month::July };
    assert_eq!(artifact_from(None, Some("f".to_string()), period).err(), Some(error));
    assert_eq!(artifact_from(Some("t".to_string()), None, period).err(), Some(error));
    assert_eq!(artifact_from(None, None, period).err(), Some(error));
    let artifact = artifact_from(Some("t".to_string()), Some("f".to_string()), period).unwrap();
    assert_eq!(artifact.title, "t");
    assert_eq!(artifact.filename, "f");
}

#[test]
fn identifier_is_the_uuid_of_the_link() {
    let href = "https://example.org/TBLT-2024-March-0a1b2c3d-0011-2233-4455-66778899aabb.epub";
    assert_eq!(
        identifier(href, "tabletalk-2024-03.epub"),
        Some("0a1b2c3d-0011-2233-4455-66778899aabb".to_string())
    );
}

#[test]
fn identifier_is_the_first_uuid() {
    let href = "/0a1b2c3d-0011-2233-4455-66778899aabb/ffffffff-0000-1111-2222-333333333333";
    assert_eq!(
        identifier(href, "x.epub"),
        Some("0a1b2c3d-0011-2233-4455-66778899aabb".to_string())
    );
}

#[test]
fn identifier_falls_back_to_the_file_name() {
    assert_eq!(
        identifier("https://example.org/TBLT-2024-March-uuid1234.epub", "tabletalk-2024-03.epub"),
        Some("tabletalk-2024-03.epub".to_string())
    );
    // upper-case digits do not make an identifier
    assert_eq!(
        identifier("/0A1B2C3D-0011-2233-4455-66778899AABB", "f.epub"),
        Some("f.epub".to_string())
    );
}

#[test]
fn identifier_from_takes_the_first_match() {
    let matches = vec!["a".to_string(), "b".to_string()];
    assert_eq!(identifier_from(&matches, "f"), "a");
    assert_eq!(identifier_from(&Vec::new(), "f"), "f");
}

#[test]
fn describes_an_added_issue() {
    let period = ResolvedPeriod { year: 2024, month: Month::March };
    let artifact = name_period(period).unwrap();
    let document = tabletalk::document::describe(
        &artifact,
        period,
        "0a1b2c3d-0011-2233-4455-66778899aabb".to_string(),
        "tabletalk/tabletalk-2024-03.epub".to_string(),
        Some(123456),
    );
    assert_eq!(document.title, "TABLETALK - March 2024");
    assert_eq!(document.author, "Ligonier Ministries");
    assert_eq!(document.year, 2024);
    assert_eq!(document.publisher, "Ligonier Ministries");
    assert_eq!(document.identifier, "0a1b2c3d-0011-2233-4455-66778899aabb");
    assert_eq!(document.path, "tabletalk/tabletalk-2024-03.epub");
    assert_eq!(document.kind, "epub");
    assert_eq!(document.size, 123456);
    let unread = tabletalk::document::describe(&artifact, period, String::new(), String::new(), None);
    assert_eq!(unread.size, 0);
}
