use udiab_search::common::{SearchField, SearchMethod, SearchSortBy};
use udiab_search::util;

#[test]
fn sort_by_discriminants_parse() {
    assert!(matches!(SearchSortBy::try_from("0"), Ok(SearchSortBy::Time)));
    assert!(matches!(SearchSortBy::try_from("1"), Ok(SearchSortBy::Hot)));
    assert!(matches!(
        SearchSortBy::try_from("2"),
        Ok(SearchSortBy::Relevance)
    ));
}

#[test]
fn sort_by_unknown_discriminant_is_error() {
    assert!(SearchSortBy::try_from("3").is_err());
    assert!(SearchSortBy::try_from("").is_err());
    assert!(SearchSortBy::try_from("01").is_err());
    assert!(SearchSortBy::try_from("time").is_err());
    let message = SearchSortBy::try_from("7").unwrap_err();
    assert_eq!(message, "Unknown discriminant for SearchSortBy: 7.");
}

#[test]
fn search_field_discriminants_parse() {
    assert!(matches!(SearchField::try_from("0"), Ok(SearchField::Title)));
    assert!(matches!(SearchField::try_from("1"), Ok(SearchField::Code)));
    assert!(matches!(SearchField::try_from("2"), Ok(SearchField::All)));
    assert!(SearchField::try_from("9").is_err());
}

#[test]
fn search_method_discriminants_parse() {
    assert!(matches!(
        SearchMethod::try_from("0"),
        Ok(SearchMethod::Naive)
    ));
    assert!(matches!(
        SearchMethod::try_from("1"),
        Ok(SearchMethod::Complex)
    ));
    assert!(matches!(
        SearchMethod::try_from("2"),
        Ok(SearchMethod::Regex)
    ));
    assert!(SearchMethod::try_from("x").is_err());
    assert!(SearchMethod::Complex.uses_parsed_grammar());
    assert!(!SearchMethod::Naive.uses_parsed_grammar());
    assert!(!SearchMethod::Regex.uses_parsed_grammar());
}

#[test]
fn news_sort_by_discriminants_parse() {
    assert!(matches!(
        util::SearchSortBy::try_from(0),
        Ok(util::SearchSortBy::Time)
    ));
    assert!(matches!(
        util::SearchSortBy::try_from(1),
        Ok(util::SearchSortBy::Hot)
    ));
    assert!(util::SearchSortBy::try_from(2).is_err());
}
