use citation::search::{
    first_word_of, parse_int, search_url, summary_url, year_of_pubdate, SearchResult,
};

#[test]
fn year_is_the_first_word_of_the_date() {
    assert_eq!(year_of_pubdate("2023 Jan 5"), 2023);
    assert_eq!(year_of_pubdate("  1999"), 1999);
    assert_eq!(year_of_pubdate("\u{3000}2024\tMar"), 2024);
    assert_eq!(year_of_pubdate("+7 Dec"), 7);
    assert_eq!(year_of_pubdate("-12"), -12);
}

#[test]
fn unreadable_year_is_zero() {
    assert_eq!(year_of_pubdate(""), 0);
    assert_eq!(year_of_pubdate("   "), 0);
    assert_eq!(year_of_pubdate("Spring 2020"), 0);
    assert_eq!(year_of_pubdate("20a3"), 0);
    assert_eq!(year_of_pubdate("- 5"), 0);
    assert_eq!(year_of_pubdate("2147483648"), 0);
    assert_eq!(year_of_pubdate("99999999999999999999"), 0);
}

#[test]
fn integer_parsing_at_the_limits() {
    assert_eq!(parse_int("2147483647"), Some(i32::MAX));
    assert_eq!(parse_int("-2147483648"), Some(i32::MIN));
    assert_eq!(parse_int("-2147483649"), None);
    assert_eq!(parse_int("+"), None);
    assert_eq!(parse_int("007"), Some(7));
}

#[test]
fn first_word_skips_leading_space() {
    assert_eq!(first_word_of("  ab cd"), "ab");
    assert_eq!(first_word_of(""), "");
}

#[test]
fn search_result_from_summary() {
    let r = SearchResult::from_summary(
        "123".to_string(),
        "A title".to_string(),
        vec!["Doe J".to_string()],
        "2021 Feb",
    );
    assert_eq!(r.id, "123");
    assert_eq!(r.title, "A title");
    assert_eq!(r.authors, vec!["Doe J".to_string()]);
    assert_eq!(r.year, 2021);
}

#[test]
fn request_urls() {
    assert_eq!(
        search_url("cancer"),
        "https://eutils.ncbi.nlm.nih.gov/entrez/eutils/esearch.fcgi?db=pubmed&term=cancer&retmode=json"
    );
    assert_eq!(
        summary_url(&vec!["1".to_string(), "22".to_string(), "333".to_string()]),
        "https://eutils.ncbi.nlm.nih.gov/entrez/eutils/esummary.fcgi?db=pubmed&id=1,22,333&retmode=json"
    );
    assert_eq!(
        summary_url(&vec![]),
        "https://eutils.ncbi.nlm.nih.gov/entrez/eutils/esummary.fcgi?db=pubmed&id=&retmode=json"
    );
}
