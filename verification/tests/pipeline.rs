use album_tracker::auth::catalog_credentials;
use album_tracker::auth::credential_check;
use album_tracker::auth::token_of_output;
use album_tracker::catalog::candidate_line;
use album_tracker::catalog::disambiguate;
use album_tracker::catalog::extract_candidates;
use album_tracker::catalog::extract_master_id;
use album_tracker::catalog::CatalogCandidate;
use album_tracker::catalog::Selection;
use album_tracker::catalog::MAX_CANDIDATES;
use album_tracker::collection::entry_report;
use album_tracker::collection::extract_entry;
use album_tracker::collection::CollectionEntry;
use album_tracker::errors::PipelineError;
use album_tracker::recognize::extract_label;
use album_tracker::text::parse_index;
use album_tracker::text::trim_spaces;
use album_tracker::text::u64_to_string;

#[test]
fn trim_removes_surrounding_whitespace() {
    assert_eq!(trim_spaces(" \t3\r\n"), "3");
    assert_eq!(trim_spaces("abc"), "abc");
    assert_eq!(trim_spaces("  "), "");
    assert_eq!(trim_spaces(""), "");
    assert_eq!(trim_spaces("a b"), "a b");
}

#[test]
fn parse_index_accepts_plain_decimals() {
    assert_eq!(parse_index("0"), Some(0));
    assert_eq!(parse_index(" 7\n"), Some(7));
    assert_eq!(parse_index("0042"), Some(42));
}

#[test]
fn parse_index_rejects_non_decimals() {
    assert_eq!(parse_index(""), None);
    assert_eq!(parse_index("\n"), None);
    assert_eq!(parse_index("abc"), None);
    assert_eq!(parse_index("-1"), None);
    assert_eq!(parse_index("3.5"), None);
    assert_eq!(parse_index("3 4"), None);
    assert_eq!(parse_index("99999999999999999999999999"), None);
}

#[test]
fn rendering_parses_back() {
    assert_eq!(u64_to_string(0), "0");
    assert_eq!(u64_to_string(9), "9");
    assert_eq!(u64_to_string(123), "123");
    assert_eq!(u64_to_string(1024), "1024");
    assert_eq!(parse_index(&u64_to_string(987654321)), Some(987654321));
}

#[test]
fn credential_check_fails_fast() {
    assert_eq!(credential_check(false), Err(PipelineError::AuthError));
    assert!(credential_check(true).is_ok());
}

#[test]
fn catalog_credentials_need_both_values() {
    assert_eq!(
        catalog_credentials(Some(String::from("ringo")), Some(String::from("tok"))),
        Ok((String::from("ringo"), String::from("tok")))
    );
    assert_eq!(
        catalog_credentials(None, Some(String::from("tok"))),
        Err(PipelineError::AuthError)
    );
    assert_eq!(
        catalog_credentials(Some(String::from("ringo")), None),
        Err(PipelineError::AuthError)
    );
    assert_eq!(catalog_credentials(None, None), Err(PipelineError::AuthError));
}

#[test]
fn token_is_trimmed_tool_output() {
    assert_eq!(token_of_output("tok-123\n"), Ok(String::from("tok-123")));
    assert_eq!(token_of_output("  \n"), Err(PipelineError::AuthError));
    assert_eq!(token_of_output(""), Err(PipelineError::AuthError));
}

#[test]
fn label_extracted_from_best_guess_path() {
    let body = "{\"responses\":[{\"webDetection\":{\"bestGuessLabels\":[{\"label\":\"Abbey Road\"}]}}]}";
    assert_eq!(extract_label(body), Ok(String::from("Abbey Road")));
}

#[test]
fn label_shape_failures_are_parse_errors() {
    assert_eq!(extract_label("not json"), Err(PipelineError::ParseError));
    assert_eq!(extract_label("{}"), Err(PipelineError::ParseError));
    assert_eq!(
        extract_label("{\"responses\":[{\"webDetection\":{}}]}"),
        Err(PipelineError::ParseError)
    );
    // The service answered, but had nothing to say: still a parse failure.
    let empty = "{\"responses\":[{\"webDetection\":{\"bestGuessLabels\":[{\"label\":\"\"}]}}]}";
    assert_eq!(extract_label(empty), Err(PipelineError::ParseError));
    // A label of the wrong type is a shape failure too.
    let wrong = "{\"responses\":[{\"webDetection\":{\"bestGuessLabels\":[{\"label\":7}]}}]}";
    assert_eq!(extract_label(wrong), Err(PipelineError::ParseError));
}

#[test]
fn master_id_extracted_from_first_result() {
    let body = "{\"results\":[{\"master_id\":45526,\"title\":\"x\"},{\"master_id\":1}]}";
    assert_eq!(extract_master_id(body), Ok(45526));
    assert_eq!(extract_master_id("{\"results\":[]}"), Err(PipelineError::ParseError));
    assert_eq!(
        extract_master_id("{\"results\":[{\"master_id\":\"nan\"}]}"),
        Err(PipelineError::ParseError)
    );
}

fn version_entry(title: &str, id: u64) -> String {
    format!(
        "{{\"title\":\"{}\",\"country\":\"US\",\"released\":\"2019\",\"format\":\"Vinyl\",\"id\":{}}}",
        title, id
    )
}

fn versions_body(count: u64) -> String {
    let mut body = String::from("{\"versions\":[");
    for i in 0..count {
        if i > 0 {
            body.push(',');
        }
        body.push_str(&version_entry("Abbey Road", 100 + i));
    }
    body.push_str("]}");
    body
}

#[test]
fn candidates_keep_service_order() {
    let cs = extract_candidates(&versions_body(3)).unwrap();
    assert_eq!(cs.len(), 3);
    assert_eq!(cs[0].id, 100);
    assert_eq!(cs[1].id, 101);
    assert_eq!(cs[2].id, 102);
    assert_eq!(cs[0].title, "Abbey Road");
    assert_eq!(cs[0].country, "US");
    assert_eq!(cs[0].released, "2019");
    assert_eq!(cs[0].format, "Vinyl");
}

#[test]
fn candidates_bounded_to_ten() {
    let cs = extract_candidates(&versions_body(25)).unwrap();
    assert_eq!(cs.len(), MAX_CANDIDATES);
    assert_eq!(cs.len(), 10);
    assert_eq!(cs[9].id, 109);
}

#[test]
fn candidates_may_be_empty() {
    let cs = extract_candidates("{\"versions\":[]}").unwrap();
    assert_eq!(cs.len(), 0);
}

#[test]
fn candidate_shape_failures_are_parse_errors() {
    assert_eq!(extract_candidates("nonsense").unwrap_err(), PipelineError::ParseError);
    assert_eq!(extract_candidates("{}").unwrap_err(), PipelineError::ParseError);
    // An entry without a numeric identifier cannot be committed later.
    let body = "{\"versions\":[{\"title\":\"x\"}]}";
    assert_eq!(extract_candidates(body).unwrap_err(), PipelineError::ParseError);
}

#[test]
fn non_string_fields_shown_as_scalar_text() {
    let body = "{\"versions\":[{\"released\":2019,\"country\":true,\"format\":[\"Vinyl\"],\"id\":5}]}";
    let cs = extract_candidates(body).unwrap();
    assert_eq!(cs[0].released, "2019");
    assert_eq!(cs[0].country, "true");
    assert_eq!(cs[0].format, "[...]");
    assert_eq!(cs[0].title, "null");
}

#[test]
fn candidate_line_lists_the_shown_fields() {
    let c = CatalogCandidate {
        title: String::from("Abbey Road"),
        country: String::from("US"),
        released: String::from("2019"),
        format: String::from("Vinyl"),
        id: 123,
    };
    assert_eq!(candidate_line(&c), "Abbey Road US 2019 Vinyl");
}

fn some_candidates(n: u64) -> Vec<CatalogCandidate> {
    extract_candidates(&versions_body(n)).unwrap()
}

#[test]
fn disambiguation_needs_candidates() {
    let none: Vec<CatalogCandidate> = Vec::new();
    assert_eq!(disambiguate(&none, "0"), Err(PipelineError::EmptyCandidatesError));
}

#[test]
fn disambiguation_selects_by_index() {
    let cs = some_candidates(3);
    assert_eq!(disambiguate(&cs, "0"), Ok(Selection { index: 0, release_id: 100 }));
    assert_eq!(disambiguate(&cs, " 2\n"), Ok(Selection { index: 2, release_id: 102 }));
}

#[test]
fn disambiguation_rejects_bad_input() {
    let cs = some_candidates(3);
    assert_eq!(disambiguate(&cs, "3"), Err(PipelineError::InputError));
    assert_eq!(disambiguate(&cs, "-1"), Err(PipelineError::InputError));
    assert_eq!(disambiguate(&cs, "first"), Err(PipelineError::InputError));
    assert_eq!(disambiguate(&cs, ""), Err(PipelineError::InputError));
    assert_eq!(disambiguate(&cs, "99999999999999999999999999"), Err(PipelineError::InputError));
}

#[test]
fn entry_extracted_from_write_response() {
    let body = "{\"basic_information\":{\"artists\":[{\"name\":\"The Beatles\"}],\"title\":\"Abbey Road\",\"formats\":[{\"name\":\"Vinyl\"}]}}";
    let e = extract_entry(body).unwrap();
    assert_eq!(e.artist, "The Beatles");
    assert_eq!(e.title, "Abbey Road");
    assert_eq!(e.format, "Vinyl");
}

#[test]
fn entry_shape_failures_are_parse_errors() {
    assert_eq!(extract_entry("{}").unwrap_err(), PipelineError::ParseError);
    let no_artist = "{\"basic_information\":{\"artists\":[],\"title\":\"x\",\"formats\":[{\"name\":\"y\"}]}}";
    assert_eq!(extract_entry(no_artist).unwrap_err(), PipelineError::ParseError);
}

#[test]
fn entry_report_names_the_created_entry() {
    let e = CollectionEntry {
        artist: String::from("The Beatles"),
        title: String::from("Abbey Road"),
        format: String::from("Vinyl"),
    };
    assert_eq!(entry_report(&e), "created The Beatles — Abbey Road (Vinyl)");
}

#[test]
fn error_descriptions_are_distinct() {
    let all = [
        PipelineError::IOError,
        PipelineError::DecodeError,
        PipelineError::AuthError,
        PipelineError::NetworkError,
        PipelineError::ParseError,
        PipelineError::EmptyCandidatesError,
        PipelineError::InputError,
    ];
    for (i, a) in all.iter().enumerate() {
        assert!(!a.describe().is_empty());
        for (j, b) in all.iter().enumerate() {
            if i != j {
                assert_ne!(a.describe(), b.describe());
            }
        }
    }
}
