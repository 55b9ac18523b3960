use album_tracker::catalog::disambiguate;
use album_tracker::catalog::CatalogCandidate;
use album_tracker::catalog::Selection;
use album_tracker::collection::entry_report;
use album_tracker::collection::extract_entry;
use album_tracker::errors::PipelineError;
use album_tracker::marker::is_processed;
use album_tracker::marker::processed_name;
use album_tracker::orchestrator::next_action;
use album_tracker::orchestrator::step;
use album_tracker::orchestrator::Action;
use album_tracker::orchestrator::Event;
use album_tracker::orchestrator::Outcome;
use album_tracker::orchestrator::Stage;
use album_tracker::prepare::encode_image_bytes;
use album_tracker::prepare::fit_dimensions;
use album_tracker::prepare::recognition_request;
use album_tracker::recognize::extract_label;
use album_tracker::request::bearer_header;
use album_tracker::request::collection_url;
use album_tracker::request::image_payload;
use album_tracker::request::recognition_endpoint;
use album_tracker::request::search_url;
use album_tracker::request::user_agent;
use album_tracker::request::versions_url;

#[test]
fn marker_recognized_only_as_suffix() {
    assert!(is_processed("shelf/a.jpg_PROCESSED"));
    assert!(is_processed("PROCESSED"));
    assert!(!is_processed("shelf/a.jpg"));
    assert!(!is_processed("PROCESSED_no"));
    assert!(!is_processed("short"));
    assert!(!is_processed(""));
}

#[test]
fn marked_names_are_skipped_next_run() {
    let renamed = processed_name("shelf/a.jpg");
    assert_eq!(renamed, "shelf/a.jpg_PROCESSED");
    assert!(is_processed(&renamed));
    assert!(is_processed(&processed_name("")));
}

#[test]
fn fit_keeps_small_images() {
    assert_eq!(fit_dimensions(800, 600), (800, 600));
    assert_eq!(fit_dimensions(1024, 1024), (1024, 1024));
    assert_eq!(fit_dimensions(1, 1), (1, 1));
}

#[test]
fn fit_bounds_both_axes() {
    assert_eq!(fit_dimensions(2048, 1024), (1024, 512));
    assert_eq!(fit_dimensions(1024, 2048), (512, 1024));
    assert_eq!(fit_dimensions(4000, 1000), (1024, 256));
    let (w, h) = fit_dimensions(3000000, 2000);
    assert!(w <= 1024 && h <= 1024 && w >= 1 && h >= 1);
    // An extreme ratio still never collapses a dimension to zero.
    assert_eq!(fit_dimensions(4000000, 2000).1, 1);
}

#[test]
fn encoding_is_standard_padded() {
    assert_eq!(encode_image_bytes(&vec![1, 2, 3]), "AQID");
    assert_eq!(encode_image_bytes(&vec![0]), "AA==");
    assert_eq!(encode_image_bytes(&vec![255, 255]), "//8=");
    assert_eq!(encode_image_bytes(&Vec::new()), "");
    let blob = vec![7u8; 100];
    assert_eq!(encode_image_bytes(&blob).len(), 4 * ((100 + 2) / 3));
}

#[test]
fn payload_inlines_the_encoded_image() {
    assert_eq!(
        image_payload("AQID"),
        "{\"requests\":[{\"image\":{\"content\":\"AQID\"},\"features\":[{\"type\":\"WEB_DETECTION\",\"maxResults\":1}]}]}"
    );
    assert_eq!(recognition_request(&vec![1, 2, 3]), image_payload("AQID"));
}

#[test]
fn request_texts_are_exact() {
    assert_eq!(
        recognition_endpoint(),
        "https://vision.googleapis.com/v1/images:annotate"
    );
    assert_eq!(
        search_url("Abbey Road", "tok"),
        "https://api.discogs.com/database/search?q=Abbey Road&token=tok"
    );
    assert_eq!(
        versions_url("45526", "tok"),
        "https://api.discogs.com/masters/45526/versions?format=Vinyl&sort=released&sort_order=desc&country=US&token=tok"
    );
    assert_eq!(
        collection_url("ringo", "123", "tok"),
        "https://api.discogs.com/users/ringo/collection/folders/1/releases/123?token=tok"
    );
    assert_eq!(user_agent("ringo"), "AlbumTracker/ringo");
    assert_eq!(bearer_header("tok"), "Bearer tok");
}

#[test]
fn marked_file_is_skipped_before_preparing() {
    let s = step(Stage::Pending, Event::Found { marked: true });
    assert_eq!(s, Stage::Skipped);
    assert_eq!(next_action(s), Action::Stop);
    // Whatever arrives later, a skipped file stays skipped.
    let s = step(s, Event::Finished(Outcome::Success));
    assert_eq!(s, Stage::Skipped);
}

#[test]
fn stages_run_in_fixed_order() {
    let ok = Event::Finished(Outcome::Success);
    let mut s = Stage::Pending;
    assert_eq!(next_action(s), Action::Examine);
    s = step(s, Event::Found { marked: false });
    assert_eq!((s, next_action(s)), (Stage::Preparing, Action::Prepare));
    s = step(s, ok);
    assert_eq!((s, next_action(s)), (Stage::CheckingAuth, Action::ObtainToken));
    s = step(s, ok);
    assert_eq!((s, next_action(s)), (Stage::Recognizing, Action::Recognize));
    s = step(s, ok);
    assert_eq!((s, next_action(s)), (Stage::Searching, Action::Search));
    s = step(s, ok);
    assert_eq!((s, next_action(s)), (Stage::Disambiguating, Action::Prompt));
    s = step(s, ok);
    assert_eq!((s, next_action(s)), (Stage::Writing, Action::Commit));
    s = step(s, ok);
    assert_eq!((s, next_action(s)), (Stage::Marking, Action::Mark));
    s = step(s, ok);
    assert_eq!((s, next_action(s)), (Stage::Processed, Action::Stop));
}

#[test]
fn any_stage_failure_ends_the_run() {
    let s = step(Stage::Preparing, Event::Finished(Outcome::Failure(PipelineError::DecodeError)));
    assert_eq!(s, Stage::Failed(PipelineError::DecodeError));
    assert_eq!(next_action(s), Action::Stop);
    let s = step(Stage::Recognizing, Event::Finished(Outcome::Failure(PipelineError::NetworkError)));
    assert_eq!(s, Stage::Failed(PipelineError::NetworkError));
    let s = step(Stage::Marking, Event::Finished(Outcome::Failure(PipelineError::IOError)));
    assert_eq!(s, Stage::Failed(PipelineError::IOError));
}

#[test]
fn missing_credentials_fail_before_any_network_stage() {
    let mut s = Stage::Pending;
    s = step(s, Event::Found { marked: false });
    s = step(s, Event::Finished(Outcome::Success));
    assert_eq!(s, Stage::CheckingAuth);
    // The runner performed no network action so far: Examine, Prepare and
    // ObtainToken are all local.
    s = step(s, Event::Finished(Outcome::Failure(PipelineError::AuthError)));
    assert_eq!(s, Stage::Failed(PipelineError::AuthError));
    assert_eq!(next_action(s), Action::Stop);
    // The file is never marked: the run is over before Marking.
    let s = step(s, Event::Finished(Outcome::Success));
    assert_eq!(s, Stage::Failed(PipelineError::AuthError));
}

#[test]
fn empty_search_fails_distinctly_and_marks_nothing() {
    let ok = Event::Finished(Outcome::Success);
    let mut s = Stage::Pending;
    s = step(s, Event::Found { marked: false });
    s = step(s, ok);
    s = step(s, ok);
    s = step(s, ok);
    s = step(s, ok);
    assert_eq!(s, Stage::Disambiguating);
    let none: Vec<CatalogCandidate> = Vec::new();
    let err = disambiguate(&none, "0").unwrap_err();
    assert_eq!(err, PipelineError::EmptyCandidatesError);
    s = step(s, Event::Finished(Outcome::Failure(err)));
    assert_eq!(s, Stage::Failed(PipelineError::EmptyCandidatesError));
    // No later event moves the run on, so the marker is never applied.
    let s = step(s, ok);
    assert_eq!(s, Stage::Failed(PipelineError::EmptyCandidatesError));
    assert_eq!(next_action(s), Action::Stop);
}

#[test]
fn one_image_end_to_end() {
    let ok = Event::Finished(Outcome::Success);
    let mut s = Stage::Pending;

    // One unprocessed image is found.
    assert!(!is_processed("shelf/one.jpg"));
    s = step(s, Event::Found { marked: false });
    assert_eq!(s, Stage::Preparing);
    s = step(s, ok);
    s = step(s, ok);

    // The recognition stub answers with the label "Abbey Road".
    assert_eq!(s, Stage::Recognizing);
    let label = extract_label(
        "{\"responses\":[{\"webDetection\":{\"bestGuessLabels\":[{\"label\":\"Abbey Road\"}]}}]}",
    )
    .unwrap();
    assert_eq!(label, "Abbey Road");
    s = step(s, ok);

    // The search stub returns one candidate: Abbey Road, id 123.
    assert_eq!(s, Stage::Searching);
    let candidates = vec![CatalogCandidate {
        title: String::from("Abbey Road"),
        country: String::from("US"),
        released: String::from("2019"),
        format: String::from("Vinyl"),
        id: 123,
    }];
    s = step(s, ok);

    // The operator answers 0.
    assert_eq!(s, Stage::Disambiguating);
    let sel = disambiguate(&candidates, "0\n").unwrap();
    assert_eq!(sel, Selection { index: 0, release_id: 123 });
    s = step(s, ok);

    // The write stub confirms the created entry.
    assert_eq!(s, Stage::Writing);
    let entry = extract_entry(
        "{\"basic_information\":{\"artists\":[{\"name\":\"The Beatles\"}],\"title\":\"Abbey Road\",\"formats\":[{\"name\":\"Vinyl\"}]}}",
    )
    .unwrap();
    assert_eq!(entry_report(&entry), "created The Beatles — Abbey Road (Vinyl)");
    s = step(s, ok);

    // The file gains the processed marker and the run completes.
    assert_eq!(s, Stage::Marking);
    let renamed = processed_name("shelf/one.jpg");
    assert!(is_processed(&renamed));
    s = step(s, ok);
    assert_eq!(s, Stage::Processed);
    assert_eq!(next_action(s), Action::Stop);
}
