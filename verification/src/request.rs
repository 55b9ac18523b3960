//! Construction of the texts the pipeline sends outward: the recognition
//! request body, the catalog and collection URLs, and the request headers.
//! Each builder's contract gives the produced text exactly.

use vstd::prelude::*;
use vstd::string::StringExecFns;

verus! {

/// The endpoint that answers recognition requests.
pub fn recognition_endpoint() -> (r: &'static str)
    ensures
        r@ == "https://vision.googleapis.com/v1/images:annotate"@,
{
    "https://vision.googleapis.com/v1/images:annotate"
}

/// The JSON request text asking for a single best-guess web detection of one
/// inline encoded image.
pub open spec fn image_payload_text(img: Seq<char>) -> Seq<char> {
    "{\"requests\":[{\"image\":{\"content\":\""@ + img
        + "\"},\"features\":[{\"type\":\"WEB_DETECTION\",\"maxResults\":1}]}]}"@
}

/// Builds the recognition request body around one encoded image.
pub fn image_payload(encoded_image: &str) -> (r: String)
    ensures
        r@ == image_payload_text(encoded_image@),
{
    let head = "{\"requests\":[{\"image\":{\"content\":\"".to_owned();
    let with_image = head.concat(encoded_image);
    with_image.concat("\"},\"features\":[{\"type\":\"WEB_DETECTION\",\"maxResults\":1}]}]}")
}

/// The catalog search URL for a free-text label and an access token.
pub open spec fn search_url_text(label: Seq<char>, token: Seq<char>) -> Seq<char> {
    "https://api.discogs.com/database/search?q="@ + label + "&token="@ + token
}

/// Builds the catalog search URL.
pub fn search_url(label: &str, token: &str) -> (r: String)
    ensures
        r@ == search_url_text(label@, token@),
{
    let head = "https://api.discogs.com/database/search?q=".to_owned();
    let with_label = head.concat(label);
    let with_sep = with_label.concat("&token=");
    with_sep.concat(token)
}

/// The catalog versions URL for a master grouping: concrete distributable
/// versions, filtered to the preferred physical format, most recent first.
pub open spec fn versions_url_text(master_id: Seq<char>, token: Seq<char>) -> Seq<char> {
    "https://api.discogs.com/masters/"@ + master_id
        + "/versions?format=Vinyl&sort=released&sort_order=desc&country=US&token="@ + token
}

/// Builds the catalog versions URL for a master grouping.
pub fn versions_url(master_id: &str, token: &str) -> (r: String)
    ensures
        r@ == versions_url_text(master_id@, token@),
{
    let head = "https://api.discogs.com/masters/".to_owned();
    let with_id = head.concat(master_id);
    let with_query = with_id.concat(
        "/versions?format=Vinyl&sort=released&sort_order=desc&country=US&token=",
    );
    with_query.concat(token)
}

/// The collection write URL: adds one release to the operator's folder.
pub open spec fn collection_url_text(user: Seq<char>, release_id: Seq<char>, token: Seq<char>) -> Seq<
    char,
> {
    "https://api.discogs.com/users/"@ + user + "/collection/folders/1/releases/"@ + release_id
        + "?token="@ + token
}

/// Builds the collection write URL.
pub fn collection_url(user: &str, release_id: &str, token: &str) -> (r: String)
    ensures
        r@ == collection_url_text(user@, release_id@, token@),
{
    let head = "https://api.discogs.com/users/".to_owned();
    let with_user = head.concat(user);
    let with_folder = with_user.concat("/collection/folders/1/releases/");
    let with_id = with_folder.concat(release_id);
    let with_sep = with_id.concat("?token=");
    with_sep.concat(token)
}

/// The user-agent header value sent with catalog requests.
pub open spec fn user_agent_text(user: Seq<char>) -> Seq<char> {
    "AlbumTracker/"@ + user
}

/// Builds the user-agent header value.
pub fn user_agent(user: &str) -> (r: String)
    ensures
        r@ == user_agent_text(user@),
{
    let head = "AlbumTracker/".to_owned();
    head.concat(user)
}

/// The authorization header value carrying a bearer token.
pub open spec fn bearer_text(token: Seq<char>) -> Seq<char> {
    "Bearer "@ + token
}

/// Builds the authorization header value.
pub fn bearer_header(token: &str) -> (r: String)
    ensures
        r@ == bearer_text(token@),
{
    let head = "Bearer ".to_owned();
    head.concat(token)
}

} // verus!
