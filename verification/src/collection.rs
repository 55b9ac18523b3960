//! The confirmed result of a collection write: the entry's descriptive
//! metadata extracted from the service's response, and the report shown to
//! the operator. A parse failure here is reported but rolls nothing back:
//! the remote write has already happened.

use vstd::prelude::*;
use crate::errors::PipelineError;
use crate::jsonpath::get_element;
use crate::jsonpath::get_member;
use crate::jsonpath::get_string;
use crate::jsonpath::json_of;
use crate::jsonpath::opt_element;
use crate::jsonpath::opt_member;
use crate::jsonpath::opt_string;
use crate::jsonpath::parse_json;
use crate::jsonpath::JsonValue;
use vstd::string::StringExecFns;

verus! {

/// What the remote collection now durably contains.
#[derive(Debug)]
pub struct CollectionEntry {
    pub artist: String,
    pub title: String,
    pub format: String,
}

/// The `basic_information` object of a write response text, if present.
pub open spec fn info_value(text: Seq<char>) -> Option<JsonValue> {
    opt_member(json_of(text), "basic_information"@)
}

/// The string at `basic_information.artists[0].name`, if that whole shape is
/// present.
pub open spec fn artist_value(text: Seq<char>) -> Option<Seq<char>> {
    opt_string(opt_member(opt_element(opt_member(info_value(text), "artists"@), 0), "name"@))
}

/// The string at `basic_information.title`, if present.
pub open spec fn title_value(text: Seq<char>) -> Option<Seq<char>> {
    opt_string(opt_member(info_value(text), "title"@))
}

/// The string at `basic_information.formats[0].name`, if that whole shape is
/// present.
pub open spec fn format_value(text: Seq<char>) -> Option<Seq<char>> {
    opt_string(opt_member(opt_element(opt_member(info_value(text), "formats"@), 0), "name"@))
}

/// Extracts the created entry's metadata from a collection write response:
/// exactly the strings at `basic_information.artists[0].name`,
/// `basic_information.title` and `basic_information.formats[0].name`. It
/// succeeds if and only if all three are present; every failure is a parse
/// failure.
pub fn extract_entry(response: &str) -> (r: Result<CollectionEntry, PipelineError>)
    ensures
        r is Ok <==> (artist_value(response@) is Some && title_value(response@) is Some
            && format_value(response@) is Some),
        r matches Ok(entry) ==> artist_value(response@) == Some(entry.artist@) && title_value(
            response@,
        ) == Some(entry.title@) && format_value(response@) == Some(entry.format@),
        r matches Err(e) ==> e == PipelineError::ParseError,
{
    let doc = match parse_json(response) {
        Some(d) => d,
        None => {
            return Err(PipelineError::ParseError);
        },
    };
    let info = match get_member(&doc, "basic_information") {
        Some(v) => v,
        None => {
            return Err(PipelineError::ParseError);
        },
    };
    let artists = match get_member(info, "artists") {
        Some(v) => v,
        None => {
            return Err(PipelineError::ParseError);
        },
    };
    let first_artist = match get_element(artists, 0) {
        Some(v) => v,
        None => {
            return Err(PipelineError::ParseError);
        },
    };
    let artist_node = match get_member(first_artist, "name") {
        Some(v) => v,
        None => {
            return Err(PipelineError::ParseError);
        },
    };
    let artist = match get_string(artist_node) {
        Some(s) => s,
        None => {
            return Err(PipelineError::ParseError);
        },
    };
    let title_node = match get_member(info, "title") {
        Some(v) => v,
        None => {
            return Err(PipelineError::ParseError);
        },
    };
    let title = match get_string(title_node) {
        Some(s) => s,
        None => {
            return Err(PipelineError::ParseError);
        },
    };
    let formats = match get_member(info, "formats") {
        Some(v) => v,
        None => {
            return Err(PipelineError::ParseError);
        },
    };
    let first_format = match get_element(formats, 0) {
        Some(v) => v,
        None => {
            return Err(PipelineError::ParseError);
        },
    };
    let format_node = match get_member(first_format, "name") {
        Some(v) => v,
        None => {
            return Err(PipelineError::ParseError);
        },
    };
    let format = match get_string(format_node) {
        Some(s) => s,
        None => {
            return Err(PipelineError::ParseError);
        },
    };
    Ok(CollectionEntry { artist, title, format })
}

/// The confirmation text for a written entry.
pub open spec fn entry_report_text(artist: Seq<char>, title: Seq<char>, format: Seq<char>) -> Seq<
    char,
> {
    "created "@ + artist + " — "@ + title + " ("@ + format + ")"@
}

/// Builds the confirmation text reporting what was actually created.
pub fn entry_report(e: &CollectionEntry) -> (r: String)
    ensures
        r@ == entry_report_text(e.artist@, e.title@, e.format@),
{
    let line = "created ".to_owned();
    let line = line.concat(e.artist.as_str());
    let line = line.concat(" — ");
    let line = line.concat(e.title.as_str());
    let line = line.concat(" (");
    let line = line.concat(e.format.as_str());
    line.concat(")")
}

} // verus!
