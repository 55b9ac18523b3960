//! Extraction of the best-guess label from a recognition response. A
//! response that parses but lacks the expected label shape is surfaced as a
//! parse failure, distinct from a transport failure: the operator must be
//! able to tell "service answered but had nothing to say" from "service
//! unreachable".

use vstd::prelude::*;
use crate::errors::PipelineError;
use crate::jsonpath::get_element;
use crate::jsonpath::get_member;
use crate::jsonpath::get_string;
use crate::jsonpath::json_of;
use crate::jsonpath::opt_element;
use crate::jsonpath::opt_member;
use crate::jsonpath::opt_string;
use crate::jsonpath::parse_json;
use vstd::string::StrSliceExecFns;

verus! {

/// The string at `responses[0].webDetection.bestGuessLabels[0].label` of a
/// response text, if the text parses and that whole shape is present.
pub open spec fn label_value(text: Seq<char>) -> Option<Seq<char>> {
    opt_string(
        opt_member(
            opt_element(
                opt_member(
                    opt_member(opt_element(opt_member(json_of(text), "responses"@), 0), "webDetection"@),
                    "bestGuessLabels"@,
                ),
                0,
            ),
            "label"@,
        ),
    )
}

/// Extracts the first best-guess label from a recognition response body:
/// exactly the non-empty string at
/// `responses[0].webDetection.bestGuessLabels[0].label`. A body that does
/// not parse, lacks any piece of that shape, or holds an empty label fails,
/// and every such failure is a parse failure.
pub fn extract_label(response: &str) -> (r: Result<String, PipelineError>)
    ensures
        r is Ok <==> (label_value(response@) matches Some(l) && l.len() > 0),
        r matches Ok(label) ==> label_value(response@) == Some(label@) && label@.len() > 0,
        r matches Err(e) ==> e == PipelineError::ParseError,
{
    let doc = match parse_json(response) {
        Some(d) => d,
        None => {
            return Err(PipelineError::ParseError);
        },
    };
    let responses = match get_member(&doc, "responses") {
        Some(v) => v,
        None => {
            return Err(PipelineError::ParseError);
        },
    };
    let first = match get_element(responses, 0) {
        Some(v) => v,
        None => {
            return Err(PipelineError::ParseError);
        },
    };
    let detection = match get_member(first, "webDetection") {
        Some(v) => v,
        None => {
            return Err(PipelineError::ParseError);
        },
    };
    let labels = match get_member(detection, "bestGuessLabels") {
        Some(v) => v,
        None => {
            return Err(PipelineError::ParseError);
        },
    };
    let best = match get_element(labels, 0) {
        Some(v) => v,
        None => {
            return Err(PipelineError::ParseError);
        },
    };
    let label_node = match get_member(best, "label") {
        Some(v) => v,
        None => {
            return Err(PipelineError::ParseError);
        },
    };
    let label = match get_string(label_node) {
        Some(s) => s,
        None => {
            return Err(PipelineError::ParseError);
        },
    };
    if label.as_str().unicode_len() == 0 {
        return Err(PipelineError::ParseError);
    }
    Ok(label)
}

} // verus!
