//! Catalog search results and the disambiguation protocol: the ordered,
//! bounded candidate sequence extracted from a versions response, and the
//! operator's choice among them.

use vstd::prelude::*;
use crate::errors::PipelineError;
use crate::jsonpath::array_items;
use crate::jsonpath::display_field;
use crate::jsonpath::field_display;
use crate::jsonpath::get_array_len;
use crate::jsonpath::get_element;
use crate::jsonpath::get_member;
use crate::jsonpath::get_u64;
use crate::jsonpath::json_of;
use crate::jsonpath::member_of;
use crate::jsonpath::opt_element;
use crate::jsonpath::opt_member;
use crate::jsonpath::opt_u64;
use crate::jsonpath::parse_json;
use crate::jsonpath::JsonValue;
use crate::text::parsed_index;
use crate::text::parse_index;
use vstd::string::StringExecFns;

verus! {

/// At most this many candidates are ever presented for disambiguation.
pub const MAX_CANDIDATES: usize = 10;

/// One catalog release returned by a search, in the external service's
/// ranking order.
#[derive(Debug)]
pub struct CatalogCandidate {
    pub title: String,
    pub country: String,
    pub released: String,
    pub format: String,
    pub id: u64,
}

/// The operator's disambiguation choice: the index picked from the presented
/// list and the release identifier standing there.
#[derive(Clone, Copy, Debug, PartialEq, Eq, Structural)]
pub struct Selection {
    pub index: usize,
    pub release_id: u64,
}

/// The integer at `results[0].master_id` of a search response text, if the
/// text parses and that whole shape is present.
pub open spec fn master_id_value(text: Seq<char>) -> Option<u64> {
    opt_u64(opt_member(opt_element(opt_member(json_of(text), "results"@), 0), "master_id"@))
}

/// Extracts the master grouping identifier from a catalog search response:
/// exactly the integer at `results[0].master_id`. A body that does not parse
/// or lacks any piece of that shape fails, and every failure is a parse
/// failure.
pub fn extract_master_id(response: &str) -> (r: Result<u64, PipelineError>)
    ensures
        r is Ok <==> master_id_value(response@) is Some,
        r matches Ok(id) ==> master_id_value(response@) == Some(id),
        r matches Err(e) ==> e == PipelineError::ParseError,
{
    let doc = match parse_json(response) {
        Some(d) => d,
        None => {
            return Err(PipelineError::ParseError);
        },
    };
    let results = match get_member(&doc, "results") {
        Some(v) => v,
        None => {
            return Err(PipelineError::ParseError);
        },
    };
    let first = match get_element(results, 0) {
        Some(v) => v,
        None => {
            return Err(PipelineError::ParseError);
        },
    };
    let master = match get_member(first, "master_id") {
        Some(v) => v,
        None => {
            return Err(PipelineError::ParseError);
        },
    };
    match get_u64(master) {
        Some(id) => Ok(id),
        None => Err(PipelineError::ParseError),
    }
}

/// The entries of the `versions` array of a versions response text, if the
/// text parses and that member is an array.
pub open spec fn versions_items(text: Seq<char>) -> Option<Seq<JsonValue>> {
    match opt_member(json_of(text), "versions"@) {
        Some(v) => array_items(v),
        None => None,
    }
}

/// How many of `n` available entries are presented: all of them, up to the
/// presentation maximum.
pub open spec fn presented_count(n: int) -> int {
    if n < MAX_CANDIDATES as int {
        n
    } else {
        MAX_CANDIDATES as int
    }
}

/// The release identifier of one versions entry.
pub open spec fn entry_id(item: JsonValue) -> Option<u64> {
    opt_u64(member_of(item, "id"@))
}

/// A built candidate stands for one versions entry exactly: it carries the
/// entry's identifier and the display text of the four shown fields.
pub open spec fn candidate_matches(c: CatalogCandidate, item: JsonValue) -> bool {
    &&& entry_id(item) == Some(c.id)
    &&& c.title@ == field_display(item, "title"@)
    &&& c.country@ == field_display(item, "country"@)
    &&& c.released@ == field_display(item, "released"@)
    &&& c.format@ == field_display(item, "format"@)
}

/// Extracts the ordered candidate sequence from a catalog versions response:
/// exactly the first entries of `versions`, in the service's order, up to
/// the presentation maximum, each carrying its identifier and the display
/// text of its fields. It succeeds if and only if the response has the
/// `versions` array and each presented entry a numeric identifier; every
/// failure is a parse failure.
pub fn extract_candidates(response: &str) -> (r: Result<Vec<CatalogCandidate>, PipelineError>)
    ensures
        versions_items(response@) is None ==> r == Err::<Vec<CatalogCandidate>, PipelineError>(
            PipelineError::ParseError,
        ),
        versions_items(response@) matches Some(items) ==> (r is Ok <==> forall|i: int|
            0 <= i < presented_count(items.len() as int) ==> #[trigger] entry_id(items[i]) is Some),
        versions_items(response@) matches Some(items) ==> (r matches Ok(cs) ==> cs@.len()
            == presented_count(items.len() as int) && forall|i: int|
            0 <= i < cs@.len() ==> #[trigger] candidate_matches(cs@[i], items[i])),
        r matches Ok(cs) ==> cs@.len() <= MAX_CANDIDATES,
        r matches Err(e) ==> e == PipelineError::ParseError,
{
    let doc = match parse_json(response) {
        Some(d) => d,
        None => {
            return Err(PipelineError::ParseError);
        },
    };
    let versions = match get_member(&doc, "versions") {
        Some(v) => v,
        None => {
            return Err(PipelineError::ParseError);
        },
    };
    let available = match get_array_len(versions) {
        Some(n) => n,
        None => {
            return Err(PipelineError::ParseError);
        },
    };
    let ghost items = array_items(*versions).unwrap();
    let count = if available > MAX_CANDIDATES {
        MAX_CANDIDATES
    } else {
        available
    };
    let mut out: Vec<CatalogCandidate> = Vec::new();
    let mut i: usize = 0;
    while i < count
        invariant
            i <= count,
            count <= MAX_CANDIDATES,
            out@.len() == i as nat,
            array_items(*versions) == Some(items),
            versions_items(response@) == Some(items),
            count as int == presented_count(items.len() as int),
            forall|k: int| 0 <= k < i ==> #[trigger] entry_id(items[k]) is Some,
            forall|k: int| 0 <= k < i ==> #[trigger] candidate_matches(out@[k], items[k]),
        decreases count - i,
    {
        let item = match get_element(versions, i) {
            Some(v) => v,
            None => {
                proof {
                    assert(false);
                }
                return Err(PipelineError::ParseError);
            },
        };
        let id_node = match get_member(item, "id") {
            Some(v) => v,
            None => {
                assert(entry_id(items[i as int]) is None);
                return Err(PipelineError::ParseError);
            },
        };
        let id = match get_u64(id_node) {
            Some(u) => u,
            None => {
                assert(entry_id(items[i as int]) is None);
                return Err(PipelineError::ParseError);
            },
        };
        let candidate = CatalogCandidate {
            title: display_field(item, "title"),
            country: display_field(item, "country"),
            released: display_field(item, "released"),
            format: display_field(item, "format"),
            id,
        };
        out.push(candidate);
        i = i + 1;
    }
    Ok(out)
}

/// The display line of one candidate: title, country, release date and
/// format, separated by single spaces.
pub open spec fn candidate_line_text(
    title: Seq<char>,
    country: Seq<char>,
    released: Seq<char>,
    format: Seq<char>,
) -> Seq<char> {
    title + " "@ + country + " "@ + released + " "@ + format
}

/// Builds the display line of one candidate for the numbered list shown to
/// the operator.
pub fn candidate_line(c: &CatalogCandidate) -> (r: String)
    ensures
        r@ == candidate_line_text(c.title@, c.country@, c.released@, c.format@),
{
    let line = c.title.clone();
    let line = line.concat(" ");
    let line = line.concat(c.country.as_str());
    let line = line.concat(" ");
    let line = line.concat(c.released.as_str());
    let line = line.concat(" ");
    line.concat(c.format.as_str())
}

/// Resolves the operator's disambiguation response against the candidate
/// list. A list with nothing to choose from fails distinctly; a response
/// that is not a decimal index inside the list fails as operator input; a
/// valid index selects exactly the candidate standing at it. An explicit
/// choice is always required: no candidate is ever auto-selected.
pub fn disambiguate(candidates: &Vec<CatalogCandidate>, input: &str) -> (r: Result<
    Selection,
    PipelineError,
>)
    ensures
        candidates@.len() == 0 ==> r == Err::<Selection, PipelineError>(
            PipelineError::EmptyCandidatesError,
        ),
        candidates@.len() > 0 ==> match r {
            Ok(sel) => parsed_index(input@) == Some(sel.index as int) && sel.index
                < candidates@.len() && sel.release_id == candidates@[sel.index as int].id,
            Err(e) => e == PipelineError::InputError && (parsed_index(input@) matches Some(v)
                ==> v >= candidates@.len()),
        },
{
    if candidates.len() == 0 {
        return Err(PipelineError::EmptyCandidatesError);
    }
    match parse_index(input) {
        Some(i) => {
            if i < candidates.len() {
                Ok(Selection { index: i, release_id: candidates[i].id })
            } else {
                Err(PipelineError::InputError)
            }
        },
        None => Err(PipelineError::InputError),
    }
}

} // verus!
