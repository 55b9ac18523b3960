//! The processed marker: a durable, file-level signal that an image has
//! already been ingested, encoded as a suffix of the file name.

use vstd::prelude::*;

verus! {

/// The suffix that marks a file name as already processed.
pub open spec fn marker_text() -> Seq<char> {
    "PROCESSED"@
}

/// A file name bears the processed marker when it ends in the marker text.
pub open spec fn has_marker(name: Seq<char>) -> bool {
    name.len() >= marker_text().len() && name.subrange(
        name.len() - marker_text().len(),
        name.len() as int,
    ) == marker_text()
}

/// Decides whether a file name already bears the processed marker.
pub fn is_processed(name: &str) -> (r: bool)
    ensures
        r == has_marker(name@),
{
    proof {
        reveal_strlit("PROCESSED");
    }
    let marker = "PROCESSED";
    let n = name.unicode_len();
    if n < 9 {
        return false;
    }
    let mut i: usize = 0;
    while i < 9
        invariant
            i <= 9,
            9 <= n == name@.len(),
            marker@ == marker_text(),
            marker_text().len() == 9,
            forall|j: int| 0 <= j < i ==> name@[n - 9 + j] == marker_text()[j],
        decreases 9 - i,
    {
        if name.get_char(n - 9 + i) != marker.get_char(i) {
            assert(!has_marker(name@)) by {
                assert(name@.subrange(n - 9, n as int)[i as int] != marker_text()[i as int]);
            }
            return false;
        }
        i = i + 1;
    }
    proof {
        assert(name@.subrange(n - 9, n as int) =~= marker_text());
    }
    true
}

/// The file name after a successful run: the original name with the marker
/// appended.
pub open spec fn marked_name(name: Seq<char>) -> Seq<char> {
    name + "_PROCESSED"@
}

/// Appending the marker always yields a name that bears it, whatever the
/// original name: a file this run completes is skipped by every later run.
pub proof fn lemma_marked_name_has_marker(name: Seq<char>)
    ensures
        has_marker(marked_name(name)),
{
    reveal_strlit("_PROCESSED");
    reveal_strlit("PROCESSED");
    let m = marked_name(name);
    assert(m.subrange(m.len() - 9, m.len() as int) =~= marker_text());
}

/// Builds the marked file name applied on success.
pub fn processed_name(name: &str) -> (r: String)
    ensures
        r@ == marked_name(name@),
        has_marker(r@),
{
    proof {
        lemma_marked_name_has_marker(name@);
    }
    let base = name.to_owned();
    base.concat("_PROCESSED")
}

} // verus!
