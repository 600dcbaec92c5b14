use vstd::prelude::*;

verus! {

/// `tag` stands in `line` starting at position `i`.
pub open spec fn occurs_at(line: Seq<char>, tag: Seq<char>, i: int) -> bool {
    0 <= i && i + tag.len() <= line.len() && line.subrange(i, i + tag.len()) == tag
}

/// `tag` is a contiguous run of `line` (the empty tag is in every line).
pub open spec fn has_substring(line: Seq<char>, tag: Seq<char>) -> bool {
    exists|i: int| occurs_at(line, tag, i)
}

/// Some line of `source` holds `tag` as a substring.
pub open spec fn source_has_tag(source: Seq<Seq<char>>, tag: Seq<char>) -> bool {
    exists|j: int| 0 <= j < source.len() && #[trigger] has_substring(source[j], tag)
}

/// The character view of each line.
pub open spec fn lines_view(lines: Seq<String>) -> Seq<Seq<char>> {
    lines.map_values(|l: String| l@)
}

/// Relies on `str::contains` with a `&str` pattern: true exactly when the
/// pattern matches a sub-slice of the string.
#[verifier::external_body]
fn line_contains(line: &String, tag: &String) -> (r: bool)
    ensures
        r == has_substring(line@, tag@),
{
    line.contains(tag.as_str())
}

/// Whether any line of `source` contains `tag` (exact, case-sensitive match).
pub fn tag_in_source(source: &Vec<String>, tag: &String) -> (r: bool)
    ensures
        r == source_has_tag(lines_view(source@), tag@),
{
    let mut j: usize = 0;
    while j < source.len()
        invariant
            j <= source@.len(),
            forall|k: int| 0 <= k < j ==> !has_substring(#[trigger] source@[k]@, tag@),
        decreases source@.len() - j,
    {
        if line_contains(&source[j], tag) {
            assert(has_substring(lines_view(source@)[j as int], tag@));
            return true;
        }
        j += 1;
    }
    assert forall|k: int| 0 <= k < source@.len() implies !#[trigger] has_substring(
        lines_view(source@)[k],
        tag@,
    ) by {
        assert(lines_view(source@)[k] == source@[k]@);
    }
    false
}

} // verus!
