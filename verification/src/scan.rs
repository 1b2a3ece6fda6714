//! Scan resolution: from the text that a reader took from a code to the
//! identifier of a record.

use crate::json::{json_string_member, string_member};
use crate::text::{blank, lemma_blank_iff_trimmed_empty, lemma_segments_are_plain};
use crate::text::{opt_text, path_segments, segments, texts, trim, trimmed};
use vstd::prelude::*;

verus! {

/// The path of the absolute URL that `input` is, percent-encoded; `None`
/// where `input` is no absolute URL.
pub uninterp spec fn url_path(input: Seq<char>) -> Option<Seq<char>>;

/// `url::Url::parse`, then `Url::path`: the path depends on the text
/// alone, and there is none where the text does not parse.
#[verifier::external_body]
fn parse_url_path(input: &str) -> (r: Option<String>)
    ensures
        opt_text(r) == url_path(input@),
{
    let url = url::Url::parse(input).ok()?;
    Some(url.path().to_string())
}

/// The segment that follows the first segment `p` at or after the place
/// `from` that has a segment after it; `None` where there is no such `p`.
pub open spec fn after_marker(segs: Seq<Seq<char>>, from: int) -> Option<Seq<char>>
    decreases segs.len() - from,
{
    if from < 0 || from + 1 >= segs.len() {
        None
    } else if segs[from] == "p"@ {
        Some(segs[from + 1])
    } else {
        after_marker(segs, from + 1)
    }
}

/// The identifier that a URL path names: the segment that follows the
/// first segment `p` that has one after it, or else the last segment;
/// `None` for a path without segments.
pub open spec fn id_in_path(path: Seq<char>) -> Option<Seq<char>> {
    let segs = segments(path, '/');
    if after_marker(segs, 0) is Some {
        after_marker(segs, 0)
    } else if segs.len() > 0 {
        Some(segs.last())
    } else {
        None
    }
}

/// The identifier that a scanned text names, given the path it has as a
/// URL and the string it holds as member `id` of a JSON object: the one
/// that the path names; or else that member; or else the trimmed text,
/// unless nothing is left of it.
pub open spec fn resolved(
    path: Option<Seq<char>>,
    json_id: Option<Seq<char>>,
    input: Seq<char>,
) -> Option<Seq<char>> {
    if path is Some && id_in_path(path->0) is Some {
        id_in_path(path->0)
    } else if json_id is Some {
        json_id
    } else if trimmed(input).len() > 0 {
        Some(trimmed(input))
    } else {
        None
    }
}

/// The identifier that a scanned text names.
pub open spec fn scanned_id(input: Seq<char>) -> Option<Seq<char>> {
    resolved(url_path(input), json_string_member(input, "id"@), input)
}

/// The identifier that a URL path names.
pub fn id_from_path(path: &str) -> (r: Option<String>)
    ensures
        opt_text(r) == id_in_path(path@),
{
    let segs = path_segments(path);
    let ghost all = texts(segs@);
    let marker = "p".to_owned();
    let n = segs.len();
    let mut i: usize = 0;
    while n - i > 1
        invariant
            i <= n,
            n == segs@.len(),
            all == texts(segs@),
            all == segments(path@, '/'),
            marker@ == "p"@,
            after_marker(all, 0) == after_marker(all, i as int),
        decreases segs@.len() - i,
    {
        proof {
            assert(all[i as int] == segs@[i as int]@);
            assert(all[i + 1] == segs@[i + 1]@);
        }
        if segs[i] == marker {
            return Some(segs[i + 1].clone());
        }
        i = i + 1;
    }
    if segs.len() > 0 {
        proof {
            assert(all.last() == segs@[segs@.len() - 1]@);
        }
        Some(segs[segs.len() - 1].clone())
    } else {
        None
    }
}

/// The identifier that a scanned text names, given what the text is as a
/// URL and as JSON.
pub fn resolve_scanned(path: Option<String>, json_id: Option<String>, input: &str) -> (r: Option<
    String,
>)
    ensures
        opt_text(r) == resolved(opt_text(path), opt_text(json_id), input@),
        r is None ==> trimmed(input@).len() == 0,
{
    if let Some(p) = path {
        if let Some(id) = id_from_path(p.as_str()) {
            return Some(id);
        }
    }
    if let Some(id) = json_id {
        return Some(id);
    }
    let bare = trim(input);
    if bare.as_str().is_empty() {
        None
    } else {
        Some(bare)
    }
}

/// The identifier that a scanned text names: a URL is tried first, then a
/// JSON object with a member `id`, then the bare text. Nothing is found
/// only where the text is blank.
pub fn extract_id_from_scanned_text(input: &str) -> (r: Option<String>)
    ensures
        opt_text(r) == scanned_id(input@),
        r is None ==> trimmed(input@).len() == 0,
{
    resolve_scanned(parse_url_path(input), string_member(input, "id"), input)
}

/// What follows a segment `p` is a segment of the list.
proof fn lemma_after_marker_is_a_segment(segs: Seq<Seq<char>>, from: int)
    requires
        0 <= from,
    ensures
        after_marker(segs, from) matches Some(id) ==> exists|k: int|
            from < k < segs.len() && #[trigger] segs[k] == id,
    decreases segs.len() - from,
{
    if from + 1 < segs.len() {
        if segs[from] == "p"@ {
            assert(segs[from + 1] == after_marker(segs, from)->0);
        } else {
            lemma_after_marker_is_a_segment(segs, from + 1);
        }
    }
}

/// The segments before the place `k` that are no `p` are passed over.
proof fn lemma_after_marker_skips(segs: Seq<Seq<char>>, from: int, k: int)
    requires
        0 <= from <= k,
        forall|j: int| from <= j < k ==> #[trigger] segs[j] != "p"@,
    ensures
        after_marker(segs, from) == after_marker(segs, k),
    decreases k - from,
{
    if from < k {
        assert(segs[from] != "p"@);
        lemma_after_marker_skips(segs, from + 1, k);
    }
}

/// The identifier that a path names is one of its segments: it is not
/// empty and holds no slash, and there is one whenever the path has a
/// segment.
pub proof fn lemma_path_id_is_a_segment(path: Seq<char>)
    ensures
        id_in_path(path) matches Some(id) ==> id.len() > 0 && !id.contains('/'),
        id_in_path(path) is None <==> segments(path, '/').len() == 0,
{
    lemma_segments_are_plain(path, '/');
    let segs = segments(path, '/');
    lemma_after_marker_is_a_segment(segs, 0);
    if segs.len() > 0 {
        assert(segs[segs.len() - 1].len() > 0);
    }
}

/// Where the first segment `p` of a path stands at the place `k` and has
/// a segment after it, the path names that segment, wherever in the path
/// the `p` stands.
pub proof fn lemma_path_id_follows_p(path: Seq<char>, k: int)
    requires
        0 <= k,
        k + 1 < segments(path, '/').len(),
        segments(path, '/')[k] == "p"@,
        forall|j: int| 0 <= j < k ==> #[trigger] segments(path, '/')[j] != "p"@,
    ensures
        id_in_path(path) == Some(segments(path, '/')[k + 1]),
{
    lemma_after_marker_skips(segments(path, '/'), 0, k);
}

/// Where no segment `p` of a path has a segment after it, the path names
/// its last segment.
pub proof fn lemma_path_id_is_last(path: Seq<char>)
    requires
        segments(path, '/').len() > 0,
        forall|j: int|
            0 <= j && j + 1 < segments(path, '/').len() ==> #[trigger] segments(path, '/')[j]
                != "p"@,
    ensures
        id_in_path(path) == Some(segments(path, '/').last()),
{
    let segs = segments(path, '/');
    lemma_after_marker_skips(segs, 0, segs.len() - 1);
}

/// Nothing is found only in a blank text: whatever a text is as a URL and
/// as JSON, a text that holds more than white space names an identifier.
pub proof fn lemma_unresolved_only_if_blank(
    path: Option<Seq<char>>,
    json_id: Option<Seq<char>>,
    input: Seq<char>,
)
    ensures
        resolved(path, json_id, input) is None ==> blank(input),
        resolved(path, json_id, input) is None <==> {
            &&& path matches Some(p) ==> id_in_path(p) is None
            &&& json_id is None
            &&& blank(input)
        },
{
    lemma_blank_iff_trimmed_empty(input);
}

} // verus!
