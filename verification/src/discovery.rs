//! Finding the newest video on a playlist page.

use vstd::prelude::*;
use vstd::string::StringExecFns;
use crate::text::texts;

verus! {

/// What a regular expression captures as its first group: nothing when the
/// pattern does not compile; otherwise one entry for each of the successive
/// matches of the pattern in the text, which do not overlap. An entry holds
/// the text of the first group, or nothing when the pattern has no such
/// group or the group took no part in the match.
pub uninterp spec fn first_groups(pattern: Seq<char>, text: Seq<char>) -> Option<
    Seq<Option<Seq<char>>>,
>;

/// The views of captured texts.
pub open spec fn captured(found: Seq<Option<String>>) -> Seq<Option<Seq<char>>> {
    Seq::new(
        found.len(),
        |i: int|
            match found[i] {
                Some(s) => Some(s@),
                None => None,
            },
    )
}

/// `regex::Regex::new` compiles the pattern and `Regex::captures_iter` walks
/// its matches in the text; `Captures::get(1)` is the first group of a
/// match. The result is what [`first_groups`] names: it depends on the
/// pattern and the text alone.
#[verifier::external_body]
fn capture_first_groups(pattern: &str, text: &str) -> (out: Option<Vec<Option<String>>>)
    ensures
        match out {
            Some(found) => first_groups(pattern@, text@) == Some(captured(found@)),
            None => first_groups(pattern@, text@) is None,
        },
{
    match regex::Regex::new(pattern) {
        Ok(re) => Some(
            re.captures_iter(text).map(|c| c.get(1).map(|m| m.as_str().to_string())).collect(),
        ),
        Err(_) => None,
    }
}

/// The groups that took part, in order.
pub open spec fn present(found: Seq<Option<Seq<char>>>) -> Seq<Seq<char>>
    decreases found.len(),
{
    if found.len() == 0 {
        Seq::empty()
    } else {
        match found.last() {
            Some(s) => present(found.drop_last()).push(s),
            None => present(found.drop_last()),
        }
    }
}

/// The video identifiers that a capture result holds.
pub open spec fn ids_among(found: Option<Seq<Option<Seq<char>>>>) -> Seq<Seq<char>> {
    match found {
        Some(groups) => present(groups),
        None => Seq::empty(),
    }
}

/// The pattern of a video identifier in a playlist page: the key `videoId`
/// and, as the first group, its quoted value.
pub open spec fn video_id_pattern() -> Seq<char> {
    "\"videoId\":\"([^\"]+)\""@
}

/// The captured texts that are present, in order.
pub fn collect_present(found: Vec<Option<String>>) -> (out: Vec<String>)
    ensures
        texts(out@) == present(captured(found@)),
{
    let ghost all = captured(found@);
    let mut out: Vec<String> = Vec::new();
    let mut i: usize = 0;
    assert(texts(out@) == present(all.subrange(0, 0)));
    while i < found.len()
        invariant
            i <= found@.len(),
            all == captured(found@),
            texts(out@) == present(all.subrange(0, i as int)),
        decreases found@.len() - i,
    {
        let ghost before = out@;
        proof {
            let next = all.subrange(0, i + 1);
            assert(next.drop_last() == all.subrange(0, i as int));
            assert(next.last() == all[i as int]);
        }
        match &found[i] {
            Some(s) => {
                out.push(s.clone());
                assert(texts(out@) == texts(before).push(s@));
            },
            None => {},
        }
        i = i + 1;
    }
    assert(all.subrange(0, i as int) == all);
    out
}

/// The video identifiers on a playlist page, in the order of the page.
pub fn video_ids(body: &str) -> (out: Vec<String>)
    ensures
        texts(out@) == ids_among(first_groups(video_id_pattern(), body@)),
{
    match capture_first_groups("\"videoId\":\"([^\"]+)\"", body) {
        Some(found) => collect_present(found),
        None => {
            let out: Vec<String> = Vec::new();
            assert(texts(out@) == Seq::<Seq<char>>::empty());
            out
        },
    }
}

/// The newest of the identifiers of a playlist page: the one that comes
/// last.
pub fn latest_video_id(ids: &Vec<String>) -> (out: Option<String>)
    ensures
        ids@.len() == 0 ==> out is None,
        ids@.len() > 0 ==> out is Some && out->0@ == ids@.last()@,
{
    if ids.len() == 0 {
        None
    } else {
        Some(ids[ids.len() - 1].clone())
    }
}

/// The address of the page of a playlist.
pub fn playlist_url(playlist_id: &str) -> (out: String)
    ensures
        out@ == "https://www.youtube.com/playlist?list="@ + playlist_id@,
{
    String::from_str("https://www.youtube.com/playlist?list=").concat(playlist_id)
}

} // verus!
