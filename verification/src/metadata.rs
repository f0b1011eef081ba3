//! What is known of a video once it has been downloaded.

use vstd::prelude::*;
use vstd::string::StringExecFns;
use crate::chapters::{is_space, is_space_char, skip_spaces};
use crate::text::{
    chars_of, index_of, lemma_index_of_absent, lemma_index_of_bounds, lemma_index_of_found, split,
    string_of,
};

verus! {

/// Title, description, file and length of a downloaded video.
#[derive(Debug)]
pub struct VideoMetadata {
    pub title: String,
    pub description: String,
    pub local_file_path: String,
    pub duration_seconds: u32,
}

/// Why a download yielded no video.
#[derive(Clone, Copy, Debug, PartialEq, Eq, Structural)]
pub enum DownloadError {
    /// The downloader ended abnormally.
    DownloaderFailed,
    /// The downloader left no file of the expected format.
    OutputMissing,
    /// The address led to a playlist, not to a single video.
    NotSingleVideo,
}

/// What the downloader reported of the item behind an address.
#[derive(Debug)]
pub enum Downloaded {
    Single { title: Option<String>, description: Option<String>, duration: Option<u64> },
    Playlist,
}

/// Where the text ends once trailing white space is left off.
pub open spec fn trim_end(s: Seq<char>) -> int
    decreases s.len(),
{
    if s.len() > 0 && is_space(s.last()) {
        trim_end(s.drop_last())
    } else {
        s.len() as int
    }
}

/// The text without leading and trailing white space.
pub open spec fn trimmed(s: Seq<char>) -> Seq<char> {
    let kept = s.subrange(0, trim_end(s));
    kept.subrange(skip_spaces(kept, 0), kept.len() as int)
}

/// The separator written between the two parts of a title.
pub open spec fn title_separator() -> Seq<char> {
    seq![' ', '|', ' ']
}

/// The title of an episode: a raw title with a `|` keeps its first two
/// `|`-separated parts, trimmed and joined by ` | `; any other is kept as it
/// is.
pub open spec fn title_of(raw: Seq<char>) -> Seq<char> {
    let parts = split(raw, '|');
    if parts.len() >= 2 {
        trimmed(parts[0]) + title_separator() + trimmed(parts[1])
    } else {
        raw
    }
}

/// The length of a video in whole seconds, from the number that the
/// downloader reported: its low 32 bits, and 0 without a number.
pub open spec fn duration_of(reported: Option<u64>) -> u32 {
    match reported {
        Some(d) => (d % 0x1_0000_0000) as u32,
        None => 0,
    }
}

/// Whether a file name has the extension `mp4`: it ends in `.mp4` and has
/// something before that.
pub open spec fn is_mp4_name(name: Seq<char>) -> bool {
    name.len() > 4 && name.subrange(name.len() - 4, name.len() as int) == seq!['.', 'm', 'p', '4']
}

/// The text or, where there is none, the fallback.
pub open spec fn text_or(text: Option<String>, fallback: Seq<char>) -> Seq<char> {
    match text {
        Some(s) => s@,
        None => fallback,
    }
}

/// `trim_end` stops after the last character that is no white space.
proof fn lemma_trim_end(s: Seq<char>, k: int)
    requires
        0 <= k <= s.len(),
        forall|j: int| k <= j < s.len() ==> is_space(s[j]),
        k > 0 ==> !is_space(s[k - 1]),
    ensures
        trim_end(s) == k,
    decreases s.len() - k,
{
    if k < s.len() {
        assert(is_space(s.last()));
        lemma_trim_end(s.drop_last(), k);
    }
}

/// `skip_spaces` stops at the first character that is no white space.
proof fn lemma_skip_spaces(s: Seq<char>, from: int, k: int)
    requires
        0 <= from <= k <= s.len(),
        forall|j: int| from <= j < k ==> is_space(s[j]),
        k < s.len() ==> !is_space(s[k]),
    ensures
        skip_spaces(s, from) == k,
    decreases k - from,
{
    if from < k {
        lemma_skip_spaces(s, from + 1, k);
    }
}

/// The bounds of `chars[from..to]` without the white space around it.
fn trim_bounds(chars: &Vec<char>, from: usize, to: usize) -> (out: (usize, usize))
    requires
        from <= to <= chars@.len(),
    ensures
        from <= out.0 <= out.1 <= to,
        chars@.subrange(out.0 as int, out.1 as int) == trimmed(
            chars@.subrange(from as int, to as int),
        ),
{
    let ghost s = chars@.subrange(from as int, to as int);
    let mut e: usize = to;
    while e > from && is_space_char(chars[e - 1])
        invariant
            from <= e <= to <= chars@.len(),
            forall|j: int| e <= j < to ==> is_space(chars@[j]),
        decreases e,
    {
        e = e - 1;
    }
    let mut b: usize = from;
    while b < e && is_space_char(chars[b])
        invariant
            from <= b <= e <= to <= chars@.len(),
            forall|j: int| from <= j < b ==> is_space(chars@[j]),
        decreases e - b,
    {
        b = b + 1;
    }
    proof {
        lemma_trim_end(s, e - from);
        let kept = s.subrange(0, e - from);
        lemma_skip_spaces(kept, 0, b - from);
        assert(kept.subrange(b - from, kept.len() as int) == chars@.subrange(b as int, e as int));
    }
    (b, e)
}

/// The position of the first `sep` at or after `from`, or the length.
fn find_char(chars: &Vec<char>, from: usize, sep: char) -> (at: usize)
    requires
        from <= chars@.len(),
    ensures
        from <= at <= chars@.len(),
        at - from == index_of(chars@.subrange(from as int, chars@.len() as int), sep),
{
    let mut i: usize = from;
    while i < chars.len() && chars[i] != sep
        invariant
            from <= i <= chars@.len(),
            forall|j: int| from <= j < i ==> chars@[j] != sep,
        decreases chars@.len() - i,
    {
        i = i + 1;
    }
    proof {
        let rest = chars@.subrange(from as int, chars@.len() as int);
        if i < chars.len() {
            lemma_index_of_found(rest, sep, i - from);
        } else {
            lemma_index_of_absent(rest, sep);
        }
    }
    i
}

/// The title of an episode, from the raw title of its video.
pub fn normalize_title(raw: &str) -> (out: String)
    ensures
        out@ == title_of(raw@),
{
    let chars = chars_of(raw);
    let n = chars.len();
    let first = find_char(&chars, 0, '|');
    assert(chars@.subrange(0, n as int) == chars@);
    if first >= n {
        let out = string_of(&chars, 0, n);
        return out;
    }
    let second = find_char(&chars, first + 1, '|');
    proof {
        let rest = chars@.subrange(first + 1, n as int);
        assert(chars@.subrange(0, first as int) == split(chars@, '|')[0]);
        lemma_index_of_bounds(rest, '|');
        if second < n {
            assert(split(rest, '|')[0] == rest.subrange(0, second - first - 1));
        } else {
            assert(split(rest, '|')[0] == rest);
        }
        assert(split(chars@, '|')[1] == split(rest, '|')[0]);
        assert(rest.subrange(0, second - first - 1) == chars@.subrange(
            first + 1,
            second as int,
        ));
    }
    let (b0, e0) = trim_bounds(&chars, 0, first);
    let (b1, e1) = trim_bounds(&chars, first + 1, second);
    let mut out = string_of(&chars, b0, e0);
    out.push(' ');
    out.push('|');
    out.push(' ');
    let tail = string_of(&chars, b1, e1);
    out.append(tail.as_str());
    assert(out@ == trimmed(split(chars@, '|')[0]) + title_separator() + trimmed(
        split(chars@, '|')[1],
    ));
    out
}

/// Whether a file name has the extension `mp4`.
pub fn has_mp4_extension(name: &str) -> (out: bool)
    ensures
        out == is_mp4_name(name@),
{
    let chars = chars_of(name);
    let n = chars.len();
    if n <= 4 {
        return false;
    }
    let out = chars[n - 4] == '.' && chars[n - 3] == 'm' && chars[n - 2] == 'p' && chars[n - 1]
        == '4';
    proof {
        let tail = chars@.subrange(n - 4, n as int);
        assert(tail[0] == chars@[n - 4] && tail[1] == chars@[n - 3] && tail[2] == chars@[n - 2]
            && tail[3] == chars@[n - 1]);
        if out {
            assert(tail =~= seq!['.', 'm', 'p', '4']);
        }
    }
    out
}

/// The first of the file names that has the extension `mp4`.
pub fn first_mp4(names: &Vec<String>) -> (out: Option<usize>)
    ensures
        match out {
            Some(i) => i < names@.len() && is_mp4_name(names@[i as int]@) && forall|j: int|
                0 <= j < i ==> !is_mp4_name(#[trigger] names@[j]@),
            None => forall|j: int| 0 <= j < names@.len() ==> !is_mp4_name(#[trigger] names@[j]@),
        },
{
    let mut i: usize = 0;
    while i < names.len()
        invariant
            i <= names@.len(),
            forall|j: int| 0 <= j < i ==> !is_mp4_name(#[trigger] names@[j]@),
        decreases names@.len() - i,
    {
        if has_mp4_extension(names[i].as_str()) {
            return Some(i);
        }
        i = i + 1;
    }
    None
}

/// The length of a video in whole seconds.
pub fn duration_seconds(reported: Option<u64>) -> (out: u32)
    ensures
        out == duration_of(reported),
{
    match reported {
        Some(d) => (d % 0x1_0000_0000) as u32,
        None => 0,
    }
}

/// The address of a video.
pub fn video_url(video_id: &str) -> (out: String)
    ensures
        out@ == "https://www.youtube.com/watch?v="@ + video_id@,
{
    String::from_str("https://www.youtube.com/watch?v=").concat(video_id)
}

/// The metadata of a downloaded video, or the reason why there is none.
///
/// `downloader_ok` says whether the downloader ended normally, `files` are
/// the names in the download directory when it ended, `item` is what it
/// reported, and `local_file_path` is where the video is kept.
pub fn fetch_metadata(
    downloader_ok: bool,
    files: &Vec<String>,
    item: Downloaded,
    local_file_path: String,
) -> (out: Result<VideoMetadata, DownloadError>)
    ensures
        !downloader_ok ==> out == Err::<VideoMetadata, DownloadError>(
            DownloadError::DownloaderFailed,
        ),
        downloader_ok && (forall|j: int| 0 <= j < files@.len() ==> !is_mp4_name(#[trigger] files@[j]@))
            ==> out == Err::<VideoMetadata, DownloadError>(DownloadError::OutputMissing),
        downloader_ok && (exists|j: int| 0 <= j < files@.len() && is_mp4_name(#[trigger] files@[j]@))
            ==> match item {
            Downloaded::Playlist => out == Err::<VideoMetadata, DownloadError>(
                DownloadError::NotSingleVideo,
            ),
            Downloaded::Single { title, description, duration } => out is Ok && out->Ok_0.title@
                == title_of(text_or(title, "Untitled"@)) && out->Ok_0.description@ == text_or(
                description,
                Seq::empty(),
            ) && out->Ok_0.local_file_path@ == local_file_path@ && out->Ok_0.duration_seconds
                == duration_of(duration),
        },
{
    if !downloader_ok {
        return Err(DownloadError::DownloaderFailed);
    }
    if first_mp4(files).is_none() {
        return Err(DownloadError::OutputMissing);
    }
    match item {
        Downloaded::Playlist => Err(DownloadError::NotSingleVideo),
        Downloaded::Single { title, description, duration } => {
            let title = match title {
                Some(t) => normalize_title(t.as_str()),
                None => normalize_title("Untitled"),
            };
            let description = match description {
                Some(d) => d,
                None => String::new(),
            };
            Ok(
                VideoMetadata {
                    title,
                    description,
                    local_file_path,
                    duration_seconds: duration_seconds(duration),
                },
            )
        },
    }
}

} // verus!
