//! Choosing the sermon segment among the chapters of a video.

use vstd::prelude::*;
use crate::chapters::{
    Chapter, ChapterView, chapters_in, chapters_of, is_chapter_line, marks, parse_chapters,
};
use crate::text::{chars_of, split};

verus! {

/// The word that marks the sermon chapter.
pub open spec fn sermon_word() -> Seq<char> {
    seq!['s', 'e', 'r', 'm', 'o', 'n']
}

/// Whether `needle` occurs in `hay` as a contiguous run.
pub open spec fn occurs_in(hay: Seq<char>, needle: Seq<char>) -> bool {
    exists|i: int| occurs_at(hay, needle, i)
}

/// Whether `needle` stands in `hay` at position `i`.
pub open spec fn occurs_at(hay: Seq<char>, needle: Seq<char>, i: int) -> bool {
    0 <= i && i + needle.len() <= hay.len() && hay.subrange(i, i + needle.len()) == needle
}

/// Whether a label names the sermon.
pub open spec fn is_sermon(label: Seq<char>) -> bool {
    occurs_in(label, sermon_word())
}

/// Chapter `i` plays before chapter `j`: it starts earlier, or at the same
/// second and stands earlier in the text.
pub open spec fn plays_before(chapters: Seq<ChapterView>, i: int, j: int) -> bool {
    chapters[i].start < chapters[j].start || (chapters[i].start == chapters[j].start && i < j)
}

/// Chapter `k` is the sermon: the sermon-labelled chapter that plays before
/// every other sermon-labelled one.
pub open spec fn is_sermon_chapter(chapters: Seq<ChapterView>, k: int) -> bool {
    &&& 0 <= k < chapters.len()
    &&& is_sermon(chapters[k].label)
    &&& forall|j: int|
        0 <= j < chapters.len() && j != k && is_sermon(#[trigger] chapters[j].label)
            ==> plays_before(chapters, k, j)
}

/// Chapter `n` is the one that plays next after chapter `k`.
pub open spec fn plays_next(chapters: Seq<ChapterView>, k: int, n: int) -> bool {
    &&& 0 <= n < chapters.len()
    &&& plays_before(chapters, k, n)
    &&& forall|j: int|
        0 <= j < chapters.len() && j != n && #[trigger] plays_before(chapters, k, j)
            ==> plays_before(chapters, n, j)
}

/// Where the segment that begins with chapter `k` ends: at the start of the
/// chapter that plays next, or at the end of the video after the last one.
pub open spec fn segment_end(chapters: Seq<ChapterView>, k: int, video_end: u32) -> u32 {
    if exists|n: int| plays_next(chapters, k, n) {
        chapters[choose|n: int| plays_next(chapters, k, n)].start
    } else {
        video_end
    }
}

/// The sermon segment of a video with the given chapters: the whole video
/// without chapters, nothing when no chapter names the sermon, and otherwise
/// from the sermon chapter to whatever plays next.
pub open spec fn segment_of(chapters: Seq<ChapterView>, video_end: u32) -> Option<(u32, u32)> {
    if chapters.len() == 0 {
        Some((0u32, video_end))
    } else if exists|k: int| is_sermon_chapter(chapters, k) {
        let k = choose|k: int| is_sermon_chapter(chapters, k);
        Some((chapters[k].start, segment_end(chapters, k, video_end)))
    } else {
        None
    }
}

/// At most one chapter is the sermon.
pub proof fn lemma_sermon_chapter_unique(chapters: Seq<ChapterView>, a: int, b: int)
    requires
        is_sermon_chapter(chapters, a),
        is_sermon_chapter(chapters, b),
    ensures
        a == b,
{
}

/// At most one chapter plays next after a given one.
pub proof fn lemma_plays_next_unique(chapters: Seq<ChapterView>, k: int, a: int, b: int)
    requires
        plays_next(chapters, k, a),
        plays_next(chapters, k, b),
    ensures
        a == b,
{
}

/// The segment of a video whose sermon chapter is `k` and whose next chapter
/// is `next` (or none).
pub proof fn lemma_segment_at(
    chapters: Seq<ChapterView>,
    video_end: u32,
    k: int,
    next: Option<int>,
)
    requires
        is_sermon_chapter(chapters, k),
        match next {
            Some(n) => plays_next(chapters, k, n),
            None => forall|j: int| 0 <= j < chapters.len() ==> !plays_before(chapters, k, j),
        },
    ensures
        segment_of(chapters, video_end) == Some(
            (
                chapters[k].start,
                match next {
                    Some(n) => chapters[n].start,
                    None => video_end,
                },
            ),
        ),
{
    let k2 = choose|k: int| is_sermon_chapter(chapters, k);
    lemma_sermon_chapter_unique(chapters, k, k2);
    match next {
        Some(n) => {
            let n2 = choose|n: int| plays_next(chapters, k, n);
            lemma_plays_next_unique(chapters, k, n, n2);
        },
        None => {
            assert forall|n: int| !plays_next(chapters, k, n) by {}
        },
    }
}

/// Among the first `n` chapters, one of which names the sermon, the one that
/// plays first.
proof fn lemma_first_sermon_among(chapters: Seq<ChapterView>, n: int) -> (k: int)
    requires
        0 <= n <= chapters.len(),
        exists|j: int| 0 <= j < n && is_sermon(#[trigger] chapters[j].label),
    ensures
        0 <= k < n,
        is_sermon(chapters[k].label),
        forall|j: int|
            0 <= j < n && j != k && is_sermon(#[trigger] chapters[j].label) ==> plays_before(
                chapters,
                k,
                j,
            ),
    decreases n,
{
    if exists|j: int| 0 <= j < n - 1 && is_sermon(#[trigger] chapters[j].label) {
        let k = lemma_first_sermon_among(chapters, n - 1);
        if is_sermon(chapters[n - 1].label) && chapters[n - 1].start < chapters[k].start {
            n - 1
        } else {
            k
        }
    } else {
        n - 1
    }
}

/// Among the first `n` chapters, one of which plays after chapter `k`, the
/// one that plays next.
proof fn lemma_next_among(chapters: Seq<ChapterView>, k: int, n: int) -> (m: int)
    requires
        0 <= n <= chapters.len(),
        exists|j: int| 0 <= j < n && #[trigger] plays_before(chapters, k, j),
    ensures
        0 <= m < n,
        plays_before(chapters, k, m),
        forall|j: int|
            0 <= j < n && j != m && #[trigger] plays_before(chapters, k, j) ==> plays_before(
                chapters,
                m,
                j,
            ),
    decreases n,
{
    if exists|j: int| 0 <= j < n - 1 && #[trigger] plays_before(chapters, k, j) {
        let m = lemma_next_among(chapters, k, n - 1);
        if plays_before(chapters, k, n - 1) && chapters[n - 1].start < chapters[m].start {
            n - 1
        } else {
            m
        }
    } else {
        n - 1
    }
}

/// Lines without a chapter line mark no chapters.
proof fn lemma_no_chapter_lines(lines: Seq<Seq<char>>)
    requires
        forall|i: int| 0 <= i < lines.len() ==> !is_chapter_line(#[trigger] lines[i]),
    ensures
        chapters_in(lines).len() == 0,
    decreases lines.len(),
{
    if lines.len() > 0 {
        assert(!is_chapter_line(lines[lines.len() - 1]));
        lemma_no_chapter_lines(lines.drop_last());
    }
}

/// A description in which no line is a chapter line gives the whole video,
/// whatever its length.
pub proof fn lemma_without_chapters_whole_video(description: Seq<char>, video_end: u32)
    requires
        forall|i: int|
            0 <= i < split(description, '\n').len() ==> !is_chapter_line(
                #[trigger] split(description, '\n')[i],
            ),
    ensures
        segment_of(chapters_of(description), video_end) == Some((0u32, video_end)),
{
    lemma_no_chapter_lines(split(description, '\n'));
}

/// With exactly one chapter that names the sermon, the segment starts where
/// that chapter starts and ends where the chapter that plays next starts, or
/// at the end of the video when none plays after it. The position of the
/// chapters in the text plays no part in this.
pub proof fn lemma_single_sermon_segment(chapters: Seq<ChapterView>, video_end: u32, k: int)
    requires
        0 <= k < chapters.len(),
        is_sermon(chapters[k].label),
        forall|j: int|
            0 <= j < chapters.len() && j != k ==> !is_sermon(#[trigger] chapters[j].label),
    ensures
        segment_of(chapters, video_end) == Some(
            (chapters[k].start, segment_end(chapters, k, video_end)),
        ),
        forall|n: int|
            plays_next(chapters, k, n) ==> segment_end(chapters, k, video_end)
                == chapters[n].start,
        (forall|j: int| 0 <= j < chapters.len() ==> !plays_before(chapters, k, j))
            ==> segment_end(chapters, k, video_end) == video_end,
        (exists|j: int| 0 <= j < chapters.len() && plays_before(chapters, k, j)) ==> exists|
            n: int,
        |
            plays_next(chapters, k, n),
{
    assert(is_sermon_chapter(chapters, k));
    let k2 = choose|k: int| is_sermon_chapter(chapters, k);
    lemma_sermon_chapter_unique(chapters, k, k2);
    assert forall|n: int| plays_next(chapters, k, n) implies segment_end(chapters, k, video_end)
        == chapters[n].start by {
        lemma_plays_next_unique(chapters, k, n, choose|n: int| plays_next(chapters, k, n));
    }
    if exists|j: int| 0 <= j < chapters.len() && plays_before(chapters, k, j) {
        let m = lemma_next_among(chapters, k, chapters.len() as int);
        assert(plays_next(chapters, k, m));
    }
}

/// Chapters without a sermon among them, but at least one chapter, give no
/// segment.
pub proof fn lemma_without_sermon_no_segment(chapters: Seq<ChapterView>, video_end: u32)
    requires
        chapters.len() > 0,
        forall|j: int| 0 <= j < chapters.len() ==> !is_sermon(#[trigger] chapters[j].label),
    ensures
        segment_of(chapters, video_end) is None,
{
}

/// A segment is found exactly when there is no chapter at all or some
/// chapter names the sermon.
pub proof fn lemma_segment_found_iff(chapters: Seq<ChapterView>, video_end: u32)
    ensures
        segment_of(chapters, video_end) is Some <==> (chapters.len() == 0 || exists|j: int|
            0 <= j < chapters.len() && is_sermon(#[trigger] chapters[j].label)),
{
    if exists|j: int| 0 <= j < chapters.len() && is_sermon(#[trigger] chapters[j].label) {
        let k = lemma_first_sermon_among(chapters, chapters.len() as int);
        assert(is_sermon_chapter(chapters, k));
    }
}

/// The chapters stand in the text in the order of their starts.
pub open spec fn sorted_by_start(chapters: Seq<ChapterView>) -> bool {
    forall|i: int, j: int|
        0 <= i <= j < chapters.len() ==> chapters[i].start <= chapters[j].start
}

/// Among chapters that stand in the order of their starts, the sermon is
/// the first chapter that names it, and the segment ends where the chapter
/// right after it starts, or at the end of the video after the last one.
pub proof fn lemma_segment_of_sorted(chapters: Seq<ChapterView>, video_end: u32, k: int)
    requires
        sorted_by_start(chapters),
        0 <= k < chapters.len(),
        is_sermon(chapters[k].label),
        forall|j: int| 0 <= j < k ==> !is_sermon(#[trigger] chapters[j].label),
    ensures
        segment_of(chapters, video_end) == Some(
            (
                chapters[k].start,
                if k + 1 < chapters.len() {
                    chapters[k + 1].start
                } else {
                    video_end
                },
            ),
        ),
{
    assert(is_sermon_chapter(chapters, k));
    if k + 1 < chapters.len() {
        assert(plays_next(chapters, k, k + 1));
        lemma_segment_at(chapters, video_end, k, Some(k + 1));
    } else {
        lemma_segment_at(chapters, video_end, k, None);
    }
}

/// Every chapter of `a` is a chapter of `b`.
pub open spec fn each_found_in(a: Seq<ChapterView>, b: Seq<ChapterView>) -> bool {
    forall|i: int| 0 <= i < a.len() ==> exists|j: int| 0 <= j < b.len() && b[j] == #[trigger] a[i]
}

/// No two chapters start at the same second.
pub open spec fn distinct_starts(chapters: Seq<ChapterView>) -> bool {
    forall|i: int, j: int|
        0 <= i < chapters.len() && 0 <= j < chapters.len() && i != j ==> chapters[i].start
            != chapters[j].start
}

/// One direction of [`lemma_segment_ignores_order`].
proof fn lemma_segment_carries_over(a: Seq<ChapterView>, b: Seq<ChapterView>, video_end: u32)
    requires
        distinct_starts(a),
        distinct_starts(b),
        each_found_in(a, b),
        each_found_in(b, a),
        a.len() > 0,
        exists|j: int| 0 <= j < a.len() && is_sermon(#[trigger] a[j].label),
    ensures
        segment_of(a, video_end) == segment_of(b, video_end),
{
    let k = lemma_first_sermon_among(a, a.len() as int);
    assert(is_sermon_chapter(a, k));
    let kb = choose|j: int| 0 <= j < b.len() && b[j] == a[k];
    assert forall|j: int|
        0 <= j < b.len() && j != kb && is_sermon(#[trigger] b[j].label) implies plays_before(
        b,
        kb,
        j,
    ) by {
        let ja = choose|i: int| 0 <= i < a.len() && a[i] == b[j];
        assert(is_sermon(a[ja].label));
        assert(plays_before(a, k, ja));
    }
    assert(is_sermon_chapter(b, kb));
    if exists|j: int| 0 <= j < a.len() && plays_before(a, k, j) {
        let n = lemma_next_among(a, k, a.len() as int);
        assert(plays_next(a, k, n));
        let nb = choose|j: int| 0 <= j < b.len() && b[j] == a[n];
        assert forall|j: int|
            0 <= j < b.len() && j != nb && #[trigger] plays_before(b, kb, j) implies plays_before(
            b,
            nb,
            j,
        ) by {
            let ja = choose|i: int| 0 <= i < a.len() && a[i] == b[j];
            assert(plays_before(a, k, ja));
            assert(plays_before(a, n, ja));
        }
        assert(plays_next(b, kb, nb));
        lemma_segment_at(a, video_end, k, Some(n));
        lemma_segment_at(b, video_end, kb, Some(nb));
    } else {
        assert forall|j: int| 0 <= j < b.len() implies !plays_before(b, kb, j) by {
            let ja = choose|i: int| 0 <= i < a.len() && a[i] == b[j];
            assert(!plays_before(a, k, ja));
        }
        lemma_segment_at(a, video_end, k, None);
        lemma_segment_at(b, video_end, kb, None);
    }
}

/// The order in which chapters stand in the text does not matter: two lists
/// of the same chapters, no two of which start at the same second, give the
/// same segment.
pub proof fn lemma_segment_ignores_order(
    a: Seq<ChapterView>,
    b: Seq<ChapterView>,
    video_end: u32,
)
    requires
        distinct_starts(a),
        distinct_starts(b),
        each_found_in(a, b),
        each_found_in(b, a),
    ensures
        segment_of(a, video_end) == segment_of(b, video_end),
{
    if a.len() == 0 {
        if b.len() > 0 {
            let i = choose|i: int| 0 <= i < a.len() && a[i] == b[0];
        }
    } else if exists|j: int| 0 <= j < a.len() && is_sermon(#[trigger] a[j].label) {
        lemma_segment_carries_over(a, b, video_end);
    } else {
        let i = choose|i: int| 0 <= i < b.len() && b[i] == a[0];
        assert forall|j: int| 0 <= j < b.len() implies !is_sermon(#[trigger] b[j].label) by {
            let ja = choose|i: int| 0 <= i < a.len() && a[i] == b[j];
            assert(!is_sermon(a[ja].label));
        }
    }
}

/// Whether `needle` occurs in `hay`.
pub fn contains_chars(hay: &Vec<char>, needle: &Vec<char>) -> (out: bool)
    ensures
        out == occurs_in(hay@, needle@),
{
    let n = hay.len();
    let m = needle.len();
    if m > n {
        assert forall|i: int| !occurs_at(hay@, needle@, i) by {}
        return false;
    }
    let mut i: usize = 0;
    while i <= n - m
        invariant
            m <= n,
            n == hay@.len(),
            m == needle@.len(),
            i <= n - m + 1,
            forall|p: int| 0 <= p < i ==> !occurs_at(hay@, needle@, p),
        decreases n - m + 1 - i,
    {
        let mut j: usize = 0;
        while j < m && hay[i + j] == needle[j]
            invariant
                m <= n,
                n == hay@.len(),
                m == needle@.len(),
                i <= n - m,
                j <= m,
                forall|q: int| 0 <= q < j ==> hay@[i + q] == needle@[q],
            decreases m - j,
        {
            j = j + 1;
        }
        if j == m {
            assert(hay@.subrange(i as int, i + m) =~= needle@);
            assert(occurs_at(hay@, needle@, i as int));
            return true;
        }
        assert(!occurs_at(hay@, needle@, i as int)) by {
            if occurs_at(hay@, needle@, i as int) {
                assert(hay@.subrange(i as int, i + m)[j as int] == needle@[j as int]);
            }
        }
        i = i + 1;
    }
    assert forall|p: int| !occurs_at(hay@, needle@, p) by {}
    false
}

/// Whether a chapter label names the sermon.
pub fn names_sermon(label: &str) -> (out: bool)
    ensures
        out == is_sermon(label@),
{
    let hay = chars_of(label);
    let needle: Vec<char> = vec!['s', 'e', 'r', 'm', 'o', 'n'];
    assert(needle@ =~= sermon_word());
    contains_chars(&hay, &needle)
}

/// The sermon segment among `chapters`, for a video that ends at
/// `video_end`. The chapters may come in any order.
pub fn select_segment(chapters: &Vec<Chapter>, video_end: u32) -> (out: Option<(u32, u32)>)
    ensures
        out == segment_of(marks(chapters@), video_end),
{
    let ghost chs = marks(chapters@);
    let n = chapters.len();
    if n == 0 {
        return Some((0, video_end));
    }
    let mut lead: Option<usize> = None;
    let mut i: usize = 0;
    while i < n
        invariant
            i <= n,
            n == chapters@.len(),
            chs == marks(chapters@),
            match lead {
                Some(k) => k < i && is_sermon(chs[k as int].label) && forall|j: int|
                    0 <= j < i && j != k && is_sermon(#[trigger] chs[j].label) ==> plays_before(
                        chs,
                        k as int,
                        j,
                    ),
                None => forall|j: int| 0 <= j < i ==> !is_sermon(#[trigger] chs[j].label),
            },
        decreases n - i,
    {
        assert(chs[i as int] == chapters@[i as int]@);
        if names_sermon(chapters[i].label.as_str()) {
            match lead {
                Some(k) => {
                    assert(chs[k as int] == chapters@[k as int]@);
                    if chapters[i].start < chapters[k].start {
                        lead = Some(i);
                    }
                },
                None => {
                    lead = Some(i);
                },
            }
        }
        i = i + 1;
    }
    let k = match lead {
        Some(k) => k,
        None => {
            assert forall|k: int| !is_sermon_chapter(chs, k) by {}
            return None;
        },
    };
    assert(is_sermon_chapter(chs, k as int));
    assert(chs[k as int] == chapters@[k as int]@);
    let start = chapters[k].start;
    let mut next: Option<usize> = None;
    let mut i: usize = 0;
    while i < n
        invariant
            i <= n,
            k < n,
            n == chapters@.len(),
            chs == marks(chapters@),
            start == chs[k as int].start,
            match next {
                Some(m) => m < i && plays_before(chs, k as int, m as int) && forall|j: int|
                    0 <= j < i && j != m && #[trigger] plays_before(chs, k as int, j)
                        ==> plays_before(chs, m as int, j),
                None => forall|j: int| 0 <= j < i ==> !plays_before(chs, k as int, j),
            },
        decreases n - i,
    {
        assert(chs[i as int] == chapters@[i as int]@);
        let s = chapters[i].start;
        if s > start || (s == start && i > k) {
            match next {
                Some(m) => {
                    assert(chs[m as int] == chapters@[m as int]@);
                    if s < chapters[m].start {
                        next = Some(i);
                    }
                },
                None => {
                    next = Some(i);
                },
            }
        }
        i = i + 1;
    }
    match next {
        Some(m) => {
            assert(chs[m as int] == chapters@[m as int]@);
            proof {
                lemma_segment_at(chs, video_end, k as int, Some(m as int));
            }
            Some((start, chapters[m].start))
        },
        None => {
            proof {
                lemma_segment_at(chs, video_end, k as int, None);
            }
            Some((start, video_end))
        },
    }
}

/// The sermon segment of a video, from its description and its length in
/// seconds: `(start, end)`.
///
/// A description without chapter lines gives the whole video. With chapter
/// lines, the segment runs from the sermon chapter to the chapter that plays
/// next, or to the end of the video; without a sermon chapter there is no
/// segment.
pub fn extract_sermon_chapter(description: &str, video_end: u32) -> (out: Option<(u32, u32)>)
    ensures
        out == segment_of(chapters_of(description@), video_end),
{
    let chapters = parse_chapters(description);
    select_segment(&chapters, video_end)
}

} // verus!
