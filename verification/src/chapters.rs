//! Chapter markers in a video description.
//!
//! A chapter line is a timestamp at the start of a line, then whitespace,
//! then a title. The label of a chapter is its title in lowercase.

use vstd::prelude::*;
use crate::text::{chars_of, split, split_chars, string_of, views};
use crate::timestamp::{all_digits, is_digit, parse_timestamp, timestamp_seconds};

verus! {

/// One chapter marker: where it starts, in seconds, and its lowercase label.
#[derive(Debug)]
pub struct Chapter {
    pub start: u32,
    pub label: String,
}

/// The mathematical value of a [`Chapter`].
pub struct ChapterView {
    pub start: u32,
    pub label: Seq<char>,
}

impl View for Chapter {
    type V = ChapterView;

    open spec fn view(&self) -> ChapterView {
        ChapterView { start: self.start, label: self.label@ }
    }
}

/// The values of a vector of chapters.
pub open spec fn marks(chapters: Seq<Chapter>) -> Seq<ChapterView> {
    Seq::new(chapters.len(), |i: int| chapters[i]@)
}

/// The lowercase form of a text, as `str::to_lowercase` computes it.
pub uninterp spec fn lowercase_of(text: Seq<char>) -> Seq<char>;

/// `str::to_lowercase`: the lowercase equivalent of the text, by the Unicode
/// `Lowercase` mapping. It depends on the text alone (no locale).
#[verifier::external_body]
fn to_lowercase(text: &str) -> (out: String)
    ensures
        out@ == lowercase_of(text@),
{
    text.to_lowercase()
}

/// Unicode white space (the `White_Space` property).
pub open spec fn is_space(c: char) -> bool {
    let n = c as u32;
    ||| 0x09 <= n <= 0x0d
    ||| n == 0x20
    ||| n == 0x85
    ||| n == 0xa0
    ||| n == 0x1680
    ||| 0x2000 <= n <= 0x200a
    ||| n == 0x2028
    ||| n == 0x2029
    ||| n == 0x202f
    ||| n == 0x205f
    ||| n == 0x3000
}

/// Whether `c` is Unicode white space.
pub fn is_space_char(c: char) -> (out: bool)
    ensures
        out == is_space(c),
{
    let n: u32 = c as u32;
    (0x09 <= n && n <= 0x0d) || n == 0x20 || n == 0x85 || n == 0xa0 || n == 0x1680 || (0x2000 <= n
        && n <= 0x200a) || n == 0x2028 || n == 0x2029 || n == 0x202f || n == 0x205f || n == 0x3000
}

/// The first position at or after `from` that holds no white space, or the
/// length of `s`.
pub open spec fn skip_spaces(s: Seq<char>, from: int) -> int
    decreases s.len() - from,
{
    if 0 <= from < s.len() && is_space(s[from]) {
        skip_spaces(s, from + 1)
    } else {
        from
    }
}

/// The first position at or after `from` that holds white space, or the
/// length of `s`.
pub open spec fn find_space(s: Seq<char>, from: int) -> int
    decreases s.len() - from,
{
    if 0 <= from < s.len() && !is_space(s[from]) {
        find_space(s, from + 1)
    } else {
        from
    }
}

/// The shape of a timestamp: one to three colon-separated groups of ASCII
/// digits. A lone group is bare seconds of any length; with more groups the
/// first has one or two digits and each later one exactly two.
pub open spec fn is_timestamp_shape(token: Seq<char>) -> bool {
    let groups = split(token, ':');
    &&& 1 <= groups.len() <= 3
    &&& forall|i: int| 0 <= i < groups.len() ==> all_digits(#[trigger] groups[i])
    &&& groups[0].len() >= 1
    &&& groups.len() > 1 ==> groups[0].len() <= 2
    &&& forall|i: int| 1 <= i < groups.len() ==> (#[trigger] groups[i]).len() == 2
}

/// Whether `line` is a chapter line: a timestamp from its first character up
/// to the first white space, and at least one more character after that
/// white space.
pub open spec fn is_chapter_line(line: Seq<char>) -> bool {
    let w = find_space(line, 0);
    &&& w + 1 < line.len()
    &&& is_timestamp_shape(line.subrange(0, w))
}

/// The title of a chapter line: what follows the timestamp, without the
/// white space in between.
pub open spec fn title_of_line(line: Seq<char>) -> Seq<char> {
    line.subrange(skip_spaces(line, find_space(line, 0)), line.len() as int)
}

/// The chapter that a line marks, if it is a chapter line.
pub open spec fn chapter_of_line(line: Seq<char>) -> Option<ChapterView> {
    if is_chapter_line(line) {
        Some(
            ChapterView {
                start: timestamp_seconds(line.subrange(0, find_space(line, 0))),
                label: lowercase_of(title_of_line(line)),
            },
        )
    } else {
        None
    }
}

/// The chapters that the given lines mark, in the order of the lines.
pub open spec fn chapters_in(lines: Seq<Seq<char>>) -> Seq<ChapterView>
    decreases lines.len(),
{
    if lines.len() == 0 {
        Seq::empty()
    } else {
        match chapter_of_line(lines.last()) {
            Some(c) => chapters_in(lines.drop_last()).push(c),
            None => chapters_in(lines.drop_last()),
        }
    }
}

/// The chapters of a description, in text order.
pub open spec fn chapters_of(description: Seq<char>) -> Seq<ChapterView> {
    chapters_in(split(description, '\n'))
}

/// Exec form of [`find_space`].
fn scan_to_space(line: &Vec<char>, from: usize) -> (at: usize)
    requires
        from <= line@.len(),
    ensures
        at == find_space(line@, from as int),
        from <= at <= line@.len(),
{
    let mut i: usize = from;
    while i < line.len() && !is_space_char(line[i])
        invariant
            from <= i <= line@.len(),
            find_space(line@, from as int) == find_space(line@, i as int),
        decreases line@.len() - i,
    {
        i = i + 1;
    }
    i
}

/// Exec form of [`skip_spaces`].
fn scan_past_spaces(line: &Vec<char>, from: usize) -> (at: usize)
    requires
        from <= line@.len(),
    ensures
        at == skip_spaces(line@, from as int),
        from <= at <= line@.len(),
{
    let mut i: usize = from;
    while i < line.len() && is_space_char(line[i])
        invariant
            from <= i <= line@.len(),
            skip_spaces(line@, from as int) == skip_spaces(line@, i as int),
        decreases line@.len() - i,
    {
        i = i + 1;
    }
    i
}

/// Whether every character of `group` is an ASCII digit.
fn digits_only(group: &Vec<char>) -> (out: bool)
    ensures
        out == all_digits(group@),
{
    let mut i: usize = 0;
    while i < group.len()
        invariant
            i <= group@.len(),
            forall|j: int| 0 <= j < i ==> is_digit(#[trigger] group@[j]),
        decreases group@.len() - i,
    {
        let c = group[i];
        if c < '0' || c > '9' {
            assert(!is_digit(group@[i as int]));
            return false;
        }
        i = i + 1;
    }
    true
}

/// Whether `token` has the shape of a timestamp.
pub fn has_timestamp_shape(token: &Vec<char>) -> (out: bool)
    ensures
        out == is_timestamp_shape(token@),
{
    let groups = split_chars(token, ':');
    let count = groups.len();
    proof {
        assert(views(groups@).len() == groups@.len());
        assert forall|i: int| 0 <= i < groups@.len() implies #[trigger] groups@[i]@ == split(
            token@,
            ':',
        )[i] by {
            assert(views(groups@)[i] == groups@[i]@);
        }
    }
    if count > 3 {
        return false;
    }
    if groups[0].len() < 1 || (count > 1 && groups[0].len() > 2) {
        return false;
    }
    let mut i: usize = 0;
    while i < count
        invariant
            i <= count,
            count == groups@.len(),
            count == split(token@, ':').len(),
            forall|j: int| 0 <= j < count ==> #[trigger] groups@[j]@ == split(token@, ':')[j],
            forall|j: int| 0 <= j < i ==> all_digits(#[trigger] split(token@, ':')[j]),
            forall|j: int| 1 <= j < i ==> (#[trigger] split(token@, ':')[j]).len() == 2,
        decreases count - i,
    {
        if !digits_only(&groups[i]) {
            assert(!all_digits(split(token@, ':')[i as int]));
            return false;
        }
        if i >= 1 && groups[i].len() != 2 {
            assert(split(token@, ':')[i as int].len() != 2);
            return false;
        }
        i = i + 1;
    }
    true
}

/// Reads one line: the chapter it marks, or nothing for any other line.
pub fn parse_chapter_line(line: &Vec<char>) -> (out: Option<Chapter>)
    ensures
        match out {
            Some(c) => chapter_of_line(line@) == Some(c@),
            None => chapter_of_line(line@) is None,
        },
{
    let w = scan_to_space(line, 0);
    if w >= line.len() || w + 1 >= line.len() {
        return None;
    }
    let token = string_of(line, 0, w);
    let token_chars = chars_of(token.as_str());
    if !has_timestamp_shape(&token_chars) {
        return None;
    }
    let start = parse_timestamp(token.as_str());
    let t = scan_past_spaces(line, w);
    let title = string_of(line, t, line.len());
    let label = to_lowercase(title.as_str());
    Some(Chapter { start, label })
}

/// The chapters of `description`, in text order.
pub fn parse_chapters(description: &str) -> (out: Vec<Chapter>)
    ensures
        marks(out@) == chapters_of(description@),
{
    let chars = chars_of(description);
    let lines = split_chars(&chars, '\n');
    let ghost all = split(description@, '\n');
    proof {
        assert(views(lines@).len() == lines@.len());
        assert forall|i: int| 0 <= i < lines@.len() implies #[trigger] lines@[i]@ == all[i] by {
            assert(views(lines@)[i] == lines@[i]@);
        }
    }
    let mut out: Vec<Chapter> = Vec::new();
    let mut i: usize = 0;
    assert(marks(out@) == chapters_in(all.subrange(0, 0)));
    while i < lines.len()
        invariant
            i <= lines@.len(),
            lines@.len() == all.len(),
            forall|j: int| 0 <= j < lines@.len() ==> #[trigger] lines@[j]@ == all[j],
            marks(out@) == chapters_in(all.subrange(0, i as int)),
        decreases lines@.len() - i,
    {
        let ghost before = out@;
        let found = parse_chapter_line(&lines[i]);
        proof {
            let next = all.subrange(0, i + 1);
            assert(next.drop_last() == all.subrange(0, i as int));
            assert(next.last() == all[i as int]);
        }
        match found {
            Some(c) => {
                out.push(c);
                assert(marks(out@) == marks(before).push(c@));
            },
            None => {},
        }
        i = i + 1;
    }
    assert(all.subrange(0, i as int) == all);
    out
}

} // verus!
