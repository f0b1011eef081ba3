use audio_epistles::chapters::{parse_chapter_line, parse_chapters};
use audio_epistles::pipeline::{plan_trim, PipelineError, SermonSegment};
use audio_epistles::segment::{extract_sermon_chapter, names_sermon};
use audio_epistles::timestamp::parse_timestamp;

fn line(text: &str) -> Vec<char> {
    text.chars().collect()
}

#[test]
fn timestamp_minutes_and_seconds() {
    assert_eq!(parse_timestamp("12:34"), 754);
}

#[test]
fn timestamp_hours_minutes_seconds() {
    assert_eq!(parse_timestamp("1:02:03"), 3723);
}

#[test]
fn timestamp_bare_seconds() {
    assert_eq!(parse_timestamp("45"), 45);
}

#[test]
fn timestamp_malformed_component_counts_as_zero() {
    assert_eq!(parse_timestamp("12:abc"), 720);
    assert_eq!(parse_timestamp("abc:10"), 10);
    assert_eq!(parse_timestamp(":10"), 10);
    assert_eq!(parse_timestamp("1::3"), 3603);
    assert_eq!(parse_timestamp("-1:30"), 30);
}

#[test]
fn timestamp_with_too_many_components_is_zero() {
    assert_eq!(parse_timestamp("1:2:3:4"), 0);
}

#[test]
fn timestamp_edge_cases() {
    assert_eq!(parse_timestamp(""), 0);
    assert_eq!(parse_timestamp("+7"), 7);
    assert_eq!(parse_timestamp("+"), 0);
    assert_eq!(parse_timestamp("007"), 7);
    assert_eq!(parse_timestamp("4294967295"), 4294967295);
    assert_eq!(parse_timestamp("4294967296"), 0);
    assert_eq!(parse_timestamp("99999999999999999999999"), 0);
    assert_eq!(parse_timestamp("1193046:28:15"), 4294967295);
    assert_eq!(parse_timestamp("1193046:28:16"), 0);
}

#[test]
fn scenario_sermon_between_chapters() {
    let description = "0:00 Introduction\n5:30 Worship\n15:45 Sermon\n45:20 Closing Prayer";
    assert_eq!(extract_sermon_chapter(description, 3000), Some((945, 2720)));
}

#[test]
fn scenario_sermon_is_last_chapter() {
    let description = "0:00 Introduction\n5:30 Worship\n15:45 Sermon";
    assert_eq!(extract_sermon_chapter(description, 3000), Some((945, 3000)));
}

#[test]
fn scenario_empty_description() {
    assert_eq!(extract_sermon_chapter("", 3000), Some((0, 3000)));
}

#[test]
fn description_without_chapter_lines_is_whole_video() {
    let description = "Welcome to our service!\nJoin us at 10:30 every Sunday.\n  5:30 indented";
    assert_eq!(extract_sermon_chapter(description, 1234), Some((0, 1234)));
    assert_eq!(extract_sermon_chapter(description, 0), Some((0, 0)));
    assert_eq!(extract_sermon_chapter("12:34", 9), Some((0, 9)));
    assert_eq!(extract_sermon_chapter("12:34 ", 9), Some((0, 9)));
    assert_eq!(extract_sermon_chapter("123:45 Sermon", 9), Some((0, 9)));
    assert_eq!(extract_sermon_chapter("1:234 Sermon", 9), Some((0, 9)));
}

#[test]
fn chapters_without_sermon_give_nothing() {
    let description = "0:00 Introduction\n5:30 Worship\n45:20 Closing Prayer";
    assert_eq!(extract_sermon_chapter(description, 3000), None);
}

#[test]
fn unsorted_chapters_give_the_same_segment() {
    let description = "45:20 Closing Prayer\n15:45 Sermon\n0:00 Introduction\n5:30 Worship";
    assert_eq!(extract_sermon_chapter(description, 3000), Some((945, 2720)));
}

#[test]
fn sermon_match_ignores_case_and_position() {
    assert_eq!(extract_sermon_chapter("0:00 Intro\n10:00 The SERMON of today", 900), Some((600, 900)));
    assert_eq!(extract_sermon_chapter("0:00 Intro\n10:00 PreSermonNotes\n20:00 End", 2000), Some((600, 1200)));
}

#[test]
fn earliest_sermon_chapter_wins() {
    let description = "30:00 Sermon part two\n10:00 Sermon part one\n20:00 Song";
    assert_eq!(extract_sermon_chapter(description, 4000), Some((600, 1200)));
}

#[test]
fn equal_starts_keep_text_order() {
    assert_eq!(extract_sermon_chapter("10:00 Sermon\n10:00 Song", 4000), Some((600, 600)));
    assert_eq!(extract_sermon_chapter("10:00 Song\n10:00 Sermon", 4000), Some((600, 4000)));
}

#[test]
fn bare_seconds_and_hours_are_timestamps() {
    assert_eq!(extract_sermon_chapter("0 Intro\n90 Sermon\n1:00:00 End", 5000), Some((90, 3600)));
}

#[test]
fn chapter_line_is_read_with_lowercase_label() {
    let c = parse_chapter_line(&line("15:45   SERMON Time")).unwrap();
    assert_eq!(c.start, 945);
    assert_eq!(c.label, "sermon time");
    assert!(parse_chapter_line(&line("Sermon at 15:45")).is_none());
    assert!(parse_chapter_line(&line("15:45")).is_none());
    assert!(parse_chapter_line(&line("15:4 Sermon")).is_none());
    assert!(parse_chapter_line(&line("1:15:45:00 Sermon")).is_none());
}

#[test]
fn chapters_come_in_text_order() {
    let chapters = parse_chapters("5:30 Worship\nnot a chapter\n0:00 Introduction\r\n");
    assert_eq!(chapters.len(), 2);
    assert_eq!(chapters[0].start, 330);
    assert_eq!(chapters[0].label, "worship");
    assert_eq!(chapters[1].start, 0);
    assert_eq!(chapters[1].label, "introduction\r");
}

#[test]
fn sermon_word_is_found_anywhere() {
    assert!(names_sermon("the sermon"));
    assert!(names_sermon("sermon"));
    assert!(!names_sermon("sermo"));
    assert!(!names_sermon("Sermon"));
    assert!(!names_sermon(""));
}

#[test]
fn plan_is_the_segment_within_the_video() {
    let description = "0:00 Introduction\n15:45 Sermon\n45:20 Closing Prayer";
    let plan = plan_trim(description, 3000);
    assert_eq!(plan, Ok(SermonSegment { start_seconds: 945, end_seconds: 2720 }));
    assert_eq!(plan.unwrap().length(), 1775);
}

#[test]
fn plan_fails_without_sermon() {
    assert_eq!(plan_trim("0:00 Introduction\n5:30 Worship", 3000), Err(PipelineError::NoSermonFound));
}

#[test]
fn plan_cuts_whatever_segment_has_a_length() {
    assert_eq!(plan_trim("", 0), Ok(SermonSegment { start_seconds: 0, end_seconds: 0 }));
    assert_eq!(plan_trim("", 3000), Ok(SermonSegment { start_seconds: 0, end_seconds: 3000 }));
    assert_eq!(
        plan_trim("0:10 Sermon\n50:00 End", 100),
        Ok(SermonSegment { start_seconds: 10, end_seconds: 3000 })
    );
    assert_eq!(
        plan_trim("10:00 Sermon\n10:00 Song", 4000),
        Ok(SermonSegment { start_seconds: 600, end_seconds: 600 })
    );
    assert_eq!(plan_trim("10:00 Sermon\n10:00 Song", 4000).unwrap().length(), 0);
    assert_eq!(plan_trim("50:00 Sermon", 3000).unwrap().length(), 0);
    assert_eq!(plan_trim("no chapters", 0).unwrap().length(), 0);
}

#[test]
fn plan_fails_on_segment_that_ends_before_it_starts() {
    assert_eq!(plan_trim("50:00 Sermon", 100), Err(PipelineError::SegmentOutOfRange));
    assert_eq!(plan_trim("0:00 Intro\n50:00 Sermon", 2999), Err(PipelineError::SegmentOutOfRange));
}

#[test]
fn segment_within_a_video() {
    assert_eq!(SermonSegment::new(5, 5, 10), None);
    assert_eq!(SermonSegment::new(5, 11, 10), None);
    assert_eq!(SermonSegment::new(5, 10, 10), Some(SermonSegment { start_seconds: 5, end_seconds: 10 }));
}
