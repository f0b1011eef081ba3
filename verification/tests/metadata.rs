use audio_epistles::history::{last_id_or_empty, migration_steps, needs_migration, was_uploaded, MigrationStep};
use audio_epistles::log::{get_month_folder, get_next_month_folder, log_event, Moment};
use audio_epistles::metadata::{
    duration_seconds, fetch_metadata, first_mp4, has_mp4_extension, normalize_title, video_url,
    DownloadError, Downloaded,
};
use audio_epistles::pacing::human_delay;
use audio_epistles::automation::Stage;
use audio_epistles::pipeline::{
    after_download, after_trim, after_upload, is_new_video, PipelineError,
};
use audio_epistles::trim::{decimal_string, trim_arguments, trim_audio, EncodeError};
use audio_epistles::types::{AudioPath, Seconds, VideoId, VideoPath};
use std::path::{Path, PathBuf};

#[test]
fn title_keeps_two_parts() {
    assert_eq!(normalize_title("Sunday Service | Jan 1, 2024 | Live"), "Sunday Service | Jan 1, 2024");
    assert_eq!(normalize_title("A|B"), "A | B");
    assert_eq!(normalize_title("  A  |\tB\u{a0}| C | D"), "A | B");
    assert_eq!(normalize_title("|"), " | ");
    assert_eq!(normalize_title("A |   "), "A | ");
}

#[test]
fn title_without_separator_is_unchanged() {
    assert_eq!(normalize_title("Sunday Service"), "Sunday Service");
    assert_eq!(normalize_title("  padded  "), "  padded  ");
    assert_eq!(normalize_title(""), "");
}

#[test]
fn mp4_extension() {
    assert!(has_mp4_extension("video.mp4"));
    assert!(has_mp4_extension("..mp4"));
    assert!(!has_mp4_extension(".mp4"));
    assert!(!has_mp4_extension("video.MP4"));
    assert!(!has_mp4_extension("video.mp4.part"));
    assert!(!has_mp4_extension("mp4"));
    let names = vec!["a.txt".to_string(), "b.mp4".to_string(), "c.mp4".to_string()];
    assert_eq!(first_mp4(&names), Some(1));
    assert_eq!(first_mp4(&vec!["a.txt".to_string()]), None);
}

#[test]
fn duration_keeps_low_bits() {
    assert_eq!(duration_seconds(Some(3000)), 3000);
    assert_eq!(duration_seconds(None), 0);
    assert_eq!(duration_seconds(Some(4294967296 + 7)), 7);
}

#[test]
fn video_address() {
    assert_eq!(video_url("dQw4w9WgXcQ"), "https://www.youtube.com/watch?v=dQw4w9WgXcQ");
}

#[test]
fn metadata_of_a_single_video() {
    let files = vec!["x.mp4".to_string()];
    let item = Downloaded::Single {
        title: Some("Service | Jan 1 | Live".to_string()),
        description: Some("0:00 Intro".to_string()),
        duration: Some(3000),
    };
    let m = fetch_metadata(true, &files, item, "assets/video.mp4".to_string()).unwrap();
    assert_eq!(m.title, "Service | Jan 1");
    assert_eq!(m.description, "0:00 Intro");
    assert_eq!(m.local_file_path, "assets/video.mp4");
    assert_eq!(m.duration_seconds, 3000);

    let bare = Downloaded::Single { title: None, description: None, duration: None };
    let m = fetch_metadata(true, &files, bare, "v".to_string()).unwrap();
    assert_eq!(m.title, "Untitled");
    assert_eq!(m.description, "");
    assert_eq!(m.duration_seconds, 0);
}

#[test]
fn metadata_errors() {
    let files = vec!["x.mp4".to_string()];
    let none: Vec<String> = vec!["x.webm".to_string()];
    let single = || Downloaded::Single { title: None, description: None, duration: None };
    assert_eq!(fetch_metadata(false, &files, single(), String::new()).unwrap_err(), DownloadError::DownloaderFailed);
    assert_eq!(fetch_metadata(true, &none, single(), String::new()).unwrap_err(), DownloadError::OutputMissing);
    assert_eq!(fetch_metadata(true, &files, Downloaded::Playlist, String::new()).unwrap_err(), DownloadError::NotSingleVideo);
    assert_eq!(fetch_metadata(true, &none, Downloaded::Playlist, String::new()).unwrap_err(), DownloadError::OutputMissing);
}

#[test]
fn transcoder_arguments() {
    let args = trim_arguments("assets/video.mp4", "assets/audio.mp3", 945, 1775);
    assert_eq!(
        args,
        vec!["-y", "-i", "assets/video.mp4", "-ss", "945", "-t", "1775", "-vn", "-acodec", "libmp3lame", "assets/audio.mp3"]
    );
    assert_eq!(trim_arguments("a", "b", 0, 4294967295), trim_arguments("a", "b", 0, 4294967295));
}

#[test]
fn numbers_in_base_ten() {
    assert_eq!(decimal_string(0), "0");
    assert_eq!(decimal_string(7), "7");
    assert_eq!(decimal_string(10), "10");
    assert_eq!(decimal_string(4294967295), "4294967295");
}

#[test]
fn transcoder_exit() {
    assert_eq!(trim_audio(Some(0)), Ok(()));
    assert_eq!(trim_audio(Some(1)), Err(EncodeError { status: Some(1) }));
    assert_eq!(trim_audio(None), Err(EncodeError { status: None }));
}

#[test]
fn delay_is_within_its_range() {
    for _ in 0..200 {
        let d = human_delay(200, 400);
        assert!(200 <= d && d <= 400);
    }
    assert_eq!(human_delay(5000, 5000), 5000);
    let seen: Vec<u64> = (0..64).map(|_| human_delay(0, 1_000_000_000)).collect();
    assert!(seen.iter().any(|d| *d != seen[0]));
}

#[test]
fn new_video_is_one_that_differs() {
    assert!(is_new_video(&"abc".to_string(), &"".to_string()));
    assert!(!is_new_video(&"abc".to_string(), &"abc".to_string()));
}

#[test]
fn month_folders() {
    assert_eq!(get_month_folder(1), "1-jan");
    assert_eq!(get_month_folder(9), "9-sep");
    assert_eq!(get_month_folder(12), "12-dec");
    assert_eq!(get_next_month_folder(12), "1-jan");
    assert_eq!(get_next_month_folder(2), "3-mar");
}

#[test]
fn log_plan_for_a_moment() {
    let m = Moment { year: 2024, month: 2, day: 11, hour: 9, minute: 5, second: 0 };
    let plan = log_event("started", &m).unwrap();
    assert_eq!(plan.clear_dir, None);
    assert_eq!(plan.file, "logs/2-feb/2024-02-11.log");
    assert_eq!(plan.line, "[2024-02-11 09:05:00] - started");

    let late = Moment { year: 987, month: 12, day: 22, hour: 23, minute: 59, second: 59 };
    let plan = log_event("", &late).unwrap();
    assert_eq!(plan.clear_dir, Some("logs/1-jan".to_string()));
    assert_eq!(plan.file, "logs/12-dec/0987-12-22.log");
    assert_eq!(plan.line, "[0987-12-22 23:59:59] - ");

    let early = Moment { year: 12345, month: 1, day: 21, hour: 0, minute: 0, second: 0 };
    assert_eq!(log_event("x", &early).unwrap().file, "logs/1-jan/+12345-01-21.log");
    assert_eq!(log_event("x", &early).unwrap().clear_dir, None);
    let before = Moment { year: -44, month: 3, day: 15, hour: 0, minute: 0, second: 0 };
    assert_eq!(log_event("x", &before).unwrap().file, "logs/3-mar/-0044-03-15.log");
    let leap = Moment { year: 2024, month: 2, day: 29, hour: 12, minute: 0, second: 0 };
    assert_eq!(log_event("x", &leap).unwrap().clear_dir, Some("logs/3-mar".to_string()));
}

#[test]
fn no_log_plan_for_what_is_no_moment() {
    let ok = Moment { year: 2023, month: 2, day: 28, hour: 0, minute: 0, second: 0 };
    assert!(log_event("x", &ok).is_some());
    assert!(log_event("x", &Moment { day: 29, ..ok }).is_none());
    assert!(log_event("x", &Moment { day: 0, ..ok }).is_none());
    assert!(log_event("x", &Moment { month: 0, ..ok }).is_none());
    assert!(log_event("x", &Moment { month: 13, ..ok }).is_none());
    assert!(log_event("x", &Moment { hour: 24, ..ok }).is_none());
    assert!(log_event("x", &Moment { minute: 60, ..ok }).is_none());
    assert!(log_event("x", &Moment { second: 60, ..ok }).is_none());
    assert!(log_event("x", &Moment { year: 400000, ..ok }).is_none());
}

#[test]
fn wrappers_of_plain_values() {
    let id = VideoId::new("dQw4w9WgXcQ".to_string());
    assert_eq!(id.as_str(), "dQw4w9WgXcQ");
    assert_eq!(id.to_text(), "dQw4w9WgXcQ");
    assert_eq!(id, VideoId::new("dQw4w9WgXcQ".to_string()));
    let audio = AudioPath::new(PathBuf::from("assets/audio.mp3"));
    assert_eq!(audio.as_path(), Path::new("assets/audio.mp3"));
    assert_eq!(audio.to_string_lossy(), "assets/audio.mp3");
    assert_eq!(audio.clone().as_path(), audio.as_path());
    let video = VideoPath::new(PathBuf::from("assets/video.mp4"));
    assert_eq!(video.as_path(), Path::new("assets/video.mp4"));
    assert_eq!(video.to_string_lossy(), "assets/video.mp4");
    assert_eq!(video.as_path().extension().unwrap(), "mp4");
    assert_eq!(VideoPath::new(PathBuf::new()).to_string_lossy(), "");
    assert_eq!(Seconds::new(90).as_u32(), 90);
    assert!(Seconds::new(1) < Seconds::new(2));
}

#[test]
fn history_decisions() {
    assert!(needs_migration(0));
    assert!(!needs_migration(1));
    assert_eq!(
        migration_steps(false),
        vec![MigrationStep::CreateUploads, MigrationStep::CreateIndex, MigrationStep::SetVersion(1)]
    );
    assert_eq!(
        migration_steps(true),
        vec![
            MigrationStep::CreateUploads,
            MigrationStep::CreateIndex,
            MigrationStep::CopyOldUpload,
            MigrationStep::DropOldTable,
            MigrationStep::SetVersion(1)
        ]
    );
    assert_eq!(last_id_or_empty(None), "");
    assert_eq!(last_id_or_empty(Some("abc".to_string())), "abc");
    assert!(was_uploaded(1));
    assert!(!was_uploaded(0));
}

#[test]
fn run_outcomes() {
    assert_eq!(
        after_download(Err(DownloadError::NotSingleVideo)).unwrap_err(),
        PipelineError::Download(DownloadError::NotSingleVideo)
    );
    let files = vec!["x.mp4".to_string()];
    let item = Downloaded::Single { title: Some("T".to_string()), description: None, duration: Some(9) };
    let video = fetch_metadata(true, &files, item, "p".to_string());
    let video = after_download(video).unwrap();
    assert_eq!(video.title, "T");
    assert_eq!(video.duration_seconds, 9);
    assert_eq!(after_trim(Some(0)), Ok(()));
    assert_eq!(after_trim(Some(2)), Err(PipelineError::Encode(EncodeError { status: Some(2) })));
    assert_eq!(after_trim(None), Err(PipelineError::Encode(EncodeError { status: None })));
    assert_eq!(after_upload(true, Stage::RequestingSave), Ok(()));
    assert_eq!(
        after_upload(false, Stage::Authenticating),
        Err(PipelineError::Automation(Stage::Authenticating))
    );
}

#[test]
fn conversions_from_plain_values() {
    assert_eq!(VideoId::from("abc".to_string()), VideoId::new("abc".to_string()));
    assert_eq!(VideoId::from("abc"), VideoId::new("abc".to_string()));
    assert_eq!(VideoId::from("").as_str(), "");
    assert_eq!(Seconds::from(5), Seconds::new(5));
}
