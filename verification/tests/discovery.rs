use audio_epistles::discovery::{latest_video_id, playlist_url, video_ids};

#[test]
fn test_video_id_regex_pattern() {
    let sample_response = r#"{"videoId":"dQw4w9WgXcQ","title":"Test Video"}"#;
    let captures = video_ids(sample_response);

    assert_eq!(captures.len(), 1);
    assert_eq!(captures[0], "dQw4w9WgXcQ");
}

#[test]
fn test_video_id_regex_multiple_videos() {
    let sample_response = r#"
            {"videoId":"video1_abc123","title":"Video 1"}
            {"videoId":"video2_def456","title":"Video 2"}
            {"videoId":"video3_ghi789","title":"Video 3"}
        "#;

    let captures = video_ids(sample_response);

    assert_eq!(captures.len(), 3);
    assert_eq!(captures[0], "video1_abc123");
    assert_eq!(captures[1], "video2_def456");
    assert_eq!(captures[2], "video3_ghi789");
}

#[test]
fn test_video_id_regex_last_video() {
    let sample_response = r#"
            {"videoId":"old_video1","title":"Old Video 1"}
            {"videoId":"old_video2","title":"Old Video 2"}
            {"videoId":"latest_video","title":"Latest Video"}
        "#;

    let last_video = latest_video_id(&video_ids(sample_response));

    assert!(last_video.is_some());
    assert_eq!(last_video.unwrap().as_str(), "latest_video");
}

#[test]
fn test_video_id_regex_no_match() {
    let sample_response = r#"{"playlistId":"PLtest123","title":"Playlist"}"#;

    let captures = video_ids(sample_response);

    assert_eq!(captures.len(), 0);
}

#[test]
fn test_video_id_regex_various_formats() {
    let test_cases = vec![
        (r#""videoId":"dQw4w9WgXcQ""#, "dQw4w9WgXcQ"),
        (r#""videoId":"abc-_123456""#, "abc-_123456"),
        (r#""videoId":"X_yZ_12-34A""#, "X_yZ_12-34A"),
    ];

    for (input, expected) in test_cases {
        let ids = video_ids(input);
        let capture = ids.first().map(|s| s.as_str());

        assert_eq!(capture, Some(expected));
    }
}

#[test]
fn test_video_id_regex_nested_json() {
    let sample_response = r#"
        {
            "contents": {
                "twoColumnBrowseResultsRenderer": {
                    "tabs": [{
                        "tabRenderer": {
                            "content": {
                                "sectionListRenderer": {
                                    "contents": [{
                                        "itemSectionRenderer": {
                                            "contents": [{
                                                "playlistVideoRenderer": {
                                                    "videoId":"realVideoId123"
                                                }
                                            }]
                                        }
                                    }]
                                }
                            }
                        }
                    }]
                }
            }
        }
        "#;

    let captures = video_ids(sample_response);

    assert_eq!(captures.len(), 1);
    assert_eq!(captures[0], "realVideoId123");
}

#[test]
fn empty_identifier_is_no_match() {
    assert_eq!(video_ids(r#""videoId":"""#).len(), 0);
}

#[test]
fn latest_of_none_is_none() {
    assert_eq!(latest_video_id(&Vec::new()), None);
}

#[test]
fn playlist_address() {
    assert_eq!(playlist_url("PL123"), "https://www.youtube.com/playlist?list=PL123");
}
