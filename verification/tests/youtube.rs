use spotatui::infra::youtube::{
    download_args, failure_message, is_youtube_uri, keep_videos_with_id, search_args,
    spawn_failure_message, split_lines, thumbnail_url_for_video_id, timeout_message,
    uri_for_video_id, video_id_from_uri, video_to_track_info, VideoIdError, YouTubeSource, YtVideo,
};

#[test]
fn youtube_uri_round_trip() {
    let uri = uri_for_video_id("5NV6Rdv1a3I");
    assert_eq!(uri, "youtube:5NV6Rdv1a3I");
    assert!(is_youtube_uri(&uri));
    assert_eq!(video_id_from_uri(&uri).unwrap(), "5NV6Rdv1a3I");
    assert_eq!(video_id_from_uri("youtube:a-b_c123").unwrap(), "a-b_c123");
}

#[test]
fn video_id_rejects_injection_shaped_input() {
    assert!(video_id_from_uri("youtube:--exec=rm").is_err());
    assert!(video_id_from_uri("youtube:id&x=1").is_err());
    assert!(video_id_from_uri("youtube:a b").is_err());
    assert!(video_id_from_uri("youtube:").is_err());
    assert!(video_id_from_uri("spotify:track:x").is_err());
    assert!(!is_youtube_uri("radio:https://x.example/s"));
    assert!(video_id_from_uri("youtube:-abcdefghij").is_ok());
}

#[test]
fn video_id_errors_say_which_check_failed() {
    assert_eq!(
        video_id_from_uri("spotify:track:x"),
        Err(VideoIdError::NotYouTube("spotify:track:x".to_string()))
    );
    assert_eq!(video_id_from_uri("youtube:a b"), Err(VideoIdError::InvalidId("a b".to_string())));
    assert!(video_id_from_uri("youtube:é").is_err());
}

#[test]
fn source_defaults_to_ytdlp_on_path() {
    assert_eq!(YouTubeSource::new(None).binary(), "yt-dlp");
    assert_eq!(YouTubeSource::new(Some("/opt/yt".to_string())).binary(), "/opt/yt");
}

#[test]
fn search_and_download_arguments() {
    assert_eq!(
        search_args("daft punk"),
        vec!["--flat-playlist", "--dump-json", "--no-warnings", "ytsearch20:daft punk"]
    );
    let args = download_args("5NV6Rdv1a3I", "/tmp/x.m4a").unwrap();
    assert_eq!(args.len(), 11);
    assert_eq!(args[1], "140/bestaudio[ext=m4a]/bestaudio");
    assert_eq!(args[9], "/tmp/x.m4a");
    assert_eq!(args[10], "https://www.youtube.com/watch?v=5NV6Rdv1a3I");
    assert!(download_args("a&b", "/tmp/x").is_err());
}

#[test]
fn failure_messages() {
    assert_eq!(
        failure_message("exit status: 1", "noise\nWARN a\r\nERROR: b\nERROR: c\n"),
        "yt-dlp failed (exit status: 1): WARN a | ERROR: b | ERROR: c"
    );
    assert_eq!(failure_message("exit status: 2", ""), "yt-dlp failed (exit status: 2): no error output");
    let missing = spawn_failure_message("definitely-not-a-real-binary", true, "No such file");
    assert!(missing.contains("install yt-dlp"));
    assert_eq!(
        spawn_failure_message("yt-dlp", false, "denied"),
        "failed to spawn `yt-dlp`: denied"
    );
    assert_eq!(timeout_message(45), "yt-dlp timed out after 45s");
}

#[test]
fn lines_split_like_std() {
    for text in ["", "a", "a\n", "a\r\nb", "\n\nx\r", "x\ry\n\n"] {
        let expected: Vec<String> = text.lines().map(|l| l.to_string()).collect();
        assert_eq!(split_lines(text), expected, "text {:?}", text);
    }
}

fn video(id: &str, channel: Option<&str>, uploader: Option<&str>, duration_ms: Option<u64>) -> YtVideo {
    YtVideo {
        id: id.to_string(),
        title: " Daft Punk - Get Lucky (Official Audio) ".to_string(),
        channel: channel.map(|s| s.to_string()),
        uploader: uploader.map(|s| s.to_string()),
        duration_ms,
        view_count: None,
        thumbnail: None,
    }
}

#[test]
fn search_rows_become_tracks() {
    let rows = keep_videos_with_id(vec![
        video("5NV6Rdv1a3I", Some("Daft Punk"), Some("Daft Punk"), Some(249_000)),
        video("", None, None, None),
        video("dQw4w9WgXcQ", None, Some("Some Channel"), None),
    ]);
    assert_eq!(rows.len(), 2);
    let row = video_to_track_info(&rows[0], "YouTube".to_string());
    assert_eq!(row.uri.as_deref(), Some("youtube:5NV6Rdv1a3I"));
    assert_eq!(row.name, "Daft Punk - Get Lucky (Official Audio)");
    assert_eq!(row.artists, vec!["Daft Punk"]);
    assert_eq!(row.duration_ms, 249_000);
    assert_eq!(row.id.as_deref(), Some("5NV6Rdv1a3I"));
    assert!(row.is_playable);
    assert_eq!(row.image_url, Some(thumbnail_url_for_video_id("5NV6Rdv1a3I")));
    let live = video_to_track_info(&rows[1], "YouTube".to_string());
    assert_eq!(live.duration_ms, 0);
    assert_eq!(live.artists, vec!["Some Channel"]);
    assert_eq!(live.album, "YouTube");
}
