use telegram_mp3_bot::converter::{
    check_download_size, conversion_api_url, extract_video_id, start_conversion, user_agent,
    x_run_header, ApiReply, ConversionPoll, ConvertError, DownloadProgress, PollStep,
    MAX_ATTEMPTS,
};

#[test]
fn video_ids_from_watch_urls() {
    assert_eq!(
        extract_video_id("https://www.youtube.com/watch?v=dQw4w9WgXcQ&t=42").as_deref(),
        Some("dQw4w9WgXcQ")
    );
    assert_eq!(
        extract_video_id("https://www.youtube.com/watch?v=abc").as_deref(),
        Some("abc")
    );
    // The first `v=` in the text is used, wherever it stands.
    assert_eq!(
        extract_video_id("https://dev=x.youtube.com/watch?v=abc").as_deref(),
        Some("x.youtube.com/watch?")
    );
    // A piece ends at the next `v=`.
    assert_eq!(
        extract_video_id("youtube.com/watch?v=abcv=def").as_deref(),
        Some("abc")
    );
    assert_eq!(extract_video_id("youtube.com/watch?v=").as_deref(), Some(""));
}

#[test]
fn video_ids_from_short_urls() {
    assert_eq!(
        extract_video_id("https://youtu.be/dQw4w9WgXcQ?si=xyz").as_deref(),
        Some("dQw4w9WgXcQ")
    );
    assert_eq!(
        extract_video_id("https://youtu.be/abc&t=3").as_deref(),
        Some("abc&t=3")
    );
}

#[test]
fn no_video_id_elsewhere() {
    assert_eq!(extract_video_id("https://example.com/video"), None);
    assert_eq!(extract_video_id("https://www.youtube.com/watch?list=1"), None);
    assert!(matches!(start_conversion("hello"), Err(ConvertError::InvalidUrl)));
    assert_eq!(start_conversion("https://youtu.be/q1").unwrap(), "q1");
}

#[test]
fn request_details() {
    assert_eq!(
        conversion_api_url("abc"),
        "https://youtube-mp36.p.rapidapi.com/dl?id=abc"
    );
    assert_eq!(user_agent("alice"), "Mozilla/5.0 alice");
    assert_eq!(x_run_header(""), "d41d8cd98f00b204e9800998ecf8427e");
    assert_eq!(x_run_header("abc"), "900150983cd24fb0d6963f7d28e17f72");
}

fn reply(status: Option<&str>, link: Option<&str>, msg: Option<&str>) -> ApiReply {
    ApiReply {
        status: status.map(String::from),
        link: link.map(String::from),
        msg: msg.map(String::from),
    }
}

#[test]
fn polling_decisions() {
    let mut poll = ConversionPoll::new();
    assert!(poll.begin_attempt());
    assert_eq!(poll.attempts(), 1);
    match poll.on_reply(&reply(Some("ok"), Some("https://cdn/x.mp3"), None)) {
        PollStep::Download { link } => assert_eq!(link, "https://cdn/x.mp3"),
        _ => panic!("expected a download"),
    }
    match poll.on_reply(&reply(Some("ok"), None, None)) {
        PollStep::Fail { error } => {
            assert_eq!(error.message(), "API returned success but no download link")
        }
        _ => panic!("expected a failure"),
    }
    match poll.on_reply(&reply(Some("processing"), None, None)) {
        PollStep::Wait { progress } => assert_eq!(progress, None),
        _ => panic!("expected to wait"),
    }
    match poll.on_reply(&reply(Some("fail"), None, Some("quota exceeded"))) {
        PollStep::Fail { error } => assert_eq!(error.message(), "quota exceeded"),
        _ => panic!("expected a failure"),
    }
    match poll.on_reply(&reply(Some("fail"), None, None)) {
        PollStep::Fail { error } => assert_eq!(error.message(), "Conversion failed"),
        _ => panic!("expected a failure"),
    }
    match poll.on_reply(&reply(Some("queued"), None, None)) {
        PollStep::Fail { error } => assert_eq!(error.message(), "Invalid API response"),
        _ => panic!("expected a failure"),
    }
    match poll.on_reply(&reply(None, Some("x"), None)) {
        PollStep::Fail { error } => assert!(matches!(error, ConvertError::InvalidResponse)),
        _ => panic!("expected a failure"),
    }
}

#[test]
fn progress_note_every_fifth_attempt() {
    let mut poll = ConversionPoll::new();
    let mut notes = Vec::new();
    while poll.begin_attempt() {
        if let PollStep::Wait { progress: Some(p) } =
            poll.on_reply(&reply(Some("processing"), None, None))
        {
            notes.push((poll.attempts(), p));
        }
    }
    assert_eq!(poll.attempts(), MAX_ATTEMPTS);
    assert_eq!(notes.len(), 6);
    assert_eq!(notes[0], (5, "🔄 Still processing (attempt 5/30)".to_string()));
    assert_eq!(notes[5], (30, "🔄 Still processing (attempt 30/30)".to_string()));
    assert_eq!(ConvertError::TimedOut.message(), "Conversion timed out");
}

#[test]
fn download_progress_and_size() {
    let mut p = DownloadProgress::new();
    assert!(!p.on_chunk(1000));
    assert!(!p.on_chunk(1048576 - 2000));
    assert!(p.on_chunk(1000));
    assert_eq!(p.downloaded, 1048576);
    assert!(check_download_size(1).is_ok());
    let e = check_download_size(0).unwrap_err();
    assert_eq!(e.message(), "Downloaded file is empty");
}
