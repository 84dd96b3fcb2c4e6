use std::collections::HashMap;
use std::path::PathBuf;
use std::sync::Arc;
use std::time::Duration;
use youtube_downloader::download::{
    advance_phase, begin_audio, begin_fetch, begin_video, download_video, Action, Download, Event,
    Phase, LIBRARIES_DIR, TEMP_AUDIO, TEMP_VIDEO, TIMEOUT_SECS,
};
use yt_dlp::fetcher::deps::Libraries;
use yt_dlp::fetcher::download_manager::DownloadManager;
use yt_dlp::model::format::{
    CodecInfo, DownloadInfo, FileInfo, Format, HttpHeaders, Protocol, QualityInfo, RatesInfo,
    StoryboardInfo, VideoResolution,
};
use yt_dlp::model::{ExtractorInfo, Version, Video};
use yt_dlp::Youtube;

fn client(mark: &str) -> Youtube {
    Youtube {
        libraries: Libraries {
            youtube: PathBuf::from("libs/yt-dlp"),
            ffmpeg: PathBuf::from("libs/ffmpeg"),
        },
        output_dir: PathBuf::from("output"),
        args: vec![mark.to_string()],
        timeout: Duration::from_secs(30),
        cache: None,
        download_cache: None,
        download_manager: Arc::new(DownloadManager::new()),
    }
}

fn is_limited(client: &Youtube, mark: &str) -> bool {
    client.timeout == Duration::from_secs(6000)
        && client.args == vec![mark.to_string()]
        && client.output_dir == PathBuf::from("output")
}

fn stream(id: &str, sound: bool, pictures: bool, quality: f64, rate: f64, height: u32) -> Format {
    Format {
        format: format!("{} - stream", id),
        format_id: id.to_string(),
        format_note: None,
        protocol: Protocol::Https,
        language: None,
        has_drm: None,
        container: None,
        codec_info: CodecInfo {
            audio_codec: if sound { Some("opus".to_string()) } else { None },
            video_codec: if pictures { Some("vp9".to_string()) } else { None },
            audio_ext: Default::default(),
            video_ext: Default::default(),
            audio_channels: if sound { Some(2) } else { None },
            asr: if sound { Some(48000) } else { None },
        },
        video_resolution: VideoResolution {
            width: None,
            height: if pictures { Some(height) } else { None },
            resolution: None,
            fps: None,
            aspect_ratio: None,
        },
        download_info: DownloadInfo {
            url: None,
            ext: Default::default(),
            http_headers: HttpHeaders {
                user_agent: String::new(),
                accept: String::new(),
                accept_language: String::new(),
                sec_fetch_mode: String::new(),
            },
            manifest_url: None,
            downloader_options: None,
        },
        quality_info: QualityInfo { quality: Some(quality.into()), dynamic_range: None },
        file_info: FileInfo { filesize_approx: None, filesize: None },
        storyboard_info: StoryboardInfo { rows: None, columns: None, fragments: None },
        rates_info: RatesInfo {
            video_rate: if pictures { Some(rate.into()) } else { None },
            audio_rate: if sound { Some(rate.into()) } else { None },
            total_rate: None,
        },
        video_id: None,
    }
}

fn source(formats: Vec<Format>) -> Video {
    Video {
        id: "abc".to_string(),
        title: "A title".to_string(),
        thumbnail: String::new(),
        description: String::new(),
        availability: "public".to_string(),
        upload_date: 0,
        view_count: 0,
        like_count: None,
        comment_count: None,
        channel: String::new(),
        channel_id: String::new(),
        channel_url: String::new(),
        channel_follower_count: None,
        formats,
        thumbnails: Vec::new(),
        automatic_captions: HashMap::new(),
        tags: Vec::new(),
        categories: Vec::new(),
        age_limit: 0,
        has_drm: None,
        live_status: "not_live".to_string(),
        playable_in_embed: true,
        extractor_info: ExtractorInfo {
            extractor: "youtube".to_string(),
            extractor_key: "Youtube".to_string(),
        },
        version: Version {
            version: "2025.01.01".to_string(),
            current_git_head: None,
            release_git_head: None,
            repository: "yt-dlp/yt-dlp".to_string(),
        },
    }
}

fn mixed_source() -> Video {
    source(vec![
        stream("sound-mid", true, false, 2.0, 64.0, 0),
        stream("pictures-high", false, true, 9.0, 4000.0, 1080),
        stream("sound-best", true, false, 3.0, 128.0, 0),
        stream("both-top", true, true, 10.0, 9000.0, 2160),
        stream("pictures-worst", false, true, 1.0, 100.0, 144),
        stream("sound-low", true, false, 1.0, 48.0, 0),
        stream("pictures-mid", false, true, 5.0, 1500.0, 480),
    ])
}

fn is_finish(job: &Download, expected: bool) -> bool {
    matches!(job.action(), Action::Finish { success } if success == expected)
        && job.outcome() == Some(expected)
}

fn job_at_fetch() -> Download {
    let mut job = download_video("https://youtu.be/abc", "output", "a.mp4");
    job.advance(Event::Opened(client("mine")));
    job
}

fn job_at_audio() -> Download {
    let mut job = job_at_fetch();
    job.advance(Event::Described(mixed_source()));
    job
}

fn job_at_video() -> Download {
    let mut job = job_at_audio();
    job.advance(Event::Completed);
    job
}

fn job_at_combine() -> Download {
    let mut job = job_at_video();
    job.advance(Event::Completed);
    job
}

fn job_at_cleaning() -> Download {
    let mut job = job_at_combine();
    job.advance(Event::Completed);
    job
}

#[test]
fn the_fixed_names_are_as_documented() {
    assert_eq!(LIBRARIES_DIR, "libs");
    assert_eq!(TIMEOUT_SECS, 6000);
    assert_eq!(TEMP_AUDIO, "temp_audio.mp3");
    assert_eq!(TEMP_VIDEO, "temp_video.mp4");
}

#[test]
fn a_download_runs_its_steps_in_order() {
    let mut job = download_video("https://www.youtube.com/watch?v=abc", "output", "my-video.mp4");
    assert_eq!(job.outcome(), None);
    match job.action() {
        Action::OpenClient { libraries_dir, output_dir } => {
            assert_eq!(libraries_dir, "libs");
            assert_eq!(output_dir, "output");
        }
        _ => panic!("expected the client to be opened"),
    }

    job.advance(Event::Opened(client("mine")));
    match job.action() {
        Action::FetchInfo { client, url } => {
            assert!(is_limited(client, "mine"));
            assert_eq!(url, "https://www.youtube.com/watch?v=abc");
        }
        _ => panic!("expected the description to be fetched"),
    }

    job.advance(Event::Described(mixed_source()));
    match job.action() {
        Action::DownloadFormat { client, format, file } => {
            assert!(is_limited(client, "mine"));
            assert_eq!(format.format_id, "sound-best");
            assert_eq!(file, "temp_audio.mp3");
        }
        _ => panic!("expected the sound stream to be downloaded"),
    }

    job.advance(Event::Completed);
    match job.action() {
        Action::DownloadFormat { client, format, file } => {
            assert!(is_limited(client, "mine"));
            assert_eq!(format.format_id, "pictures-worst");
            assert_eq!(file, "temp_video.mp4");
        }
        _ => panic!("expected the picture stream to be downloaded"),
    }

    job.advance(Event::Completed);
    match job.action() {
        Action::Combine { client, audio_file, video_file, output_file } => {
            assert!(is_limited(client, "mine"));
            assert_eq!(audio_file, "temp_audio.mp3");
            assert_eq!(video_file, "temp_video.mp4");
            assert_eq!(output_file, "my-video.mp4");
        }
        _ => panic!("expected the two files to be combined"),
    }

    job.advance(Event::Completed);
    assert_eq!(job.outcome(), None);
    match job.action() {
        Action::RemoveFiles { audio_file, video_file } => {
            assert_eq!(audio_file, "temp_audio.mp3");
            assert_eq!(video_file, "temp_video.mp4");
        }
        _ => panic!("expected the temporary files to be removed"),
    }

    job.advance(Event::Completed);
    assert!(is_finish(&job, true));
}

#[test]
fn the_client_is_given_the_time_limit_when_it_is_open() {
    let opened = client("mine");
    assert_eq!(opened.timeout, Duration::from_secs(30));
    let mut job = download_video("https://youtu.be/abc", "output", "a.mp4");
    job.advance(Event::Opened(opened));
    match job.action() {
        Action::FetchInfo { client, .. } => {
            assert_eq!(client.timeout, Duration::from_secs(6000));
            assert_eq!(client.args, vec!["mine".to_string()]);
            assert_eq!(client.output_dir, PathBuf::from("output"));
            assert_eq!(client.libraries.youtube, PathBuf::from("libs/yt-dlp"));
            assert_eq!(client.libraries.ffmpeg, PathBuf::from("libs/ffmpeg"));
        }
        _ => panic!("expected the description to be fetched"),
    }
}

#[test]
fn the_same_step_is_asked_until_it_is_reported() {
    let job = job_at_fetch();
    for _ in 0..3 {
        match job.action() {
            Action::FetchInfo { url, .. } => assert_eq!(url, "https://youtu.be/abc"),
            _ => panic!("expected the description to be fetched"),
        }
    }
}

#[test]
fn the_best_sound_stream_is_picked_wherever_it_stands() {
    let orders: Vec<Vec<&str>> = vec![
        vec!["sound-best", "sound-low", "sound-mid"],
        vec!["sound-low", "sound-best", "sound-mid"],
        vec!["sound-low", "sound-mid", "sound-best"],
    ];
    for order in orders {
        let mut formats = vec![stream("pictures", false, true, 1.0, 1.0, 144)];
        for id in order {
            let quality = match id {
                "sound-best" => 3.0,
                "sound-mid" => 2.0,
                _ => 1.0,
            };
            formats.push(stream(id, true, false, quality, 64.0, 0));
        }
        let mut job = job_at_fetch();
        job.advance(Event::Described(source(formats)));
        match job.action() {
            Action::DownloadFormat { format, file, .. } => {
                assert_eq!(format.format_id, "sound-best");
                assert_eq!(file, "temp_audio.mp3");
            }
            _ => panic!("expected the sound stream to be downloaded"),
        }
    }
}

#[test]
fn the_worst_picture_stream_is_picked_wherever_it_stands() {
    let orders: Vec<Vec<&str>> = vec![
        vec!["pictures-worst", "pictures-high", "pictures-mid"],
        vec!["pictures-high", "pictures-worst", "pictures-mid"],
        vec!["pictures-high", "pictures-mid", "pictures-worst"],
    ];
    for order in orders {
        let mut formats = vec![stream("sound", true, false, 1.0, 1.0, 0)];
        for id in order {
            let (quality, height) = match id {
                "pictures-worst" => (1.0, 144),
                "pictures-mid" => (5.0, 480),
                _ => (9.0, 1080),
            };
            formats.push(stream(id, false, true, quality, 1000.0, height));
        }
        let mut job = job_at_fetch();
        job.advance(Event::Described(source(formats)));
        job.advance(Event::Completed);
        match job.action() {
            Action::DownloadFormat { format, file, .. } => {
                assert_eq!(format.format_id, "pictures-worst");
                assert_eq!(file, "temp_video.mp4");
            }
            _ => panic!("expected the picture stream to be downloaded"),
        }
    }
}

#[test]
fn sound_rate_breaks_a_tie_in_quality() {
    let mut job = job_at_fetch();
    job.advance(Event::Described(source(vec![
        stream("sound-64", true, false, 2.0, 64.0, 0),
        stream("sound-160", true, false, 2.0, 160.0, 0),
        stream("sound-128", true, false, 2.0, 128.0, 0),
        stream("pictures", false, true, 1.0, 1.0, 144),
    ])));
    match job.action() {
        Action::DownloadFormat { format, .. } => assert_eq!(format.format_id, "sound-160"),
        _ => panic!("expected the sound stream to be downloaded"),
    }
}

#[test]
fn picture_height_breaks_a_tie_in_quality() {
    let mut job = job_at_fetch();
    job.advance(Event::Described(source(vec![
        stream("sound", true, false, 1.0, 1.0, 0),
        stream("pictures-480", false, true, 2.0, 1.0, 480),
        stream("pictures-144", false, true, 2.0, 1.0, 144),
        stream("pictures-1080", false, true, 2.0, 1.0, 1080),
    ])));
    job.advance(Event::Completed);
    match job.action() {
        Action::DownloadFormat { format, .. } => assert_eq!(format.format_id, "pictures-144"),
        _ => panic!("expected the picture stream to be downloaded"),
    }
}

#[test]
fn a_stream_with_sound_and_pictures_is_never_picked() {
    let mut job = job_at_fetch();
    job.advance(Event::Described(source(vec![
        stream("both-top", true, true, 10.0, 9000.0, 2160),
        stream("both-low", true, true, 0.0, 1.0, 1),
    ])));
    assert!(is_finish(&job, false));
}

#[test]
fn a_failure_to_open_the_client_ends_the_download() {
    let mut job = download_video("https://youtu.be/abc", "output", "a.mp4");
    job.advance(Event::Failed);
    assert!(is_finish(&job, false));
}

#[test]
fn a_failure_to_fetch_ends_the_download() {
    let mut job = job_at_fetch();
    job.advance(Event::Failed);
    assert!(is_finish(&job, false));
}

#[test]
fn a_failure_to_download_sound_ends_the_download() {
    let mut job = job_at_audio();
    job.advance(Event::Failed);
    assert!(is_finish(&job, false));
}

#[test]
fn a_failure_to_download_pictures_ends_the_download() {
    let mut job = job_at_video();
    job.advance(Event::Failed);
    assert!(is_finish(&job, false));
}

#[test]
fn a_failure_to_combine_ends_the_download() {
    let mut job = job_at_combine();
    job.advance(Event::Failed);
    assert!(is_finish(&job, false));
}

#[test]
fn a_failure_to_remove_the_files_is_ignored() {
    let mut job = job_at_cleaning();
    job.advance(Event::Failed);
    assert!(is_finish(&job, true));
}

#[test]
fn a_source_without_sound_ends_the_download_before_any_transfer() {
    let mut job = job_at_fetch();
    job.advance(Event::Described(source(vec![stream("pictures", false, true, 1.0, 1.0, 144)])));
    assert!(is_finish(&job, false));
}

#[test]
fn a_source_without_streams_ends_the_download() {
    let mut job = job_at_fetch();
    job.advance(Event::Described(source(Vec::new())));
    assert!(is_finish(&job, false));
}

#[test]
fn a_source_without_pictures_ends_the_download_after_the_sound() {
    let mut job = job_at_fetch();
    job.advance(Event::Described(source(vec![stream("sound", true, false, 1.0, 1.0, 0)])));
    match job.action() {
        Action::DownloadFormat { format, file, .. } => {
            assert_eq!(format.format_id, "sound");
            assert_eq!(file, "temp_audio.mp3");
        }
        _ => panic!("expected the sound stream to be downloaded"),
    }
    job.advance(Event::Completed);
    assert!(is_finish(&job, false));
}

#[test]
fn a_report_that_does_not_answer_the_opening_ends_the_download() {
    let mut job = download_video("https://youtu.be/abc", "output", "a.mp4");
    job.advance(Event::Completed);
    assert!(is_finish(&job, false));

    let mut job = download_video("https://youtu.be/abc", "output", "a.mp4");
    job.advance(Event::Described(mixed_source()));
    assert!(is_finish(&job, false));
}

#[test]
fn a_report_that_does_not_answer_the_fetch_ends_the_download() {
    let mut job = job_at_fetch();
    job.advance(Event::Completed);
    assert!(is_finish(&job, false));

    let mut job = job_at_fetch();
    job.advance(Event::Opened(client("other")));
    assert!(is_finish(&job, false));
}

#[test]
fn a_report_that_does_not_answer_a_later_step_ends_the_download() {
    let mut job = job_at_audio();
    job.advance(Event::Described(mixed_source()));
    assert!(is_finish(&job, false));

    let mut job = job_at_audio();
    job.advance(Event::Opened(client("other")));
    assert!(is_finish(&job, false));

    let mut job = job_at_video();
    job.advance(Event::Described(mixed_source()));
    assert!(is_finish(&job, false));

    let mut job = job_at_combine();
    job.advance(Event::Opened(client("other")));
    assert!(is_finish(&job, false));
}

#[test]
fn an_ended_download_stays_as_it_ended() {
    let mut job = job_at_cleaning();
    job.advance(Event::Completed);
    assert!(is_finish(&job, true));
    job.advance(Event::Failed);
    assert!(is_finish(&job, true));
    job.advance(Event::Described(mixed_source()));
    assert!(is_finish(&job, true));
    job.advance(Event::Opened(client("other")));
    assert!(is_finish(&job, true));

    let mut job = job_at_fetch();
    job.advance(Event::Failed);
    job.advance(Event::Completed);
    assert!(is_finish(&job, false));
    job.advance(Event::Described(mixed_source()));
    assert!(is_finish(&job, false));
    job.advance(Event::Opened(client("other")));
    assert!(is_finish(&job, false));
}

#[test]
fn empty_fields_are_handed_on_as_they_are() {
    let mut job = download_video("", "", "");
    match job.action() {
        Action::OpenClient { libraries_dir, output_dir } => {
            assert_eq!(libraries_dir, "libs");
            assert_eq!(output_dir, "");
        }
        _ => panic!("expected the client to be opened"),
    }
    job.advance(Event::Opened(client("mine")));
    match job.action() {
        Action::FetchInfo { url, .. } => assert_eq!(url, ""),
        _ => panic!("expected the description to be fetched"),
    }
    job.advance(Event::Described(mixed_source()));
    job.advance(Event::Completed);
    job.advance(Event::Completed);
    match job.action() {
        Action::Combine { output_file, .. } => assert_eq!(output_file, ""),
        _ => panic!("expected the two files to be combined"),
    }
}

#[test]
fn begin_fetch_takes_the_client_it_is_given() {
    match begin_fetch(client("given")) {
        Phase::Fetching { client } => {
            assert_eq!(client.args, vec!["given".to_string()]);
            assert_eq!(client.timeout, Duration::from_secs(30));
        }
        _ => panic!("expected the fetch of the description"),
    }
}

#[test]
fn begin_audio_takes_the_stream_it_is_given() {
    let given = stream("given", true, false, 0.0, 0.0, 0);
    match begin_audio(client("mine"), mixed_source(), Some(given)) {
        Phase::DownloadingAudio { client, video, format } => {
            assert_eq!(client.args, vec!["mine".to_string()]);
            assert_eq!(format.format_id, "given");
            assert_eq!(video.formats.len(), 7);
        }
        _ => panic!("expected the download of the sound stream"),
    }
    assert!(matches!(
        begin_audio(client("mine"), mixed_source(), None),
        Phase::Finished { success: false }
    ));
}

#[test]
fn begin_video_takes_the_stream_it_is_given() {
    let given = stream("given", false, true, 0.0, 0.0, 1);
    match begin_video(client("mine"), Some(given)) {
        Phase::DownloadingVideo { client, format } => {
            assert_eq!(client.args, vec!["mine".to_string()]);
            assert_eq!(format.format_id, "given");
        }
        _ => panic!("expected the download of the picture stream"),
    }
    assert!(matches!(begin_video(client("mine"), None), Phase::Finished { success: false }));
}

#[test]
fn advance_phase_walks_the_phases() {
    match advance_phase(Phase::Opening, Event::Opened(client("mine"))) {
        Phase::Fetching { client } => assert!(is_limited(&client, "mine")),
        _ => panic!("expected the fetch of the description"),
    }
    assert!(matches!(
        advance_phase(Phase::Opening, Event::Failed),
        Phase::Finished { success: false }
    ));
    let at_fetch = Phase::Fetching { client: client("mine") };
    match advance_phase(at_fetch, Event::Described(mixed_source())) {
        Phase::DownloadingAudio { format, .. } => assert_eq!(format.format_id, "sound-best"),
        _ => panic!("expected the download of the sound stream"),
    }
    let at_audio = Phase::DownloadingAudio {
        client: client("mine"),
        video: mixed_source(),
        format: stream("any", true, false, 0.0, 0.0, 0),
    };
    match advance_phase(at_audio, Event::Completed) {
        Phase::DownloadingVideo { format, .. } => assert_eq!(format.format_id, "pictures-worst"),
        _ => panic!("expected the download of the picture stream"),
    }
    let at_video = Phase::DownloadingVideo {
        client: client("mine"),
        format: stream("any", false, true, 0.0, 0.0, 1),
    };
    match advance_phase(at_video, Event::Completed) {
        Phase::Combining { client } => assert_eq!(client.args, vec!["mine".to_string()]),
        _ => panic!("expected the combination of the two files"),
    }
    let at_combine = Phase::Combining { client: client("mine") };
    assert!(matches!(advance_phase(at_combine, Event::Completed), Phase::Cleaning));
    assert!(matches!(
        advance_phase(Phase::Cleaning, Event::Completed),
        Phase::Finished { success: true }
    ));
    assert!(matches!(
        advance_phase(Phase::Cleaning, Event::Failed),
        Phase::Finished { success: true }
    ));
    assert!(matches!(
        advance_phase(Phase::Finished { success: false }, Event::Completed),
        Phase::Finished { success: false }
    ));
    assert!(matches!(
        advance_phase(Phase::Finished { success: true }, Event::Failed),
        Phase::Finished { success: true }
    ));
}
