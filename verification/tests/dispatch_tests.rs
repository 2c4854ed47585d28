use open_imago::dispatch::derive_output_filename;
use open_imago::dispatch::downloader_args;
use open_imago::dispatch::interpret_exit_status;
use open_imago::dispatch::parse_format;
use open_imago::dispatch::plan_download;
use open_imago::dispatch::process_title_output;
use open_imago::dispatch::title_query_args;
use open_imago::dispatch::unzip_args;
use open_imago::dispatch::MediaFormat;
use open_imago::errors::render_code;
use open_imago::errors::DispatchError;
use open_imago::errors::TitleError;
use open_imago::strutil::join_path;

#[test]
fn accepts_mp3_and_mp4() {
    assert_eq!(parse_format("mp3"), Ok(MediaFormat::Mp3));
    assert_eq!(parse_format("mp4"), Ok(MediaFormat::Mp4));
}

#[test]
fn rejects_unsupported_format_with_message() {
    let err = parse_format("mkv").unwrap_err();
    assert_eq!(err, DispatchError::UnsupportedFormat("mkv".to_string()));
    assert_eq!(err.message(), "Unsupported format: mkv");
    assert!(parse_format("").is_err());
    assert!(parse_format("MP3").is_err());
    assert!(parse_format("mp34").is_err());
}

#[test]
fn title_based_filenames_get_the_extension() {
    let title = Some("My Video".to_string());
    assert_eq!(derive_output_filename(MediaFormat::Mp3, &title, "720", "99"), "My Video.mp3");
    assert_eq!(derive_output_filename(MediaFormat::Mp4, &title, "720", "99"), "My Video.mp4");
}

#[test]
fn fallback_filenames_use_the_timestamp() {
    assert_eq!(derive_output_filename(MediaFormat::Mp3, &None, "720", "1700000000"), "audio_1700000000.mp3");
    assert_eq!(derive_output_filename(MediaFormat::Mp4, &None, "720", "1700000000"), "video_720_1700000000.mp4");
}

#[test]
fn fallback_mp4_filename_carries_quality_verbatim() {
    assert_eq!(derive_output_filename(MediaFormat::Mp4, &None, "best", "5"), "video_best_5.mp4");
    assert_eq!(derive_output_filename(MediaFormat::Mp4, &None, "worst", "5"), "video_worst_5.mp4");
    assert_eq!(derive_output_filename(MediaFormat::Mp4, &None, "1080", "5"), "video_1080_5.mp4");
    assert_eq!(derive_output_filename(MediaFormat::Mp4, &None, "4k-ish", "5"), "video_4k-ish_5.mp4");
}

#[test]
fn join_path_inserts_one_separator() {
    assert_eq!(join_path(".", "a.mp3"), "./a.mp3");
    assert_eq!(join_path("out", "a.mp3"), "out/a.mp3");
    assert_eq!(join_path("out/", "a.mp3"), "out/a.mp3");
    assert_eq!(join_path("", "a.mp3"), "a.mp3");
}

#[test]
fn mp3_argument_list_is_exact() {
    let args = downloader_args(MediaFormat::Mp3, "https://example.com/v", "./x.mp3");
    let expected = vec![
        "https://example.com/v",
        "-x",
        "--audio-format",
        "mp3",
        "--audio-quality",
        "0",
        "-o",
        "./x.mp3",
    ];
    assert_eq!(args, expected);
}

#[test]
fn mp4_argument_list_is_exact() {
    let args = downloader_args(MediaFormat::Mp4, "https://example.com/v", "./x.mp4");
    let expected = vec!["https://example.com/v", "-f", "best", "-o", "./x.mp4"];
    assert_eq!(args, expected);
}

#[test]
fn title_query_argument_list_is_exact() {
    let args = title_query_args("https://example.com/v");
    assert_eq!(args, vec!["https://example.com/v", "--print", "title"]);
}

#[test]
fn unzip_argument_list_is_exact() {
    let args = unzip_args("libs/ffmpeg-release.zip", "libs");
    assert_eq!(args, vec!["-o", "libs/ffmpeg-release.zip", "-d", "libs"]);
}

#[test]
fn exit_status_success_is_ok() {
    assert_eq!(interpret_exit_status(true, Some(0)), Ok(()));
}

#[test]
fn exit_status_failure_carries_the_code() {
    let err = interpret_exit_status(false, Some(1)).unwrap_err();
    assert_eq!(err, DispatchError::CommandFailed(Some(1)));
    assert_eq!(err.message(), "yt-dlp command failed with exit code: Some(1)");
    let none_err = interpret_exit_status(false, None).unwrap_err();
    assert_eq!(none_err.message(), "yt-dlp command failed with exit code: None");
}

#[test]
fn render_code_shows_negative_codes() {
    assert_eq!(render_code(&Some(-3)), "Some(-3)");
    assert_eq!(render_code(&Some(0)), "Some(0)");
    assert_eq!(render_code(&None), "None");
}

#[test]
fn title_output_of_failed_query_is_an_error() {
    let err = process_title_output(false, Some(2), "whatever").unwrap_err();
    assert_eq!(err, TitleError::CommandFailed(Some(2)));
    assert_eq!(err.message(), "Failed to get video title, exit code: Some(2)");
}

#[test]
fn blank_title_output_is_an_error() {
    assert_eq!(process_title_output(true, Some(0), "").unwrap_err(), TitleError::EmptyTitle);
    assert_eq!(process_title_output(true, Some(0), " \n\t ").unwrap_err(), TitleError::EmptyTitle);
    assert_eq!(
        TitleError::EmptyTitle.message(),
        "Empty title returned from yt-dlp"
    );
}

#[test]
fn title_output_is_trimmed_and_sanitized() {
    let title = process_title_output(true, Some(0), "  My Video: Part/2  \n").unwrap();
    assert_eq!(title, "My Video_ Part_2");
}

#[test]
fn mp3_plan_for_default_directory() {
    let plan = plan_download(MediaFormat::Mp3, "https://example.com/v", ".", "720", &None, "42");
    assert_eq!(plan.output_filename, "audio_42.mp3");
    assert_eq!(plan.output_path, "./audio_42.mp3");
    assert!(plan.output_path.ends_with(".mp3"));
    let expected = vec![
        "https://example.com/v",
        "-x",
        "--audio-format",
        "mp3",
        "--audio-quality",
        "0",
        "-o",
        "./audio_42.mp3",
    ];
    assert_eq!(plan.args, expected);
}

#[test]
fn mp4_plan_uses_the_title_when_present() {
    let plan = plan_download(
        MediaFormat::Mp4,
        "https://example.com/v",
        "media",
        "best",
        &Some("clip".to_string()),
        "42",
    );
    assert_eq!(plan.output_filename, "clip.mp4");
    assert_eq!(plan.output_path, "media/clip.mp4");
    assert_eq!(plan.args, vec!["https://example.com/v", "-f", "best", "-o", "media/clip.mp4"]);
}

#[test]
fn request_fields_drive_the_plan() {
    let args = open_imago::cli::args::Args {
        url: "https://example.com/v".to_string(),
        format: "mp4".to_string(),
        output_dir: ".".to_string(),
        quality: "720".to_string(),
    };
    let format = parse_format(&args.format).unwrap();
    let plan = plan_download(format, &args.url, &args.output_dir, &args.quality, &None, "7");
    assert_eq!(plan.output_filename, "video_720_7.mp4");
    assert_eq!(plan.output_path, "./video_720_7.mp4");
}
