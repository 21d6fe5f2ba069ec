use media_convert::command::{build_args, build_probe_args, burn_in_filter, crf_value, scale_filter};
use media_convert::options::{ResolutionOptions, SubtitleFormat, SubtitleOptions, VideoFormat, VideoOptions};
use media_convert::text::{decimal_string, escape_backslashes, greeting, same_text};

fn plain(format: VideoFormat) -> VideoOptions {
    VideoOptions {
        format,
        quality: None,
        output_directory: None,
        resolution: None,
        bitrate: None,
        codec: None,
        subtitle: None,
        audio_codec: None,
    }
}

fn value_after(args: &[String], flag: &str) -> Vec<String> {
    let mut r = Vec::new();
    let mut i = 0;
    while i + 1 < args.len() {
        if args[i] == flag {
            r.push(args[i + 1].clone());
        }
        i += 1;
    }
    r
}

#[test]
fn default_mp4_command() {
    let args = build_args("/in/clip.mov", &plain(VideoFormat::Mp4), "/in/clip.mp4");
    let expected = vec![
        "-i", "/in/clip.mov", "-c:v", "libx264", "-c:a", "aac", "-movflags", "+faststart", "-y",
        "/in/clip.mp4",
    ];
    assert_eq!(args, expected);
}

#[test]
fn webm_has_no_faststart() {
    let mut o = plain(VideoFormat::Webm);
    o.codec = Some("libvpx-vp9".to_string());
    o.audio_codec = Some("libopus".to_string());
    o.bitrate = Some("5M".to_string());
    let args = build_args("a.mkv", &o, "a.webm");
    let expected = vec![
        "-i", "a.mkv", "-c:v", "libvpx-vp9", "-c:a", "libopus", "-b:v", "5M", "-y", "a.webm",
    ];
    assert_eq!(args, expected);
}

#[test]
fn crf_follows_quality_presets() {
    for (q, crf) in [(360u16, "28"), (480, "26"), (720, "23"), (1080, "20")] {
        let mut o = plain(VideoFormat::Mkv);
        o.quality = Some(q);
        let args = build_args("a.mp4", &o, "a.mkv");
        assert_eq!(value_after(&args, "-crf"), vec![crf.to_string()]);
        assert_eq!(args[4], "-crf");
        assert_eq!(crf_value(Some(q)), Some(crf));
    }
}

#[test]
fn crf_absent_for_other_presets() {
    for q in [None, Some(0u16), Some(540), Some(2160)] {
        let mut o = plain(VideoFormat::Mp4);
        o.quality = q;
        let args = build_args("a.mp4", &o, "b.mp4");
        assert!(!args.iter().any(|a| a == "-crf"));
        assert_eq!(crf_value(q), None);
    }
}

#[test]
fn scale_filter_cases() {
    let both = Some(ResolutionOptions { width: Some(1280), height: Some(720) });
    let width = Some(ResolutionOptions { width: Some(640), height: None });
    let height = Some(ResolutionOptions { width: None, height: Some(480) });
    let neither = Some(ResolutionOptions { width: None, height: None });
    assert_eq!(scale_filter(&both), Some("scale=1280:720".to_string()));
    assert_eq!(scale_filter(&width), Some("scale=640:-2".to_string()));
    assert_eq!(scale_filter(&height), Some("scale=-2:480".to_string()));
    assert_eq!(scale_filter(&neither), None);
    assert_eq!(scale_filter(&None), None);
}

#[test]
fn scale_filter_in_command() {
    let mut o = plain(VideoFormat::Avi);
    o.resolution = Some(ResolutionOptions { width: Some(1920), height: None });
    let args = build_args("a.mp4", &o, "a.avi");
    assert_eq!(value_after(&args, "-vf"), vec!["scale=1920:-2".to_string()]);
    o.resolution = Some(ResolutionOptions { width: None, height: None });
    let args = build_args("a.mp4", &o, "a.avi");
    assert!(value_after(&args, "-vf").is_empty());
}

#[test]
fn round_trip_of_codecs_and_bitrate() {
    let mut o = plain(VideoFormat::Mp4);
    o.codec = Some("libx265".to_string());
    o.audio_codec = Some("libmp3lame".to_string());
    o.bitrate = Some("2500k".to_string());
    let args = build_args("in.mov", &o, "out.mp4");
    assert_eq!(value_after(&args, "-c:v"), vec!["libx265".to_string()]);
    assert_eq!(value_after(&args, "-c:a"), vec!["libmp3lame".to_string()]);
    assert_eq!(value_after(&args, "-b:v"), vec!["2500k".to_string()]);
    assert_eq!(value_after(&args, "-movflags"), vec!["+faststart".to_string()]);
}

#[test]
fn builder_is_idempotent() {
    let mut o = plain(VideoFormat::Mkv);
    o.quality = Some(720);
    o.resolution = Some(ResolutionOptions { width: Some(100), height: Some(50) });
    o.subtitle = Some(SubtitleOptions {
        path: Some("s.srt".to_string()),
        format: Some(SubtitleFormat::Srt),
        burn_in: false,
        force_style: None,
    });
    let first = build_args("x.mp4", &o, "x.mkv");
    let second = build_args("x.mp4", &o, "x.mkv");
    assert_eq!(first, second);
}

#[test]
fn soft_subtitles_are_muxed() {
    let mut o = plain(VideoFormat::Mp4);
    o.subtitle = Some(SubtitleOptions {
        path: Some("/subs/a.srt".to_string()),
        format: Some(SubtitleFormat::Srt),
        burn_in: false,
        force_style: None,
    });
    let args = build_args("v.mkv", &o, "v.mp4");
    let expected = vec![
        "-i", "v.mkv", "-c:v", "libx264", "-i", "/subs/a.srt", "-c:s", "mov_text", "-map", "0",
        "-map", "1", "-c:a", "aac", "-movflags", "+faststart", "-y", "v.mp4",
    ];
    assert_eq!(args, expected);
}

#[test]
fn subtitles_without_path_are_ignored() {
    let mut o = plain(VideoFormat::Webm);
    o.subtitle = Some(SubtitleOptions {
        path: None,
        format: Some(SubtitleFormat::Ass),
        burn_in: true,
        force_style: Some("FontSize=24".to_string()),
    });
    let with_sub = build_args("v.mkv", &o, "v.webm");
    let without = build_args("v.mkv", &plain(VideoFormat::Webm), "v.webm");
    assert_eq!(with_sub, without);
}

#[test]
fn burn_in_filters() {
    let style = Some("FontSize=24".to_string());
    assert_eq!(
        burn_in_filter("/s/a.ass", Some(SubtitleFormat::Ass), &style),
        "ass='/s/a.ass':force_style='FontSize=24'"
    );
    assert_eq!(burn_in_filter("/s/a.ass", Some(SubtitleFormat::Ass), &None), "ass='/s/a.ass'");
    assert_eq!(burn_in_filter("/s/a.vtt", Some(SubtitleFormat::Vtt), &style), "subtitles='/s/a.vtt'");
    assert_eq!(burn_in_filter("/s/a.srt", None, &None), "subtitles='/s/a.srt'");
}

#[test]
fn burn_in_path_backslashes_are_doubled() {
    assert_eq!(
        burn_in_filter("C:\\subs\\movie.srt", Some(SubtitleFormat::Srt), &None),
        "subtitles='C:\\\\subs\\\\movie.srt'"
    );
    assert_eq!(escape_backslashes("a\\b"), "a\\\\b");
    assert_eq!(escape_backslashes("plain"), "plain");
    assert_eq!(escape_backslashes(""), "");
}

#[test]
fn burn_in_filter_wins_over_scale() {
    let mut o = plain(VideoFormat::Mp4);
    o.resolution = Some(ResolutionOptions { width: Some(640), height: Some(360) });
    o.subtitle = Some(SubtitleOptions {
        path: Some("C:\\s\\a.ass".to_string()),
        format: Some(SubtitleFormat::Ass),
        burn_in: true,
        force_style: None,
    });
    let args = build_args("v.mp4", &o, "w.mp4");
    assert_eq!(
        value_after(&args, "-vf"),
        vec!["scale=640:360".to_string(), "ass='C:\\\\s\\\\a.ass'".to_string()]
    );
}

#[test]
fn format_names() {
    assert_eq!(VideoFormat::from_name("mp4"), VideoFormat::Mp4);
    assert_eq!(VideoFormat::from_name("webm"), VideoFormat::Webm);
    assert_eq!(VideoFormat::from_name("mkv"), VideoFormat::Mkv);
    assert_eq!(VideoFormat::from_name("avi"), VideoFormat::Avi);
    assert_eq!(VideoFormat::from_name("mov"), VideoFormat::Mp4);
    assert_eq!(VideoFormat::Webm.extension(), "webm");
    assert_eq!(SubtitleFormat::from_name("ass"), Some(SubtitleFormat::Ass));
    assert_eq!(SubtitleFormat::from_name("srt"), Some(SubtitleFormat::Srt));
    assert_eq!(SubtitleFormat::from_name("vtt"), Some(SubtitleFormat::Vtt));
    assert_eq!(SubtitleFormat::from_name("sub"), None);
}

#[test]
fn unknown_format_gets_faststart() {
    let o = plain(VideoFormat::from_name("mov"));
    let args = build_args("a.mkv", &o, "a.mp4");
    assert_eq!(value_after(&args, "-movflags"), vec!["+faststart".to_string()]);
}

#[test]
fn decimal_text() {
    assert_eq!(decimal_string(0), "0");
    assert_eq!(decimal_string(7), "7");
    assert_eq!(decimal_string(1080), "1080");
    assert_eq!(decimal_string(u32::MAX), "4294967295");
    assert!(same_text("abc", "abc"));
    assert!(!same_text("abc", "abd"));
    assert!(!same_text("ab", "abc"));
}

#[test]
fn probe_arguments() {
    let args = build_probe_args("/v/a.mp4");
    let expected = vec![
        "-v", "error", "-show_entries", "format=duration", "-of",
        "default=noprint_wrappers=1:nokey=1", "/v/a.mp4",
    ];
    assert_eq!(args, expected);
}

#[test]
fn greeting_text() {
    assert_eq!(greeting("Ada"), "Hello, Ada! You've been greeted from Rust!");
}
