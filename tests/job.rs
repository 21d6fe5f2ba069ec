use media_convert::cancel::CancelSignal;
use media_convert::error::JobError;
use media_convert::image::{image_encoding, image_extension, resize_plan, ImageEncoding, ResizePlan};
use media_convert::job::{ConversionJob, JobOutcome, JobPhase, LineAction, ProcessEnd};
use media_convert::options::{VideoFormat, VideoOptions};
use media_convert::output::{plan_output, resolve_image_output_path, resolve_output_path};
use media_convert::progress::ProgressEvent;

fn options(format: VideoFormat) -> VideoOptions {
    VideoOptions {
        format,
        quality: None,
        output_directory: None,
        resolution: None,
        bitrate: None,
        codec: None,
        subtitle: None,
        audio_codec: None,
    }
}

fn running_job() -> ConversionJob {
    ConversionJob::start("/videos/clip.mov", &options(VideoFormat::Mp4), Ok(())).unwrap()
}

#[test]
fn start_resolves_output_and_arguments() {
    let job = ConversionJob::start("/videos/clip.mov", &options(VideoFormat::Webm), Ok(())).unwrap();
    assert_eq!(job.phase(), JobPhase::Running);
    assert_eq!(job.output_path(), "/videos/clip.webm");
    let expected = vec!["-i", "/videos/clip.mov", "-c:v", "libx264", "-c:a", "aac", "-y", "/videos/clip.webm"];
    assert_eq!(job.args(), &expected);
    assert_eq!(job.progress().current_millis(), 0);
}

#[test]
fn start_uses_requested_directory() {
    let mut o = options(VideoFormat::Mkv);
    o.output_directory = Some("/out".to_string());
    let job = ConversionJob::start("/videos/clip.mov", &o, Ok(())).unwrap();
    assert_eq!(job.output_path(), "/out/clip.mkv");
}

#[test]
fn missing_encoder_fails_first() {
    let r = ConversionJob::start("", &options(VideoFormat::Mp4), Err("offline".to_string()));
    assert!(matches!(r, Err(JobError::PrerequisiteMissing(ref m)) if m == "offline"));
}

#[test]
fn empty_input_is_invalid_path() {
    let r = ConversionJob::start("", &options(VideoFormat::Mp4), Ok(()));
    assert!(matches!(r, Err(JobError::InvalidPath)));
    let r = ConversionJob::start("/", &options(VideoFormat::Mp4), Ok(()));
    assert!(matches!(r, Err(JobError::InvalidPath)));
    assert!(matches!(resolve_output_path("/", &None, "mp4"), Err(JobError::InvalidPath)));
}

#[test]
fn cancel_ends_job_mid_way() {
    let mut job = running_job();
    assert!(matches!(job.on_line("Duration: 00:10:00.00, start: 0.0", false), LineAction::Continue));
    assert!(matches!(job.on_line("frame=9 time=00:05:00.00 bitrate=1", false), LineAction::Report(_)));
    let signal = CancelSignal::new();
    assert!(signal.request());
    let action = job.on_line("frame=10 time=00:05:01.00 bitrate=1", signal.is_requested());
    assert!(matches!(action, LineAction::Cancel));
    assert_eq!(job.phase(), JobPhase::Cancelled);
    assert_eq!(job.progress().current_millis(), 300_000);
}

#[test]
fn lines_report_progress() {
    let mut job = running_job();
    job.on_line("  Duration: 00:01:30.00, start: 0.0", false);
    match job.on_line("frame=1 time=00:00:45.00 bitrate=1", false) {
        LineAction::Report(e) => assert_eq!(
            e,
            ProgressEvent { current_ms: 45_000, total_ms: 90_000, percent_hundredths: 5_000 }
        ),
        other => panic!("unexpected {:?}", other),
    }
}

#[test]
fn zero_exit_without_output_is_output_missing() {
    let mut job = running_job();
    let r = job.on_exit(ProcessEnd::Exited { success: true, code: Some(0) }, false);
    assert!(matches!(r, JobOutcome::Failed(JobError::OutputMissing)));
    assert_eq!(job.phase(), JobPhase::Failed);
}

#[test]
fn failing_exit_is_encoding_failure_even_with_output() {
    let mut job = running_job();
    let r = job.on_exit(ProcessEnd::Exited { success: false, code: Some(1) }, true);
    assert!(matches!(r, JobOutcome::Failed(JobError::EncodingFailure(Some(1)))));
    let mut job = running_job();
    let r = job.on_exit(ProcessEnd::Exited { success: false, code: None }, false);
    assert!(matches!(r, JobOutcome::Failed(JobError::EncodingFailure(None))));
}

#[test]
fn zero_exit_with_output_completes() {
    let mut job = running_job();
    let r = job.on_exit(ProcessEnd::Exited { success: true, code: Some(0) }, true);
    assert!(matches!(r, JobOutcome::Completed(ref p) if p == "/videos/clip.mp4"));
    assert_eq!(job.phase(), JobPhase::Completed);
}

#[test]
fn spawn_and_wait_failures() {
    let mut job = running_job();
    let r = job.on_spawn_failure("not found".to_string());
    assert!(matches!(r, JobOutcome::Failed(JobError::SpawnFailure(ref m)) if m == "not found"));
    let mut job = running_job();
    let r = job.on_exit(ProcessEnd::WaitFailed("interrupted".to_string()), true);
    assert!(matches!(r, JobOutcome::Failed(JobError::WaitFailure(_))));
}

#[test]
fn cancel_signal_lifecycle() {
    let s = CancelSignal::new();
    assert!(!s.is_requested());
    assert!(s.request());
    assert!(s.is_requested());
    s.clear();
    assert!(!s.is_requested());
}

#[test]
fn output_plans() {
    let plan = plan_output(Some("/a".to_string()), Some("b".to_string()), &None, "mkv").unwrap();
    assert_eq!(plan.directory, "/a");
    assert_eq!(plan.stem, "b");
    assert_eq!(plan.extension, "mkv");
    let plan = plan_output(Some("/a".to_string()), Some("b".to_string()), &Some("/c".to_string()), "avi")
        .unwrap();
    assert_eq!(plan.directory, "/c");
    assert!(matches!(plan_output(None, Some("b".to_string()), &None, "mp4"), Err(JobError::InvalidPath)));
    assert!(matches!(plan_output(Some("/a".to_string()), None, &None, "mp4"), Err(JobError::InvalidPath)));
}

#[test]
fn image_choices() {
    assert_eq!(image_extension("jpeg"), "jpg");
    assert_eq!(image_extension("png"), "png");
    assert_eq!(image_extension("tiff"), "tiff");
    assert_eq!(image_extension("gif"), "jpg");
    assert_eq!(image_encoding("jpeg", None), ImageEncoding::Jpeg { quality: 90 });
    assert_eq!(image_encoding("jpg", Some(70)), ImageEncoding::Jpeg { quality: 70 });
    assert_eq!(image_encoding("webp", None), ImageEncoding::WebP);
    assert_eq!(image_encoding("ico", None), ImageEncoding::Ico);
    assert_eq!(image_encoding("gif", Some(10)), ImageEncoding::FallbackJpeg);
    assert_eq!(resize_plan(Some(10), Some(20)), ResizePlan::Exact { width: 10, height: 20 });
    assert_eq!(resize_plan(Some(10), None), ResizePlan::FitWidth(10));
    assert_eq!(resize_plan(None, Some(20)), ResizePlan::FitHeight(20));
    assert_eq!(resize_plan(None, None), ResizePlan::Keep);
}

#[test]
fn output_paths_resolve() {
    assert_eq!(resolve_output_path("/v/clip.mov", &None, "avi").unwrap(), "/v/clip.avi");
    assert_eq!(resolve_output_path("clip.mov", &None, "mkv").unwrap(), "clip.mkv");
    assert_eq!(resolve_output_path("/v/clip", &Some("/o".to_string()), "mp4").unwrap(), "/o/clip.mp4");
    assert_eq!(resolve_output_path("/v/a.b.mov", &None, "mp4").unwrap(), "/v/a.b.mp4");
}

#[test]
fn image_output_path_follows_format() {
    assert_eq!(resolve_image_output_path("/p/photo.png", &None, "jpeg").unwrap(), "/p/photo.jpg");
    assert_eq!(resolve_image_output_path("x/a.b.png", &None, "jpeg").unwrap(), "x/a.jpg");
    assert_eq!(
        resolve_image_output_path("/p/photo.bmp", &Some("/out".to_string()), "webp").unwrap(),
        "/out/photo.webp"
    );
    assert_eq!(resolve_image_output_path("/p/photo.png", &None, "gif").unwrap(), "/p/photo.jpg");
    assert!(matches!(resolve_image_output_path("", &None, "png"), Err(JobError::InvalidPath)));
    assert!(matches!(resolve_image_output_path("/", &None, "png"), Err(JobError::InvalidPath)));
}
