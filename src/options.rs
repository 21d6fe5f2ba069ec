use vstd::prelude::*;
use crate::text::same_text;

verus! {

/// Container the video is written in; it also gives the output extension.
#[derive(PartialEq, Eq, Structural, Clone, Copy, Debug)]
pub enum VideoFormat {
    Mp4,
    Webm,
    Mkv,
    Avi,
}

/// The format a subtitle file is written in.
#[derive(PartialEq, Eq, Structural, Clone, Copy, Debug)]
pub enum SubtitleFormat {
    Srt,
    Ass,
    Vtt,
}

/// Requested output size; an absent side keeps the aspect ratio.
#[derive(Clone, Copy, Debug)]
pub struct ResolutionOptions {
    pub width: Option<u32>,
    pub height: Option<u32>,
}

/// Subtitle settings. Without a `path` they are ignored.
#[derive(Debug)]
pub struct SubtitleOptions {
    pub path: Option<String>,
    pub format: Option<SubtitleFormat>,
    /// Composite the subtitles into the frames instead of adding a track.
    pub burn_in: bool,
    /// Style override, used with ASS subtitles that are burnt in.
    pub force_style: Option<String>,
}

/// Everything a conversion can be asked to do.
#[derive(Debug)]
pub struct VideoOptions {
    pub format: VideoFormat,
    /// Quality preset by vertical resolution: 360, 480, 720 or 1080.
    pub quality: Option<u16>,
    pub output_directory: Option<String>,
    pub resolution: Option<ResolutionOptions>,
    /// Video bitrate as the encoder writes it, such as `5M`.
    pub bitrate: Option<String>,
    /// Video codec; `libx264` when absent.
    pub codec: Option<String>,
    pub subtitle: Option<SubtitleOptions>,
    /// Audio codec; `aac` when absent.
    pub audio_codec: Option<String>,
}

/// The format a name selects: `webm`, `mkv` and `avi` select theirs, and any
/// other name falls back to MP4.
pub open spec fn format_of_name(name: Seq<char>) -> VideoFormat {
    if name == "webm"@ {
        VideoFormat::Webm
    } else if name == "mkv"@ {
        VideoFormat::Mkv
    } else if name == "avi"@ {
        VideoFormat::Avi
    } else {
        VideoFormat::Mp4
    }
}

/// The subtitle format a name selects, if it is one of `srt`, `ass`, `vtt`.
pub open spec fn subtitle_format_of_name(name: Seq<char>) -> Option<SubtitleFormat> {
    if name == "srt"@ {
        Some(SubtitleFormat::Srt)
    } else if name == "ass"@ {
        Some(SubtitleFormat::Ass)
    } else if name == "vtt"@ {
        Some(SubtitleFormat::Vtt)
    } else {
        None
    }
}

impl VideoFormat {
    pub open spec fn spec_extension(self) -> Seq<char> {
        match self {
            VideoFormat::Mp4 => "mp4"@,
            VideoFormat::Webm => "webm"@,
            VideoFormat::Mkv => "mkv"@,
            VideoFormat::Avi => "avi"@,
        }
    }

    /// Reads a format name; unknown names give MP4.
    pub fn from_name(name: &str) -> (r: VideoFormat)
        ensures
            r == format_of_name(name@),
    {
        if same_text(name, "webm") {
            VideoFormat::Webm
        } else if same_text(name, "mkv") {
            VideoFormat::Mkv
        } else if same_text(name, "avi") {
            VideoFormat::Avi
        } else {
            VideoFormat::Mp4
        }
    }

    /// The file extension of the format, without the dot.
    pub fn extension(&self) -> (r: &'static str)
        ensures
            r@ == self.spec_extension(),
    {
        match self {
            VideoFormat::Mp4 => "mp4",
            VideoFormat::Webm => "webm",
            VideoFormat::Mkv => "mkv",
            VideoFormat::Avi => "avi",
        }
    }
}

impl SubtitleFormat {
    /// Reads a subtitle format name; `None` for any name but `srt`, `ass`, `vtt`.
    pub fn from_name(name: &str) -> (r: Option<SubtitleFormat>)
        ensures
            r == subtitle_format_of_name(name@),
    {
        if same_text(name, "srt") {
            Some(SubtitleFormat::Srt)
        } else if same_text(name, "ass") {
            Some(SubtitleFormat::Ass)
        } else if same_text(name, "vtt") {
            Some(SubtitleFormat::Vtt)
        } else {
            None
        }
    }
}

} // verus!
