use vstd::prelude::*;
use vstd::string::StringExecFns;
use crate::options::{ResolutionOptions, SubtitleFormat, SubtitleOptions, VideoFormat, VideoOptions};
use crate::text::{decimal, decimal_string, escape_backslashes, escaped};

verus! {

/// A flag of the encoder together with its value.
pub type ArgPair = (Seq<char>, Seq<char>);

/// The flags and values laid out one after the other.
pub open spec fn flatten(pairs: Seq<ArgPair>) -> Seq<Seq<char>>
    decreases pairs.len(),
{
    if pairs.len() == 0 {
        Seq::empty()
    } else {
        flatten(pairs.drop_last()) + seq![pairs.last().0, pairs.last().1]
    }
}

pub open spec fn video_codec_of(o: VideoOptions) -> Seq<char> {
    match o.codec {
        Some(c) => c@,
        None => "libx264"@,
    }
}

pub open spec fn audio_codec_of(o: VideoOptions) -> Seq<char> {
    match o.audio_codec {
        Some(c) => c@,
        None => "aac"@,
    }
}

/// The constant rate factor of a quality preset; other presets have none.
pub open spec fn crf_of(quality: Option<u16>) -> Option<Seq<char>> {
    match quality {
        Some(q) => if q == 360 {
            Some("28"@)
        } else if q == 480 {
            Some("26"@)
        } else if q == 720 {
            Some("23"@)
        } else if q == 1080 {
            Some("20"@)
        } else {
            None
        },
        None => None,
    }
}

/// The scale filter for the sides given; `-2` keeps the aspect ratio on an
/// even size.
pub open spec fn scale_filter_of(res: Option<ResolutionOptions>) -> Option<Seq<char>> {
    match res {
        Some(r) => match (r.width, r.height) {
            (Some(w), Some(h)) => Some("scale="@ + decimal(w as nat) + ":"@ + decimal(h as nat)),
            (Some(w), None) => Some("scale="@ + decimal(w as nat) + ":-2"@),
            (None, Some(h)) => Some("scale=-2:"@ + decimal(h as nat)),
            (None, None) => None,
        },
        None => None,
    }
}

/// The filter that burns the subtitle file at `path` into the frames.
pub open spec fn burn_in_filter_of(
    path: Seq<char>,
    format: Option<SubtitleFormat>,
    style: Option<Seq<char>>,
) -> Seq<char> {
    let e = escaped(path);
    match (format, style) {
        (Some(SubtitleFormat::Ass), Some(st)) => "ass='"@ + e + "':force_style='"@ + st + "'"@,
        (Some(SubtitleFormat::Ass), None) => "ass='"@ + e + "'"@,
        _ => "subtitles='"@ + e + "'"@,
    }
}

pub open spec fn view_opt(s: Option<String>) -> Option<Seq<char>> {
    match s {
        Some(x) => Some(x@),
        None => None,
    }
}

/// What the subtitle settings add: one video filter when burnt in, else a
/// second input muxed as a text track with both inputs mapped.
pub open spec fn subtitle_pairs(sub: Option<SubtitleOptions>) -> Seq<ArgPair> {
    match sub {
        Some(s) => match s.path {
            Some(p) => if s.burn_in {
                seq![("-vf"@, burn_in_filter_of(p@, s.format, view_opt(s.force_style)))]
            } else {
                seq![("-i"@, p@), ("-c:s"@, "mov_text"@), ("-map"@, "0"@), ("-map"@, "1"@)]
            },
            None => Seq::empty(),
        },
        None => Seq::empty(),
    }
}

/// `pairs` followed by `(flag, v)` where there is a value.
pub open spec fn push_some(pairs: Seq<ArgPair>, flag: Seq<char>, v: Option<Seq<char>>) -> Seq<ArgPair> {
    match v {
        Some(x) => pairs.push((flag, x)),
        None => pairs,
    }
}

/// The flags of a conversion of `input` with options `o`, in order.
pub open spec fn option_pairs(input: Seq<char>, o: VideoOptions) -> Seq<ArgPair> {
    let base = seq![("-i"@, input), ("-c:v"@, video_codec_of(o))];
    let with_crf = push_some(base, "-crf"@, crf_of(o.quality));
    let with_scale = push_some(with_crf, "-vf"@, scale_filter_of(o.resolution));
    let with_sub = with_scale + subtitle_pairs(o.subtitle);
    let with_audio = with_sub.push(("-c:a"@, audio_codec_of(o)));
    let with_rate = push_some(with_audio, "-b:v"@, view_opt(o.bitrate));
    if o.format == VideoFormat::Mp4 {
        with_rate.push(("-movflags"@, "+faststart"@))
    } else {
        with_rate
    }
}

/// The whole argument list of the encoder: the flags, then `-y` and the
/// output path, so that an existing output is overwritten.
pub open spec fn command_args(input: Seq<char>, o: VideoOptions, output: Seq<char>) -> Seq<Seq<char>> {
    flatten(option_pairs(input, o)) + seq!["-y"@, output]
}

pub proof fn lemma_flatten_push(pairs: Seq<ArgPair>, p: ArgPair)
    ensures
        flatten(pairs.push(p)) == flatten(pairs) + seq![p.0, p.1],
{
    assert(pairs.push(p).drop_last() =~= pairs);
}

pub proof fn lemma_flatten_append(a: Seq<ArgPair>, b: Seq<ArgPair>)
    ensures
        flatten(a + b) == flatten(a) + flatten(b),
    decreases b.len(),
{
    if b.len() == 0 {
        assert(a + b =~= a);
        assert(flatten(a) + flatten(b) =~= flatten(a));
    } else {
        lemma_flatten_append(a, b.drop_last());
        assert((a + b).drop_last() =~= a + b.drop_last());
        assert((a + b).last() == b.last());
        assert(flatten(a + b) =~= flatten(a) + flatten(b));
    }
}

fn push_pair(args: &mut Vec<String>, flag: &str, value: String, Ghost(pairs): Ghost<Seq<ArgPair>>)
    requires
        old(args).deep_view() == flatten(pairs),
    ensures
        final(args).deep_view() == flatten(pairs.push((flag@, value@))),
{
    proof {
        lemma_flatten_push(pairs, (flag@, value@));
    }
    args.push(String::from_str(flag));
    args.push(value);
    assert(final(args).deep_view() =~= flatten(pairs.push((flag@, value@))));
}

fn text_or(value: &Option<String>, fallback: &str) -> (r: String)
    ensures
        r@ == match value {
            Some(v) => v@,
            None => fallback@,
        },
{
    match value {
        Some(v) => v.clone(),
        None => String::from_str(fallback),
    }
}

/// The constant rate factor of a quality preset, as `crf_of` gives it.
pub fn crf_value(quality: Option<u16>) -> (r: Option<&'static str>)
    ensures
        match r {
            Some(s) => crf_of(quality) == Some(s@),
            None => crf_of(quality) is None,
        },
{
    match quality {
        Some(360) => Some("28"),
        Some(480) => Some("26"),
        Some(720) => Some("23"),
        Some(1080) => Some("20"),
        _ => None,
    }
}

/// The scale filter for a requested resolution, if it gives any side.
pub fn scale_filter(res: &Option<ResolutionOptions>) -> (r: Option<String>)
    ensures
        view_opt(r) == scale_filter_of(*res),
{
    match res {
        Some(ResolutionOptions { width: Some(w), height: Some(h) }) => Some(
            String::from_str("scale=").concat(decimal_string(*w).as_str()).concat(":").concat(
                decimal_string(*h).as_str(),
            ),
        ),
        Some(ResolutionOptions { width: Some(w), height: None }) => Some(
            String::from_str("scale=").concat(decimal_string(*w).as_str()).concat(":-2"),
        ),
        Some(ResolutionOptions { width: None, height: Some(h) }) => Some(
            String::from_str("scale=-2:").concat(decimal_string(*h).as_str()),
        ),
        _ => None,
    }
}

/// The filter that burns a subtitle file into the frames; backslashes of
/// the path are doubled.
pub fn burn_in_filter(path: &str, format: Option<SubtitleFormat>, style: &Option<String>) -> (r: String)
    ensures
        r@ == burn_in_filter_of(path@, format, view_opt(*style)),
{
    let e = escape_backslashes(path);
    match (format, style) {
        (Some(SubtitleFormat::Ass), Some(st)) => String::from_str("ass='").concat(e.as_str()).concat(
            "':force_style='",
        ).concat(st.as_str()).concat("'"),
        (Some(SubtitleFormat::Ass), None) => String::from_str("ass='").concat(e.as_str()).concat("'"),
        _ => String::from_str("subtitles='").concat(e.as_str()).concat("'"),
    }
}

/// The encoder's arguments for converting `input` into `output` with `options`.
pub fn build_args(input: &str, options: &VideoOptions, output: &str) -> (r: Vec<String>)
    ensures
        r.deep_view() == command_args(input@, *options, output@),
{
    let mut args: Vec<String> = Vec::new();
    let ghost pairs: Seq<ArgPair> = Seq::empty();
    assert(args.deep_view() =~= flatten(pairs));

    push_pair(&mut args, "-i", String::from_str(input), Ghost(pairs));
    proof { pairs = pairs.push(("-i"@, input@)); }
    push_pair(&mut args, "-c:v", text_or(&options.codec, "libx264"), Ghost(pairs));
    proof { pairs = pairs.push(("-c:v"@, video_codec_of(*options))); }
    assert(pairs =~= seq![("-i"@, input@), ("-c:v"@, video_codec_of(*options))]);

    if let Some(crf) = crf_value(options.quality) {
        push_pair(&mut args, "-crf", String::from_str(crf), Ghost(pairs));
        proof { pairs = pairs.push(("-crf"@, crf@)); }
    }
    if let Some(scale) = scale_filter(&options.resolution) {
        push_pair(&mut args, "-vf", scale, Ghost(pairs));
        proof { pairs = pairs.push(("-vf"@, scale@)); }
    }

    let ghost before_sub = pairs;
    if let Some(sub) = &options.subtitle {
        if let Some(path) = &sub.path {
            if sub.burn_in {
                let filter = burn_in_filter(path.as_str(), sub.format, &sub.force_style);
                push_pair(&mut args, "-vf", filter, Ghost(pairs));
                proof { pairs = pairs.push(("-vf"@, filter@)); }
            } else {
                push_pair(&mut args, "-i", path.clone(), Ghost(pairs));
                proof { pairs = pairs.push(("-i"@, path@)); }
                push_pair(&mut args, "-c:s", String::from_str("mov_text"), Ghost(pairs));
                proof { pairs = pairs.push(("-c:s"@, "mov_text"@)); }
                push_pair(&mut args, "-map", String::from_str("0"), Ghost(pairs));
                proof { pairs = pairs.push(("-map"@, "0"@)); }
                push_pair(&mut args, "-map", String::from_str("1"), Ghost(pairs));
                proof { pairs = pairs.push(("-map"@, "1"@)); }
            }
        }
    }
    assert(pairs =~= before_sub + subtitle_pairs(options.subtitle));

    push_pair(&mut args, "-c:a", text_or(&options.audio_codec, "aac"), Ghost(pairs));
    proof { pairs = pairs.push(("-c:a"@, audio_codec_of(*options))); }
    if let Some(rate) = &options.bitrate {
        push_pair(&mut args, "-b:v", rate.clone(), Ghost(pairs));
        proof { pairs = pairs.push(("-b:v"@, rate@)); }
    }
    if options.format == VideoFormat::Mp4 {
        push_pair(&mut args, "-movflags", String::from_str("+faststart"), Ghost(pairs));
        proof { pairs = pairs.push(("-movflags"@, "+faststart"@)); }
    }
    assert(pairs =~= option_pairs(input@, *options));

    let ghost flags = args.deep_view();
    args.push(String::from_str("-y"));
    args.push(String::from_str(output));
    assert(args.deep_view() =~= flags + seq!["-y"@, output@]);
    args
}

/// The builder has no hidden state: two argument lists built from the same
/// input, options and output are the same.
pub proof fn lemma_build_deterministic(
    input: Seq<char>,
    o: VideoOptions,
    output: Seq<char>,
    first: Seq<Seq<char>>,
    second: Seq<Seq<char>>,
)
    requires
        first == command_args(input, o, output),
        second == command_args(input, o, output),
    ensures
        first == second,
{
}

/// The arguments of the probe that prints the duration of `path` in seconds
/// and nothing else.
pub open spec fn probe_args(path: Seq<char>) -> Seq<Seq<char>> {
    seq![
        "-v"@,
        "error"@,
        "-show_entries"@,
        "format=duration"@,
        "-of"@,
        "default=noprint_wrappers=1:nokey=1"@,
        path,
    ]
}

/// The probe's arguments for the duration of `path`.
pub fn build_probe_args(path: &str) -> (r: Vec<String>)
    ensures
        r.deep_view() == probe_args(path@),
{
    let mut r: Vec<String> = Vec::new();
    r.push(String::from_str("-v"));
    r.push(String::from_str("error"));
    r.push(String::from_str("-show_entries"));
    r.push(String::from_str("format=duration"));
    r.push(String::from_str("-of"));
    r.push(String::from_str("default=noprint_wrappers=1:nokey=1"));
    r.push(String::from_str(path));
    assert(r.deep_view() =~= probe_args(path@));
    r
}

} // verus!
