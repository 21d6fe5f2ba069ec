use vstd::prelude::*;
use crate::command::{
    audio_codec_of, burn_in_filter_of, command_args, crf_of, flatten, lemma_flatten_append, option_pairs, push_some,
    scale_filter_of, subtitle_pairs, video_codec_of, view_opt, ArgPair,
};
use crate::options::{VideoFormat, VideoOptions};
use crate::text::decimal;

verus! {

/// Reads an argument list back into flags and values, two by two, up to the
/// closing `-y` and output path.
pub open spec fn read_pairs(args: Seq<Seq<char>>) -> Seq<ArgPair>
    decreases args.len(),
{
    if args.len() <= 2 {
        Seq::empty()
    } else {
        seq![(args[0], args[1])] + read_pairs(args.subrange(2, args.len() as int))
    }
}

/// The values given to `flag`, in order.
pub open spec fn values_of(pairs: Seq<ArgPair>, flag: Seq<char>) -> Seq<Seq<char>>
    decreases pairs.len(),
{
    if pairs.len() == 0 {
        Seq::empty()
    } else {
        values_of(pairs.drop_last(), flag) + if pairs.last().0 == flag {
            seq![pairs.last().1]
        } else {
            Seq::empty()
        }
    }
}

/// The options an argument list implies for one flag: what it gives last.
pub open spec fn implied(args: Seq<Seq<char>>, flag: Seq<char>) -> Option<Seq<char>> {
    let v = values_of(read_pairs(args), flag);
    if v.len() == 0 {
        None
    } else {
        Some(v.last())
    }
}

proof fn lemma_values_push(pairs: Seq<ArgPair>, p: ArgPair, flag: Seq<char>)
    ensures
        values_of(pairs.push(p), flag) == values_of(pairs, flag) + if p.0 == flag {
            seq![p.1]
        } else {
            Seq::empty()
        },
{
    assert(pairs.push(p).drop_last() =~= pairs);
}

proof fn lemma_values_append(a: Seq<ArgPair>, b: Seq<ArgPair>, flag: Seq<char>)
    ensures
        values_of(a + b, flag) == values_of(a, flag) + values_of(b, flag),
    decreases b.len(),
{
    if b.len() == 0 {
        assert(a + b =~= a);
        assert(values_of(a, flag) + values_of(b, flag) =~= values_of(a, flag));
    } else {
        lemma_values_append(a, b.drop_last(), flag);
        assert((a + b).drop_last() =~= a + b.drop_last());
        assert(values_of(a + b, flag) =~= values_of(a, flag) + values_of(b, flag));
    }
}

proof fn lemma_read_flatten(pairs: Seq<ArgPair>, tail: Seq<Seq<char>>)
    requires
        tail.len() == 2,
    ensures
        read_pairs(flatten(pairs) + tail) == pairs,
    decreases pairs.len(),
{
    if pairs.len() == 0 {
        assert(flatten(pairs) + tail =~= tail);
    } else {
        let first = seq![pairs[0]];
        let rest = pairs.subrange(1, pairs.len() as int);
        assert(pairs =~= first + rest);
        lemma_flatten_append(first, rest);
        assert(first.drop_last() =~= Seq::<ArgPair>::empty());
        assert(flatten(first.drop_last()) =~= Seq::<Seq<char>>::empty());
        assert(flatten(first) =~= seq![pairs[0].0, pairs[0].1]);
        lemma_read_flatten(rest, tail);
        let all = flatten(pairs) + tail;
        assert(all.subrange(2, all.len() as int) =~= flatten(rest) + tail);
        assert(read_pairs(all) =~= pairs);
    }
}

/// An argument list reads back into the flags it was built from.
pub proof fn lemma_read_back(input: Seq<char>, o: VideoOptions, output: Seq<char>)
    ensures
        read_pairs(command_args(input, o, output)) == option_pairs(input, o),
{
    lemma_read_flatten(option_pairs(input, o), seq!["-y"@, output]);
}

proof fn lemma_differ_at(a: Seq<char>, b: Seq<char>, i: int)
    requires
        0 <= i < a.len(),
        i < b.len(),
        a[i] != b[i],
    ensures
        a != b,
{
}

/// The flags the builder writes differ from one another.
proof fn lemma_flags_distinct()
    ensures
        "-i"@ != "-c:v"@,
        "-i"@ != "-crf"@,
        "-i"@ != "-vf"@,
        "-i"@ != "-c:a"@,
        "-i"@ != "-b:v"@,
        "-i"@ != "-movflags"@,
        "-c:v"@ != "-crf"@,
        "-c:v"@ != "-vf"@,
        "-c:v"@ != "-c:a"@,
        "-c:v"@ != "-b:v"@,
        "-c:v"@ != "-movflags"@,
        "-c:v"@ != "-c:s"@,
        "-c:v"@ != "-map"@,
        "-crf"@ != "-vf"@,
        "-crf"@ != "-c:a"@,
        "-crf"@ != "-b:v"@,
        "-crf"@ != "-movflags"@,
        "-crf"@ != "-c:s"@,
        "-crf"@ != "-map"@,
        "-vf"@ != "-c:a"@,
        "-vf"@ != "-b:v"@,
        "-vf"@ != "-movflags"@,
        "-vf"@ != "-c:s"@,
        "-vf"@ != "-map"@,
        "-c:a"@ != "-b:v"@,
        "-c:a"@ != "-movflags"@,
        "-c:a"@ != "-c:s"@,
        "-c:a"@ != "-map"@,
        "-b:v"@ != "-movflags"@,
        "-b:v"@ != "-c:s"@,
        "-b:v"@ != "-map"@,
        "-movflags"@ != "-c:s"@,
        "-movflags"@ != "-map"@,
{
    reveal_strlit("-i");
    reveal_strlit("-c:v");
    reveal_strlit("-crf");
    reveal_strlit("-vf");
    reveal_strlit("-c:a");
    reveal_strlit("-b:v");
    reveal_strlit("-movflags");
    reveal_strlit("-c:s");
    reveal_strlit("-map");
    lemma_differ_at("-i"@, "-c:v"@, 1);
    lemma_differ_at("-i"@, "-vf"@, 1);
    lemma_differ_at("-c:v"@, "-crf"@, 2);
    lemma_differ_at("-c:v"@, "-c:a"@, 3);
    lemma_differ_at("-c:v"@, "-b:v"@, 1);
    lemma_differ_at("-c:v"@, "-c:s"@, 3);
    lemma_differ_at("-c:v"@, "-map"@, 1);
    lemma_differ_at("-crf"@, "-c:a"@, 2);
    lemma_differ_at("-crf"@, "-b:v"@, 1);
    lemma_differ_at("-crf"@, "-c:s"@, 2);
    lemma_differ_at("-crf"@, "-map"@, 1);
    lemma_differ_at("-c:a"@, "-b:v"@, 1);
    lemma_differ_at("-c:a"@, "-c:s"@, 3);
    lemma_differ_at("-c:a"@, "-map"@, 1);
    lemma_differ_at("-b:v"@, "-c:s"@, 1);
    lemma_differ_at("-b:v"@, "-map"@, 1);
    lemma_differ_at("-i"@, "-crf"@, 1);
    lemma_differ_at("-i"@, "-c:a"@, 1);
    lemma_differ_at("-i"@, "-b:v"@, 1);
    lemma_differ_at("-i"@, "-movflags"@, 1);
    lemma_differ_at("-c:v"@, "-vf"@, 1);
    lemma_differ_at("-c:v"@, "-movflags"@, 1);
    lemma_differ_at("-crf"@, "-vf"@, 1);
    lemma_differ_at("-crf"@, "-movflags"@, 1);
    lemma_differ_at("-vf"@, "-c:a"@, 1);
    lemma_differ_at("-vf"@, "-b:v"@, 1);
    lemma_differ_at("-vf"@, "-movflags"@, 1);
    lemma_differ_at("-vf"@, "-c:s"@, 1);
    lemma_differ_at("-vf"@, "-map"@, 1);
    lemma_differ_at("-c:a"@, "-movflags"@, 1);
    lemma_differ_at("-b:v"@, "-movflags"@, 1);
    lemma_differ_at("-movflags"@, "-c:s"@, 1);
    lemma_differ_at("-movflags"@, "-map"@, 2);
}

/// The values of one flag, stage by stage through `option_pairs`.
proof fn lemma_values_of_options(input: Seq<char>, o: VideoOptions, flag: Seq<char>)
    ensures
        values_of(option_pairs(input, o), flag) == {
            let base = seq![("-i"@, input), ("-c:v"@, video_codec_of(o))];
            values_of(base, flag) + values_of(push_some(Seq::empty(), "-crf"@, crf_of(o.quality)), flag)
                + values_of(push_some(Seq::empty(), "-vf"@, scale_filter_of(o.resolution)), flag)
                + values_of(subtitle_pairs(o.subtitle), flag)
                + values_of(seq![("-c:a"@, audio_codec_of(o))], flag)
                + values_of(push_some(Seq::empty(), "-b:v"@, view_opt(o.bitrate)), flag)
                + values_of(if o.format == VideoFormat::Mp4 {
                    seq![("-movflags"@, "+faststart"@)]
                } else {
                    Seq::empty()
                }, flag)
        },
{
    let base = seq![("-i"@, input), ("-c:v"@, video_codec_of(o))];
    let crf = push_some(Seq::empty(), "-crf"@, crf_of(o.quality));
    let scale = push_some(Seq::empty(), "-vf"@, scale_filter_of(o.resolution));
    let sub = subtitle_pairs(o.subtitle);
    let audio = seq![("-c:a"@, audio_codec_of(o))];
    let rate = push_some(Seq::empty(), "-b:v"@, view_opt(o.bitrate));
    let fast = if o.format == VideoFormat::Mp4 {
        seq![("-movflags"@, "+faststart"@)]
    } else {
        Seq::empty()
    };
    assert(option_pairs(input, o) =~= base + crf + scale + sub + audio + rate + fast);
    lemma_values_append(base + crf + scale + sub + audio + rate, fast, flag);
    lemma_values_append(base + crf + scale + sub + audio, rate, flag);
    lemma_values_append(base + crf + scale + sub, audio, flag);
    lemma_values_append(base + crf + scale, sub, flag);
    lemma_values_append(base + crf, scale, flag);
    lemma_values_append(base, crf, flag);
}

/// The constant rate factor follows the quality preset: 360, 480, 720 and
/// 1080 give `-crf` 28, 26, 23 and 20, and any other preset, or none, gives
/// no `-crf` at all.
pub proof fn lemma_crf_flag(input: Seq<char>, o: VideoOptions, output: Seq<char>)
    ensures
        values_of(read_pairs(command_args(input, o, output)), "-crf"@) == match crf_of(o.quality) {
            Some(v) => seq![v],
            None => Seq::empty(),
        },
        o.quality == Some(360u16) ==> crf_of(o.quality) == Some("28"@),
        o.quality == Some(480u16) ==> crf_of(o.quality) == Some("26"@),
        o.quality == Some(720u16) ==> crf_of(o.quality) == Some("23"@),
        o.quality == Some(1080u16) ==> crf_of(o.quality) == Some("20"@),
        !(o.quality == Some(360u16) || o.quality == Some(480u16) || o.quality == Some(720u16)
            || o.quality == Some(1080u16)) ==> crf_of(o.quality) is None,
{
    reveal_with_fuel(values_of, 5);
    lemma_read_back(input, o, output);
    lemma_flags_distinct();
    lemma_values_of_options(input, o, "-crf"@);
    assert(values_of(option_pairs(input, o), "-crf"@) =~= match crf_of(o.quality) {
        Some(v) => seq![v],
        None => Seq::empty(),
    });
}

/// Without burnt-in subtitles the only video filter is the scale filter,
/// and it follows which sides are given: both give `scale=w:h`, the width
/// alone `scale=w:-2`, the height alone `scale=-2:h`, and neither no filter.
pub proof fn lemma_scale_flag(input: Seq<char>, o: VideoOptions, output: Seq<char>)
    requires
        !(o.subtitle matches Some(s) && s.path is Some && s.burn_in),
    ensures
        values_of(read_pairs(command_args(input, o, output)), "-vf"@) == match scale_filter_of(
            o.resolution,
        ) {
            Some(f) => seq![f],
            None => Seq::empty(),
        },
        match o.resolution {
            Some(r) => scale_filter_of(o.resolution) == match (r.width, r.height) {
                (Some(w), Some(h)) => Some("scale="@ + decimal(w as nat) + ":"@ + decimal(h as nat)),
                (Some(w), None) => Some("scale="@ + decimal(w as nat) + ":-2"@),
                (None, Some(h)) => Some("scale=-2:"@ + decimal(h as nat)),
                (None, None) => None,
            },
            None => scale_filter_of(o.resolution) is None,
        },
{
    reveal_with_fuel(values_of, 5);
    lemma_read_back(input, o, output);
    lemma_flags_distinct();
    lemma_values_of_options(input, o, "-vf"@);
    assert(values_of(option_pairs(input, o), "-vf"@) =~= match scale_filter_of(o.resolution) {
        Some(f) => seq![f],
        None => Seq::empty(),
    });
}

/// A burnt-in subtitle filter comes after any scale filter, so it is the
/// video filter the encoder applies.
pub proof fn lemma_burn_in_last(input: Seq<char>, o: VideoOptions, output: Seq<char>)
    requires
        o.subtitle matches Some(s) && s.path is Some && s.burn_in,
    ensures
        implied(command_args(input, o, output), "-vf"@) == Some(
            burn_in_filter_of(
                o.subtitle.unwrap().path.unwrap()@,
                o.subtitle.unwrap().format,
                view_opt(o.subtitle.unwrap().force_style),
            ),
        ),
{
    reveal_with_fuel(values_of, 5);
    lemma_read_back(input, o, output);
    lemma_flags_distinct();
    lemma_values_of_options(input, o, "-vf"@);
}

/// Reading the argument list back gives the video codec, the audio codec
/// and the bitrate that were asked for (the codecs' defaults where none
/// was), the fast-start flag exactly for MP4, and the output path as the
/// last argument.
pub proof fn lemma_round_trip(input: Seq<char>, o: VideoOptions, output: Seq<char>)
    ensures
        command_args(input, o, output).last() == output,
        implied(command_args(input, o, output), "-c:v"@) == Some(video_codec_of(o)),
        implied(command_args(input, o, output), "-c:a"@) == Some(audio_codec_of(o)),
        implied(command_args(input, o, output), "-b:v"@) == view_opt(o.bitrate),
        implied(command_args(input, o, output), "-movflags"@) == if o.format == VideoFormat::Mp4 {
            Some("+faststart"@)
        } else {
            None
        },
        o.codec matches Some(c) ==> video_codec_of(o) == c@,
        o.audio_codec matches Some(c) ==> audio_codec_of(o) == c@,
{
    reveal_with_fuel(values_of, 5);
    lemma_read_back(input, o, output);
    lemma_flags_distinct();
    lemma_values_of_options(input, o, "-c:v"@);
    lemma_values_of_options(input, o, "-c:a"@);
    lemma_values_of_options(input, o, "-b:v"@);
    lemma_values_of_options(input, o, "-movflags"@);
    assert(values_of(option_pairs(input, o), "-c:v"@) =~= seq![video_codec_of(o)]);
    assert(values_of(option_pairs(input, o), "-c:a"@) =~= seq![audio_codec_of(o)]);
    assert(values_of(option_pairs(input, o), "-b:v"@) =~= match view_opt(o.bitrate) {
        Some(b) => seq![b],
        None => Seq::empty(),
    });
    assert(values_of(option_pairs(input, o), "-movflags"@) =~= if o.format == VideoFormat::Mp4 {
        seq!["+faststart"@]
    } else {
        Seq::empty()
    });
}

} // verus!
