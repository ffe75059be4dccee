//! Fixed quality presets and the HLS arguments they produce.
use vstd::prelude::*;

use crate::profiles::video::{chunk_key_frames, new_args};
use crate::text::{all_digits, append_args, concat2, dec, digits_value, push_string, push_text, str_eq, u64_to_text};

verus! {

/// Builds the ffmpeg output arguments of a preset.
pub trait Profile {
    /// The arguments for a stream whose first segment is `start_num`, written to `outdir`.
    spec fn args(&self, start_num: u32, outdir: Seq<char>) -> Seq<Seq<char>>;

    /// Returns the ffmpeg output arguments for a stream whose first segment is `start_num`,
    /// written to `outdir`.
    fn to_args(&self, start_num: u32, outdir: &str) -> (r: Vec<String>)
        ensures
            r.deep_view() == self.args(start_num, outdir@),
    ;
}

/// A stream of the input and the preset to produce it with.
#[derive(Debug, PartialEq, Eq, Structural, Clone, Copy)]
pub enum StreamType {
    Video { map: usize, profile: VideoProfile },
    Audio { map: usize, profile: AudioProfile },
    Subtitle { map: usize, profile: SubtitleProfile },
    RawVideo { map: usize, profile: RawVideoProfile, tt: Option<usize> },
}

/// Video quality presets.
#[derive(Clone, Copy, Debug, Eq, PartialEq, Structural)]
pub enum VideoProfile {
    /// Only transmuxes the stream, keeps the same resolution and bitrate
    Direct,
    /// Transcodes the stream but keeps the native resolution and bitrate
    Native,
    High,
    Medium,
    Low,
}

/// Audio quality presets.
#[derive(Clone, Copy, Debug, Eq, PartialEq, Structural)]
pub enum AudioProfile {
    Low,
}

/// Subtitle presets.
#[derive(Clone, Copy, Debug, Eq, PartialEq, Structural)]
pub enum SubtitleProfile {
    Webvtt,
}

/// Raw video presets.
#[derive(Clone, Copy, Debug, Eq, PartialEq, Structural)]
pub enum RawVideoProfile {
    RawRgb,
}

/// The codec arguments of a video preset.
pub open spec fn video_params(p: VideoProfile) -> Seq<Seq<char>> {
    match p {
        VideoProfile::Direct => seq!["-c:0"@, "copy"@],
        VideoProfile::Native => seq!["-c:0"@, "libx264"@, "-preset"@, "veryfast"@],
        VideoProfile::High => seq![
            "-c:0"@, "libx264"@, "-b:v"@, "5M"@, "-preset"@, "veryfast"@, "-vf"@, "scale=1280:-2"@,
        ],
        VideoProfile::Medium => seq![
            "-c:0"@, "libx264"@, "-b:v"@, "2M"@, "-preset"@, "ultrafast"@, "-vf"@, "scale=720:-2"@,
        ],
        VideoProfile::Low => seq![
            "-c:0"@, "libx264"@, "-b:v"@, "1M"@, "-preset"@, "ultrafast"@, "-vf"@, "scale=480:-2"@,
        ],
    }
}

/// The label of a video preset.
pub open spec fn video_label(p: VideoProfile) -> Seq<char> {
    match p {
        VideoProfile::Direct => "direct"@,
        VideoProfile::Native => "max"@,
        VideoProfile::High => "5000kb"@,
        VideoProfile::Medium => "2000kb"@,
        VideoProfile::Low => "1000kb"@,
    }
}

/// The preset that a label names.
pub open spec fn video_from_label(s: Seq<char>) -> Option<VideoProfile> {
    if s == "direct"@ {
        Some(VideoProfile::Direct)
    } else if s == "native"@ {
        Some(VideoProfile::Native)
    } else if s == "5000kb"@ {
        Some(VideoProfile::High)
    } else if s == "2000kb"@ {
        Some(VideoProfile::Medium)
    } else if s == "1000kb"@ {
        Some(VideoProfile::Low)
    } else {
        None
    }
}

/// How a video preset is shown.
pub open spec fn video_display(p: VideoProfile) -> Seq<char> {
    match p {
        VideoProfile::Direct => "copy"@,
        VideoProfile::Native => "h264@native"@,
        VideoProfile::High => "h264@5000kb"@,
        VideoProfile::Medium => "h264@2000kb"@,
        VideoProfile::Low => "h264@1000kb"@,
    }
}

/// The codec arguments of the audio preset.
pub open spec fn audio_params() -> Seq<Seq<char>> {
    seq!["-c:0"@, "aac"@, "-ac"@, "2"@, "-ab"@, "128k"@]
}

/// The preset that an audio label names.
pub open spec fn audio_from_label(s: Seq<char>) -> Option<AudioProfile> {
    if s == "120kb"@ {
        Some(AudioProfile::Low)
    } else {
        None
    }
}

/// `-f hls` starting at `start_num`, temporary files while writing, named init segment.
pub open spec fn preset_hls_block(start_num: u32) -> Seq<Seq<char>> {
    seq![
        "-f"@, "hls"@, "-start_number"@, dec(start_num as nat), "-hls_flags"@, "temp_file"@,
        "-max_delay"@, "5000000"@, "-hls_fmp4_init_filename"@, dec(start_num as nat) + "_init.mp4"@,
    ]
}

/// fMP4 segments, progress on stdout, and where segments and the playlist go.
pub open spec fn preset_output_block(outdir: Seq<char>) -> Seq<Seq<char>> {
    seq![
        "-hls_segment_type"@, "1"@, "-loglevel"@, "info"@, "-progress"@, "pipe:1"@,
        "-hls_segment_filename"@, outdir + "/%d.m4s"@, outdir + "/playlist.m3u8"@,
    ]
}

/// The timestamp arguments of a preset with the given `-vsync` mode.
pub open spec fn preset_sync_block(vsync: Seq<char>) -> Seq<Seq<char>> {
    seq![
        "-start_at_zero"@, "-vsync"@, vsync, "-avoid_negative_ts"@, "disabled"@,
        "-max_muxing_queue_size"@, "2048"@,
    ]
}

/// The ffmpeg output arguments of a video preset.
pub open spec fn video_args(p: VideoProfile, start_num: u32, outdir: Seq<char>) -> Seq<Seq<char>> {
    video_params(p) + preset_sync_block("passthrough"@) + preset_hls_block(start_num) + seq![
        "-hls_time"@,
        "5"@,
    ] + (if p == VideoProfile::Direct {
        Seq::empty()
    } else {
        seq!["-force_key_frames"@, chunk_key_frames()]
    }) + preset_output_block(outdir)
}

/// The ffmpeg output arguments of the audio preset.
pub open spec fn audio_args(start_num: u32, outdir: Seq<char>) -> Seq<Seq<char>> {
    audio_params() + preset_sync_block("-1"@) + preset_hls_block(start_num) + seq![
        "-hls_time"@,
        "5"@,
        "-force_key_frames"@,
        chunk_key_frames(),
    ] + preset_output_block(outdir)
}

fn texts_of(v: Vec<&str>) -> (r: Vec<String>)
    ensures
        r.deep_view() == v.deep_view(),
{
    let mut r = new_args();
    let mut i: usize = 0;
    while i < v.len()
        invariant
            i <= v.len(),
            r.deep_view() == v.deep_view().take(i as int),
        decreases v.len() - i,
    {
        push_text(&mut r, v[i]);
        assert(v.deep_view().take(i + 1) =~= v.deep_view().take(i as int).push(v[i as int]@));
        i = i + 1;
    }
    assert(v.deep_view().take(i as int) =~= v.deep_view());
    r
}

fn preset_hls_args(start_num: u32) -> (r: Vec<String>)
    ensures
        r.deep_view() == preset_hls_block(start_num),
{
    let start = u64_to_text(start_num as u64);
    let mut r = new_args();
    push_text(&mut r, "-f");
    push_text(&mut r, "hls");
    push_text(&mut r, "-start_number");
    push_string(&mut r, start.clone());
    push_text(&mut r, "-hls_flags");
    push_text(&mut r, "temp_file");
    push_text(&mut r, "-max_delay");
    push_text(&mut r, "5000000");
    push_text(&mut r, "-hls_fmp4_init_filename");
    push_string(&mut r, concat2(start.as_str(), "_init.mp4"));
    assert(r.deep_view() =~= preset_hls_block(start_num));
    r
}

fn preset_output_args(outdir: &str) -> (r: Vec<String>)
    ensures
        r.deep_view() == preset_output_block(outdir@),
{
    let mut r = new_args();
    push_text(&mut r, "-hls_segment_type");
    push_text(&mut r, "1");
    push_text(&mut r, "-loglevel");
    push_text(&mut r, "info");
    push_text(&mut r, "-progress");
    push_text(&mut r, "pipe:1");
    push_text(&mut r, "-hls_segment_filename");
    push_string(&mut r, concat2(outdir, "/%d.m4s"));
    push_string(&mut r, concat2(outdir, "/playlist.m3u8"));
    assert(r.deep_view() =~= preset_output_block(outdir@));
    r
}

fn preset_sync_args(vsync: &str) -> (r: Vec<String>)
    ensures
        r.deep_view() == preset_sync_block(vsync@),
{
    let mut r = new_args();
    push_text(&mut r, "-start_at_zero");
    push_text(&mut r, "-vsync");
    push_text(&mut r, vsync);
    push_text(&mut r, "-avoid_negative_ts");
    push_text(&mut r, "disabled");
    push_text(&mut r, "-max_muxing_queue_size");
    push_text(&mut r, "2048");
    assert(r.deep_view() =~= preset_sync_block(vsync@));
    r
}

/// The index of the input stream of a stream type.
pub open spec fn stream_map(s: StreamType) -> usize {
    match s {
        StreamType::Video { map, .. } => map,
        StreamType::Audio { map, .. } => map,
        StreamType::Subtitle { map, .. } => map,
        StreamType::RawVideo { map, .. } => map,
    }
}

impl StreamType {
    /// The index of the input stream.
    pub fn map(&self) -> (r: usize)
        ensures
            r == stream_map(*self),
    {
        match self {
            StreamType::Video { map, .. } => *map,
            StreamType::Audio { map, .. } => *map,
            StreamType::Subtitle { map, .. } => *map,
            StreamType::RawVideo { map, .. } => *map,
        }
    }

    /// `map <index> -> <preset>`: how the stream is shown.
    pub fn display_text(&self) -> (r: String)
        ensures
            r@ == "map "@ + dec(stream_map(*self) as nat) + " -> "@ + match *self {
                StreamType::Video { profile, .. } => video_display(profile),
                StreamType::Audio { .. } => "aac@128kb"@,
                StreamType::Subtitle { .. } => "vtt"@,
                StreamType::RawVideo { .. } => "RawRgb"@,
            },
    {
        let n = u64_to_text(self.map() as u64);
        let mut r = concat2("map ", n.as_str());
        r.append(" -> ");
        let p = match self {
            StreamType::Video { profile, .. } => profile.display_text(),
            StreamType::Audio { profile, .. } => profile.display_text(),
            StreamType::Subtitle { profile, .. } => profile.display_text(),
            StreamType::RawVideo { profile, .. } => profile.display_text(),
        };
        r.append(p.as_str());
        r
    }
}

impl VideoProfile {
    /// The codec arguments of the preset and its label.
    #[allow(clippy::wrong_self_convention)]
    pub fn to_params(&self) -> (r: (Vec<&'static str>, &'static str))
        ensures
            r.0.deep_view() == video_params(*self),
            r.1@ == video_label(*self),
    {
        let r: (Vec<&'static str>, &'static str) = match self {
            VideoProfile::Direct => (vec!["-c:0", "copy"], "direct"),
            VideoProfile::Native => (vec!["-c:0", "libx264", "-preset", "veryfast"], "max"),
            VideoProfile::High => (
                vec!["-c:0", "libx264", "-b:v", "5M", "-preset", "veryfast", "-vf", "scale=1280:-2"],
                "5000kb",
            ),
            VideoProfile::Medium => (
                vec!["-c:0", "libx264", "-b:v", "2M", "-preset", "ultrafast", "-vf", "scale=720:-2"],
                "2000kb",
            ),
            VideoProfile::Low => (
                vec!["-c:0", "libx264", "-b:v", "1M", "-preset", "ultrafast", "-vf", "scale=480:-2"],
                "1000kb",
            ),
        };
        assert(r.0.deep_view() =~= video_params(*self));
        r
    }

    /// The preset that a label names.
    pub fn from_string(profile: &str) -> (r: Option<Self>)
        ensures
            r == video_from_label(profile@),
    {
        if str_eq(profile, "direct") {
            Some(VideoProfile::Direct)
        } else if str_eq(profile, "native") {
            Some(VideoProfile::Native)
        } else if str_eq(profile, "5000kb") {
            Some(VideoProfile::High)
        } else if str_eq(profile, "2000kb") {
            Some(VideoProfile::Medium)
        } else if str_eq(profile, "1000kb") {
            Some(VideoProfile::Low)
        } else {
            None
        }
    }

    /// How the preset is shown.
    pub fn display_text(&self) -> (r: String)
        ensures
            r@ == video_display(*self),
    {
        match self {
            VideoProfile::Direct => String::from_str("copy"),
            VideoProfile::Native => String::from_str("h264@native"),
            VideoProfile::High => String::from_str("h264@5000kb"),
            VideoProfile::Medium => String::from_str("h264@2000kb"),
            VideoProfile::Low => String::from_str("h264@1000kb"),
        }
    }
}

impl Profile for VideoProfile {
    open spec fn args(&self, start_num: u32, outdir: Seq<char>) -> Seq<Seq<char>> {
        video_args(*self, start_num, outdir)
    }

    fn to_args(&self, start_num: u32, outdir: &str) -> (r: Vec<String>) {
        let mut args = texts_of(self.to_params().0);
        append_args(&mut args, preset_sync_args("passthrough"));
        append_args(&mut args, preset_hls_args(start_num));
        let mut t = new_args();
        push_text(&mut t, "-hls_time");
        push_text(&mut t, "5");
        assert(t.deep_view() =~= seq!["-hls_time"@, "5"@]);
        append_args(&mut args, t);
        let mut k = new_args();
        match self {
            VideoProfile::Direct => {},
            _ => {
                push_text(&mut k, "-force_key_frames");
                push_text(&mut k, "expr:if(isnan(prev_forced_t),eq(t,t),gte(t,prev_forced_t+5.00))");
            },
        }
        assert(k.deep_view() =~= (if *self == VideoProfile::Direct {
            Seq::<Seq<char>>::empty()
        } else {
            seq!["-force_key_frames"@, chunk_key_frames()]
        }));
        append_args(&mut args, k);
        append_args(&mut args, preset_output_args(outdir));
        args
    }
}

impl AudioProfile {
    /// The codec arguments of the preset and its label.
    #[allow(clippy::wrong_self_convention)]
    pub fn to_params(&self) -> (r: (Vec<&'static str>, &'static str))
        ensures
            r.0.deep_view() == audio_params(),
            r.1@ == "128kb"@,
    {
        let r: (Vec<&'static str>, &'static str) = (vec!["-c:0", "aac", "-ac", "2", "-ab", "128k"], "128kb");
        assert(r.0.deep_view() =~= audio_params());
        r
    }

    /// The preset that a label names.
    pub fn from_string(profile: &str) -> (r: Option<Self>)
        ensures
            r == audio_from_label(profile@),
    {
        if str_eq(profile, "120kb") {
            Some(AudioProfile::Low)
        } else {
            None
        }
    }

    /// How the preset is shown.
    pub fn display_text(&self) -> (r: String)
        ensures
            r@ == "aac@128kb"@,
    {
        String::from_str("aac@128kb")
    }
}

impl Profile for AudioProfile {
    open spec fn args(&self, start_num: u32, outdir: Seq<char>) -> Seq<Seq<char>> {
        audio_args(start_num, outdir)
    }

    fn to_args(&self, start_num: u32, outdir: &str) -> (r: Vec<String>) {
        let mut args = texts_of(self.to_params().0);
        append_args(&mut args, preset_sync_args("-1"));
        append_args(&mut args, preset_hls_args(start_num));
        let mut t = new_args();
        push_text(&mut t, "-hls_time");
        push_text(&mut t, "5");
        push_text(&mut t, "-force_key_frames");
        push_text(&mut t, "expr:if(isnan(prev_forced_t),eq(t,t),gte(t,prev_forced_t+5.00))");
        assert(t.deep_view() =~= seq!["-hls_time"@, "5"@, "-force_key_frames"@, chunk_key_frames()]);
        append_args(&mut args, t);
        append_args(&mut args, preset_output_args(outdir));
        args
    }
}

impl SubtitleProfile {
    /// How the preset is shown.
    pub fn display_text(&self) -> (r: String)
        ensures
            r@ == "vtt"@,
    {
        String::from_str("vtt")
    }
}

impl Profile for SubtitleProfile {
    open spec fn args(&self, start_num: u32, outdir: Seq<char>) -> Seq<Seq<char>> {
        seq!["-f"@, "webvtt"@, "-"@]
    }

    fn to_args(&self, start_num: u32, outdir: &str) -> (r: Vec<String>) {
        let mut args = new_args();
        push_text(&mut args, "-f");
        push_text(&mut args, "webvtt");
        push_text(&mut args, "-");
        assert(args.deep_view() =~= seq!["-f"@, "webvtt"@, "-"@]);
        args
    }
}

impl RawVideoProfile {
    /// How the preset is shown.
    pub fn display_text(&self) -> (r: String)
        ensures
            r@ == "RawRgb"@,
    {
        String::from_str("RawRgb")
    }
}

impl Profile for RawVideoProfile {
    open spec fn args(&self, start_num: u32, outdir: Seq<char>) -> Seq<Seq<char>> {
        seq![
            "-c:v"@, "rawvideo"@, "-vf"@, "scale=8:8"@, "-pix_fmt"@, "rgb24"@, "-preset"@, "ultrafast"@,
            "-f"@, "data"@, "-"@,
        ]
    }

    fn to_args(&self, start_num: u32, outdir: &str) -> (r: Vec<String>) {
        let mut args = new_args();
        push_text(&mut args, "-c:v");
        push_text(&mut args, "rawvideo");
        push_text(&mut args, "-vf");
        push_text(&mut args, "scale=8:8");
        push_text(&mut args, "-pix_fmt");
        push_text(&mut args, "rgb24");
        push_text(&mut args, "-preset");
        push_text(&mut args, "ultrafast");
        push_text(&mut args, "-f");
        push_text(&mut args, "data");
        push_text(&mut args, "-");
        assert(args.deep_view() =~= seq![
            "-c:v"@, "rawvideo"@, "-vf"@, "scale=8:8"@, "-pix_fmt"@, "rgb24"@, "-preset"@, "ultrafast"@,
            "-f"@, "data"@, "-"@,
        ]);
        args
    }
}

/// A video preset is named again by its label, except the native preset, whose label
/// "max" names none.
pub proof fn lemma_video_label_round_trip(p: VideoProfile)
    requires
        p != VideoProfile::Native,
    ensures
        video_from_label(video_label(p)) == Some(p),
{
    reveal_strlit("direct");
    reveal_strlit("native");
    reveal_strlit("5000kb");
    reveal_strlit("2000kb");
    reveal_strlit("1000kb");
    assert("direct"@[0] != "native"@[0]);
    assert("5000kb"@[0] != "direct"@[0]);
    assert("5000kb"@[0] != "native"@[0]);
    assert("2000kb"@[0] != "direct"@[0]);
    assert("2000kb"@[0] != "native"@[0]);
    assert("2000kb"@[0] != "5000kb"@[0]);
    assert("1000kb"@[0] != "direct"@[0]);
    assert("1000kb"@[0] != "native"@[0]);
    assert("1000kb"@[0] != "5000kb"@[0]);
    assert("1000kb"@[0] != "2000kb"@[0]);
}

/// Whether a preset encodes at a fixed bitrate.
pub open spec fn has_fixed_rate(p: VideoProfile) -> bool {
    p == VideoProfile::High || p == VideoProfile::Medium || p == VideoProfile::Low
}

/// The bitrate, in megabits, that the codec arguments of a preset ask for after `-b:v`.
pub open spec fn preset_rate_mbit(p: VideoProfile) -> nat {
    digits_value(video_params(p)[3].drop_last())
}

/// The bitrate, in kilobits, that the label of a preset names.
pub open spec fn label_rate_kbit(p: VideoProfile) -> nat {
    digits_value(video_label(p).take(video_label(p).len() - 2))
}

/// A preset of fixed bitrate encodes at the rate its label names: its codec arguments hold
/// `-b:v <n>M` and its label is `<1000 n>kb`; and the presets are ordered by rate,
/// High above Medium above Low.
pub proof fn lemma_preset_rates(p: VideoProfile)
    requires
        has_fixed_rate(p),
    ensures
        video_params(p)[2] == "-b:v"@,
        video_params(p)[3].len() >= 2 && video_params(p)[3].last() == 'M' && all_digits(video_params(p)[3].drop_last()),
        video_label(p).len() > 2 && video_label(p).skip(video_label(p).len() - 2) == "kb"@ && all_digits(
            video_label(p).take(video_label(p).len() - 2),
        ),
        label_rate_kbit(p) == 1000 * preset_rate_mbit(p),
        preset_rate_mbit(VideoProfile::High) > preset_rate_mbit(VideoProfile::Medium),
        preset_rate_mbit(VideoProfile::Medium) > preset_rate_mbit(VideoProfile::Low),
        preset_rate_mbit(VideoProfile::Low) > 0,
{
    reveal_strlit("-b:v");
    reveal_strlit("5M");
    reveal_strlit("2M");
    reveal_strlit("1M");
    reveal_strlit("5000kb");
    reveal_strlit("2000kb");
    reveal_strlit("1000kb");
    reveal_strlit("kb");
    reveal_with_fuel(digits_value, 5);
    assert("5M"@.drop_last() =~= seq!['5']);
    assert("2M"@.drop_last() =~= seq!['2']);
    assert("1M"@.drop_last() =~= seq!['1']);
    assert("5000kb"@.take(4) =~= seq!['5', '0', '0', '0']);
    assert("2000kb"@.take(4) =~= seq!['2', '0', '0', '0']);
    assert("1000kb"@.take(4) =~= seq!['1', '0', '0', '0']);
    assert("5000kb"@.skip(4) =~= "kb"@);
    assert("2000kb"@.skip(4) =~= "kb"@);
    assert("1000kb"@.skip(4) =~= "kb"@);
    assert(seq!['5', '0', '0', '0'].drop_last() =~= seq!['5', '0', '0']);
    assert(seq!['5', '0', '0'].drop_last() =~= seq!['5', '0']);
    assert(seq!['5', '0'].drop_last() =~= seq!['5']);
    assert(seq!['2', '0', '0', '0'].drop_last() =~= seq!['2', '0', '0']);
    assert(seq!['2', '0', '0'].drop_last() =~= seq!['2', '0']);
    assert(seq!['2', '0'].drop_last() =~= seq!['2']);
    assert(seq!['1', '0', '0', '0'].drop_last() =~= seq!['1', '0', '0']);
    assert(seq!['1', '0', '0'].drop_last() =~= seq!['1', '0']);
    assert(seq!['1', '0'].drop_last() =~= seq!['1']);
    assert(seq!['5'].drop_last() =~= Seq::<char>::empty());
    assert(seq!['2'].drop_last() =~= Seq::<char>::empty());
    assert(seq!['1'].drop_last() =~= Seq::<char>::empty());
}

} // verus!
