//! H264 video profiles and the blocks of arguments shared by the HLS profiles.
use vstd::prelude::*;

use super::ContextView;
use super::ProfileContext;
use super::ProfileType;
use super::StreamType;
use super::TranscodingProfile;
use crate::error::NightfallError;
use crate::text::{append_args, concat2, concat3, dec, i64_to_text, int_text, push_string, push_text, str_eq, u64_to_text};

verus! {

/// Length of a chunk in seconds.
pub const CHUNK_SIZE: u32 = 5;

/// `0:<stream>`: selects the input stream.
pub open spec fn stream_selector(ctx: ContextView) -> Seq<char> {
    "0:"@ + dec(ctx.input.stream as nat)
}

/// `<start>_init.mp4`: the name of the initialisation segment.
pub open spec fn init_seg_name(ctx: ContextView) -> Seq<char> {
    dec(ctx.output.start_num as nat) + "_init.mp4"@
}

/// `<outdir>/%d.m4s`: the pattern of segment file names.
pub open spec fn segment_pattern(ctx: ContextView) -> Seq<char> {
    ctx.output.outdir + "/%d.m4s"@
}

/// `<outdir>/playlist.m3u8`: the playlist file.
pub open spec fn playlist_path(ctx: ContextView) -> Seq<char> {
    ctx.output.outdir + "/playlist.m3u8"@
}

/// Reads the input from `seek` seconds on and selects the input stream.
pub open spec fn input_block(ctx: ContextView, seek: nat) -> Seq<Seq<char>> {
    seq!["-y"@, "-ss"@, dec(seek), "-i"@, ctx.file, "-copyts"@, "-map"@, stream_selector(ctx)]
}

/// Keeps the timestamps of the input.
pub open spec fn passthrough_block() -> Seq<Seq<char>> {
    seq![
        "-start_at_zero"@, "-vsync"@, "passthrough"@, "-avoid_negative_ts"@, "disabled"@,
        "-max_muxing_queue_size"@, "2048"@,
    ]
}

/// Writes an HLS stream whose first segment has the number `start_num`.
pub open spec fn hls_block(ctx: ContextView) -> Seq<Seq<char>> {
    seq!["-f"@, "hls"@, "-start_number"@, dec(ctx.output.start_num as nat)]
}

/// Segments in progress are written to a temporary file and renamed when done.
pub open spec fn temp_file_block() -> Seq<Seq<char>> {
    seq!["-hls_flags"@, "temp_file"@, "-max_delay"@, "5000000"@]
}

/// Names the initialisation segment after the first segment.
pub open spec fn init_block(ctx: ContextView) -> Seq<Seq<char>> {
    seq!["-hls_fmp4_init_filename"@, init_seg_name(ctx)]
}

/// The key frame expression for five second chunks.
pub open spec fn chunk_key_frames() -> Seq<char> {
    "expr:if(isnan(prev_forced_t),eq(t,t),gte(t,prev_forced_t+5.00))"@
}

/// Five second segments with a key frame at the start of each.
pub open spec fn chunk_block() -> Seq<Seq<char>> {
    seq!["-hls_time"@, "5"@, "-force_key_frames"@, chunk_key_frames()]
}

/// The key frame expression for a group of pictures of `gop` seconds.
pub open spec fn gop_key_frames(gop: u32) -> Seq<char> {
    "expr:gte(t,n_forced*"@ + dec(gop as nat) + ")"@
}

/// Segments of `gop` seconds with a key frame at the start of each.
pub open spec fn gop_block(gop: u32) -> Seq<Seq<char>> {
    seq!["-hls_time"@, dec(gop as nat), "-force_key_frames"@, gop_key_frames(gop)]
}

/// fMP4 segments, progress on stdout, and where the segments and the playlist go.
pub open spec fn output_block(ctx: ContextView) -> Seq<Seq<char>> {
    seq![
        "-hls_segment_type"@, "1"@, "-loglevel"@, "info"@, "-progress"@, "pipe:1"@,
        "-hls_segment_filename"@, segment_pattern(ctx), playlist_path(ctx),
    ]
}

/// The segment options; a stream that starts in the middle marks its fragments discontinuous.
pub open spec fn discont_flags(ctx: ContextView) -> Seq<Seq<char>> {
    if ctx.output.start_num > 0 {
        seq!["-hls_segment_options"@, "movflags=frag_custom+dash+delay_moov+frag_discont"@]
    } else {
        seq!["-hls_segment_options"@, "movflags=frag_custom+dash+delay_moov"@]
    }
}

/// `<filter>=<height>:<width>`, the width defaulting to -2 (keep the aspect ratio).
pub open spec fn scale_text(filter: Seq<char>, height: i64, width: Option<i64>) -> Seq<char> {
    filter + "="@ + int_text(height as int) + ":"@ + int_text(width.unwrap_or(-2i64) as int)
}

/// `-vf scale=..` when a height is requested.
pub open spec fn scale_block(ctx: ContextView) -> Seq<Seq<char>> {
    match ctx.output.height {
        Some(h) => seq!["-vf"@, scale_text("scale"@, h, ctx.output.width)],
        None => Seq::empty(),
    }
}

/// `-b:v <bitrate>` when a bitrate is requested.
pub open spec fn bitrate_block(ctx: ContextView) -> Seq<Seq<char>> {
    match ctx.output.bitrate {
        Some(b) => seq!["-b:v"@, dec(b as nat)],
        None => Seq::empty(),
    }
}

/// Whether the position of chunk `start`, at `per_chunk` units a chunk, fits in 32 bits.
pub fn seek_fits(start: u32, per_chunk: u32) -> (r: bool)
    ensures
        r == (start * per_chunk <= u32::MAX),
{
    let a = start as u64;
    let b = per_chunk as u64;
    assert(a * b <= 0xffff_ffff * 0xffff_ffff) by (nonlinear_arith)
        requires
            a <= 0xffff_ffff,
            b <= 0xffff_ffff,
    ;
    a * b <= 0xffff_ffff
}

/// An empty list of arguments.
pub fn new_args() -> (r: Vec<String>)
    ensures
        r.deep_view() == Seq::<Seq<char>>::empty(),
{
    let r: Vec<String> = Vec::new();
    assert(r.deep_view() =~= Seq::<Seq<char>>::empty());
    r
}

/// Builds `0:<stream>`.
pub fn stream_arg(ctx: &ProfileContext) -> (r: String)
    ensures
        r@ == stream_selector(ctx@),
{
    let n = u64_to_text(ctx.input_ctx.stream as u64);
    concat2("0:", n.as_str())
}

/// Builds `<start>_init.mp4`.
pub fn init_seg_arg(ctx: &ProfileContext) -> (r: String)
    ensures
        r@ == init_seg_name(ctx@),
{
    let n = u64_to_text(ctx.output_ctx.start_num as u64);
    concat2(n.as_str(), "_init.mp4")
}

/// Builds the input block.
pub fn input_args(ctx: &ProfileContext, seek: u64) -> (r: Vec<String>)
    ensures
        r.deep_view() == input_block(ctx@, seek as nat),
{
    let mut r = new_args();
    push_text(&mut r, "-y");
    push_text(&mut r, "-ss");
    push_string(&mut r, u64_to_text(seek));
    push_text(&mut r, "-i");
    push_string(&mut r, ctx.file.clone());
    push_text(&mut r, "-copyts");
    push_text(&mut r, "-map");
    push_string(&mut r, stream_arg(ctx));
    assert(r.deep_view() =~= input_block(ctx@, seek as nat));
    r
}

/// Builds the passthrough block.
pub fn passthrough_args() -> (r: Vec<String>)
    ensures
        r.deep_view() == passthrough_block(),
{
    let mut r = new_args();
    push_text(&mut r, "-start_at_zero");
    push_text(&mut r, "-vsync");
    push_text(&mut r, "passthrough");
    push_text(&mut r, "-avoid_negative_ts");
    push_text(&mut r, "disabled");
    push_text(&mut r, "-max_muxing_queue_size");
    push_text(&mut r, "2048");
    assert(r.deep_view() =~= passthrough_block());
    r
}

/// Builds the HLS block.
pub fn hls_args(ctx: &ProfileContext) -> (r: Vec<String>)
    ensures
        r.deep_view() == hls_block(ctx@),
{
    let mut r = new_args();
    push_text(&mut r, "-f");
    push_text(&mut r, "hls");
    push_text(&mut r, "-start_number");
    push_string(&mut r, u64_to_text(ctx.output_ctx.start_num as u64));
    assert(r.deep_view() =~= hls_block(ctx@));
    r
}

/// Builds the temporary file block.
pub fn temp_file_args() -> (r: Vec<String>)
    ensures
        r.deep_view() == temp_file_block(),
{
    let mut r = new_args();
    push_text(&mut r, "-hls_flags");
    push_text(&mut r, "temp_file");
    push_text(&mut r, "-max_delay");
    push_text(&mut r, "5000000");
    assert(r.deep_view() =~= temp_file_block());
    r
}

/// Builds the initialisation segment block.
pub fn init_args(ctx: &ProfileContext) -> (r: Vec<String>)
    ensures
        r.deep_view() == init_block(ctx@),
{
    let mut r = new_args();
    push_text(&mut r, "-hls_fmp4_init_filename");
    push_string(&mut r, init_seg_arg(ctx));
    assert(r.deep_view() =~= init_block(ctx@));
    r
}

/// Builds the five second chunk block.
pub fn chunk_args() -> (r: Vec<String>)
    ensures
        r.deep_view() == chunk_block(),
{
    let mut r = new_args();
    push_text(&mut r, "-hls_time");
    push_text(&mut r, "5");
    push_text(&mut r, "-force_key_frames");
    push_text(&mut r, "expr:if(isnan(prev_forced_t),eq(t,t),gte(t,prev_forced_t+5.00))");
    assert(r.deep_view() =~= chunk_block());
    r
}

/// Builds the block for segments of `gop` seconds.
pub fn gop_args(gop: u32) -> (r: Vec<String>)
    ensures
        r.deep_view() == gop_block(gop),
{
    let mut r = new_args();
    push_text(&mut r, "-hls_time");
    push_string(&mut r, u64_to_text(gop as u64));
    push_text(&mut r, "-force_key_frames");
    let g = u64_to_text(gop as u64);
    push_string(&mut r, concat3("expr:gte(t,n_forced*", g.as_str(), ")"));
    assert(r.deep_view() =~= gop_block(gop));
    r
}

/// Builds the output block.
pub fn output_args(ctx: &ProfileContext) -> (r: Vec<String>)
    ensures
        r.deep_view() == output_block(ctx@),
{
    let mut r = new_args();
    push_text(&mut r, "-hls_segment_type");
    push_text(&mut r, "1");
    push_text(&mut r, "-loglevel");
    push_text(&mut r, "info");
    push_text(&mut r, "-progress");
    push_text(&mut r, "pipe:1");
    push_text(&mut r, "-hls_segment_filename");
    push_string(&mut r, concat2(ctx.output_ctx.outdir.as_str(), "/%d.m4s"));
    push_string(&mut r, concat2(ctx.output_ctx.outdir.as_str(), "/playlist.m3u8"));
    assert(r.deep_view() =~= output_block(ctx@));
    r
}

/// The segment options for a context.
pub fn get_discont_flags(ctx: &ProfileContext) -> (r: Vec<String>)
    ensures
        r.deep_view() == discont_flags(ctx@),
{
    let mut r = new_args();
    push_text(&mut r, "-hls_segment_options");
    if ctx.output_ctx.start_num > 0 {
        push_text(&mut r, "movflags=frag_custom+dash+delay_moov+frag_discont");
    } else {
        push_text(&mut r, "movflags=frag_custom+dash+delay_moov");
    }
    assert(r.deep_view() =~= discont_flags(ctx@));
    r
}

/// Builds `<filter>=<height>:<width>`.
pub fn scale_arg(filter: &str, height: i64, width: Option<i64>) -> (r: String)
    ensures
        r@ == scale_text(filter@, height, width),
{
    let w = match width {
        Some(w) => w,
        None => -2,
    };
    let h = i64_to_text(height);
    let wt = i64_to_text(w);
    let mut r = String::from_str(filter);
    r.append("=");
    r.append(h.as_str());
    r.append(":");
    r.append(wt.as_str());
    r
}

/// Builds the scale block.
pub fn scale_args(ctx: &ProfileContext) -> (r: Vec<String>)
    ensures
        r.deep_view() == scale_block(ctx@),
{
    let mut r = new_args();
    match ctx.output_ctx.height {
        Some(h) => {
            push_text(&mut r, "-vf");
            push_string(&mut r, scale_arg("scale", h, ctx.output_ctx.width));
        },
        None => {},
    }
    assert(r.deep_view() =~= scale_block(ctx@));
    r
}

/// Builds the bitrate block.
pub fn bitrate_args(ctx: &ProfileContext) -> (r: Vec<String>)
    ensures
        r.deep_view() == bitrate_block(ctx@),
{
    let mut r = new_args();
    match ctx.output_ctx.bitrate {
        Some(b) => {
            push_text(&mut r, "-b:v");
            push_string(&mut r, u64_to_text(b));
        },
        None => {},
    }
    assert(r.deep_view() =~= bitrate_block(ctx@));
    r
}


/// Copies the video stream unchanged.
pub open spec fn copy_codec_block() -> Seq<Seq<char>> {
    seq!["-c:0"@, "copy"@]
}

/// The ffmpeg arguments of the H264 transmuxing profile.
pub open spec fn transmux_args(ctx: ContextView) -> Seq<Seq<char>> {
    input_block(ctx, (ctx.output.start_num * CHUNK_SIZE) as nat) + copy_codec_block() + passthrough_block()
        + hls_block(ctx) + temp_file_block() + init_block(ctx) + chunk_block() + output_block(ctx)
}

/// The transmuxing arguments depend only on the file, the input stream, the first chunk
/// and the output directory.
pub proof fn lemma_transmux_args_depend_on(a: ContextView, b: ContextView)
    requires
        a.file == b.file,
        a.input.stream == b.input.stream,
        a.output.start_num == b.output.start_num,
        a.output.outdir == b.output.outdir,
    ensures
        transmux_args(a) == transmux_args(b),
{
}

/// Encodes with libx264 without B-frames.
pub open spec fn x264_block() -> Seq<Seq<char>> {
    seq!["-c:0"@, "libx264"@, "-preset"@, "veryfast"@, "-x264-params"@, "bframes=0"@]
}

/// The ffmpeg arguments of the H264 transcoding profile.
pub open spec fn transcode_args(ctx: ContextView) -> Seq<Seq<char>> {
    input_block(ctx, (ctx.output.start_num * CHUNK_SIZE) as nat) + x264_block() + scale_block(ctx)
        + bitrate_block(ctx) + passthrough_block() + hls_block(ctx) + temp_file_block() + init_block(ctx)
        + chunk_block() + output_block(ctx)
}

/// Seeks from the start for a positive offset and from the end otherwise.
pub open spec fn raw_seek_block(ctx: ContextView) -> Seq<Seq<char>> {
    match ctx.input.seek {
        Some(seek) => seq![if seek > 0 { "-ss"@ } else { "-sseof"@ }, int_text(seek as int)],
        None => Seq::empty(),
    }
}

/// Limits how many seconds are transcoded.
pub open spec fn raw_limit_block(ctx: ContextView) -> Seq<Seq<char>> {
    match ctx.output.max_to_transcode {
        Some(m) => seq!["-t"@, dec(m as nat)],
        None => Seq::empty(),
    }
}

/// Raw RGB frames.
pub open spec fn raw_codec_block(ctx: ContextView) -> Seq<Seq<char>> {
    seq![
        "-map"@, stream_selector(ctx), "-c:v"@, "rawvideo"@, "-flags2"@, "-pix_fmt"@, "rgb24"@,
        "-preset"@, "ultrafast"@,
    ]
}

/// Writes the frames to stdout.
pub open spec fn raw_output_block() -> Seq<Seq<char>> {
    seq!["-f"@, "data"@, "-"@]
}

/// The ffmpeg arguments of the raw video profile.
pub open spec fn raw_video_args(ctx: ContextView) -> Seq<Seq<char>> {
    seq!["-y"@] + raw_seek_block(ctx) + raw_limit_block(ctx) + raw_codec_block(ctx) + scale_block(ctx)
        + raw_output_block()
}

fn copy_codec_args() -> (r: Vec<String>)
    ensures
        r.deep_view() == copy_codec_block(),
{
    let mut r = new_args();
    push_text(&mut r, "-c:0");
    push_text(&mut r, "copy");
    assert(r.deep_view() =~= copy_codec_block());
    r
}

fn x264_args() -> (r: Vec<String>)
    ensures
        r.deep_view() == x264_block(),
{
    let mut r = new_args();
    push_text(&mut r, "-c:0");
    push_text(&mut r, "libx264");
    push_text(&mut r, "-preset");
    push_text(&mut r, "veryfast");
    push_text(&mut r, "-x264-params");
    push_text(&mut r, "bframes=0");
    assert(r.deep_view() =~= x264_block());
    r
}

fn raw_seek_args(ctx: &ProfileContext) -> (r: Vec<String>)
    ensures
        r.deep_view() == raw_seek_block(ctx@),
{
    let mut r = new_args();
    match ctx.input_ctx.seek {
        Some(seek) => {
            if seek > 0 {
                push_text(&mut r, "-ss");
            } else {
                push_text(&mut r, "-sseof");
            }
            push_string(&mut r, i64_to_text(seek));
        },
        None => {},
    }
    assert(r.deep_view() =~= raw_seek_block(ctx@));
    r
}

fn raw_limit_args(ctx: &ProfileContext) -> (r: Vec<String>)
    ensures
        r.deep_view() == raw_limit_block(ctx@),
{
    let mut r = new_args();
    match ctx.output_ctx.max_to_transcode {
        Some(m) => {
            push_text(&mut r, "-t");
            push_string(&mut r, u64_to_text(m));
        },
        None => {},
    }
    assert(r.deep_view() =~= raw_limit_block(ctx@));
    r
}

fn raw_codec_args(ctx: &ProfileContext) -> (r: Vec<String>)
    ensures
        r.deep_view() == raw_codec_block(ctx@),
{
    let mut r = new_args();
    push_text(&mut r, "-map");
    push_string(&mut r, stream_arg(ctx));
    push_text(&mut r, "-c:v");
    push_text(&mut r, "rawvideo");
    push_text(&mut r, "-flags2");
    push_text(&mut r, "-pix_fmt");
    push_text(&mut r, "rgb24");
    push_text(&mut r, "-preset");
    push_text(&mut r, "ultrafast");
    assert(r.deep_view() =~= raw_codec_block(ctx@));
    r
}

fn raw_output_args() -> (r: Vec<String>)
    ensures
        r.deep_view() == raw_output_block(),
{
    let mut r = new_args();
    push_text(&mut r, "-f");
    push_text(&mut r, "data");
    push_text(&mut r, "-");
    assert(r.deep_view() =~= raw_output_block());
    r
}

/// Copies an H264 stream into HLS segments without re-encoding it.
#[derive(Debug, Clone, Copy)]
pub struct H264TransmuxProfile;

impl TranscodingProfile for H264TransmuxProfile {
    open spec fn kind(&self) -> ProfileType {
        ProfileType::Transmux
    }

    open spec fn produces(&self) -> StreamType {
        StreamType::Video
    }

    open spec fn name_spec(&self) -> Seq<char> {
        "H264TransmuxProfile"@
    }

    open spec fn tag_spec(&self) -> Seq<char> {
        "h264_copy"@
    }

    open spec fn stdio_spec(&self) -> bool {
        false
    }

    open spec fn enabled_spec(&self) -> bool {
        true
    }

    open spec fn disabled_reason(&self) -> Seq<char> {
        Seq::empty()
    }

    open spec fn buildable(&self, ctx: ContextView) -> bool {
        ctx.output.start_num * CHUNK_SIZE <= u32::MAX
    }

    open spec fn args_spec(&self, ctx: ContextView) -> Seq<Seq<char>> {
        transmux_args(ctx)
    }

    open spec fn supports_spec(&self, ctx: ContextView) -> bool {
        &&& ctx.input.bframes.unwrap_or(0) == 0
        &&& ctx.input.codec == ctx.output.codec
        &&& ctx.input.codec == "h264"@
    }

    open spec fn unsupported_reason(&self, ctx: ContextView) -> Seq<char> {
        if ctx.input.bframes.unwrap_or(0) != 0 {
            "Transmuxing streams containing b-frames is currently not supported."@
        } else {
            "Profile only supports h264 input and output codecs."@
        }
    }

    fn profile_type(&self) -> (r: ProfileType) {
        ProfileType::Transmux
    }

    fn stream_type(&self) -> (r: StreamType) {
        StreamType::Video
    }

    fn is_enabled(&self) -> (r: Result<(), NightfallError>) {
        Ok(())
    }

    fn build(&self, ctx: ProfileContext) -> (r: Option<Vec<String>>) {
        if self.supports(&ctx).is_err() || !seek_fits(ctx.output_ctx.start_num, CHUNK_SIZE) {
            return None;
        }
        let seek = ctx.output_ctx.start_num * CHUNK_SIZE;
        let mut args = input_args(&ctx, seek as u64);
        append_args(&mut args, copy_codec_args());
        append_args(&mut args, passthrough_args());
        append_args(&mut args, hls_args(&ctx));
        append_args(&mut args, temp_file_args());
        append_args(&mut args, init_args(&ctx));
        append_args(&mut args, chunk_args());
        append_args(&mut args, output_args(&ctx));
        Some(args)
    }

    fn supports(&self, ctx: &ProfileContext) -> (r: Result<(), NightfallError>) {
        let bframes = match ctx.input_ctx.bframes {
            Some(b) => b,
            None => 0,
        };
        if bframes != 0 {
            return Err(
                NightfallError::ProfileNotSupported(
                    String::from_str("Transmuxing streams containing b-frames is currently not supported."),
                ),
            );
        }
        if str_eq(ctx.input_ctx.codec.as_str(), ctx.output_ctx.codec.as_str()) && str_eq(
            ctx.input_ctx.codec.as_str(),
            "h264",
        ) {
            return Ok(());
        }
        Err(
            NightfallError::ProfileNotSupported(
                String::from_str("Profile only supports h264 input and output codecs."),
            ),
        )
    }

    fn tag(&self) -> (r: &str) {
        "h264_copy"
    }

    fn name(&self) -> (r: &str) {
        "H264TransmuxProfile"
    }

    fn is_stdio_stream(&self) -> (r: bool) {
        false
    }
}

/// Re-encodes a video stream to H264 with libx264.
#[derive(Debug, Clone, Copy)]
pub struct H264TranscodeProfile;

impl TranscodingProfile for H264TranscodeProfile {
    open spec fn kind(&self) -> ProfileType {
        ProfileType::Transcode
    }

    open spec fn produces(&self) -> StreamType {
        StreamType::Video
    }

    open spec fn name_spec(&self) -> Seq<char> {
        "H264TranscodeProfile"@
    }

    open spec fn tag_spec(&self) -> Seq<char> {
        "h264"@
    }

    open spec fn stdio_spec(&self) -> bool {
        false
    }

    open spec fn enabled_spec(&self) -> bool {
        true
    }

    open spec fn disabled_reason(&self) -> Seq<char> {
        Seq::empty()
    }

    open spec fn buildable(&self, ctx: ContextView) -> bool {
        ctx.output.start_num * CHUNK_SIZE <= u32::MAX
    }

    open spec fn args_spec(&self, ctx: ContextView) -> Seq<Seq<char>> {
        transcode_args(ctx)
    }

    open spec fn supports_spec(&self, ctx: ContextView) -> bool {
        ctx.output.codec == "h264"@
    }

    open spec fn unsupported_reason(&self, ctx: ContextView) -> Seq<char> {
        "Got output codec "@ + ctx.output.codec + " but profile only supports `h264`."@
    }

    fn profile_type(&self) -> (r: ProfileType) {
        ProfileType::Transcode
    }

    fn stream_type(&self) -> (r: StreamType) {
        StreamType::Video
    }

    fn is_enabled(&self) -> (r: Result<(), NightfallError>) {
        Ok(())
    }

    fn build(&self, ctx: ProfileContext) -> (r: Option<Vec<String>>) {
        if self.supports(&ctx).is_err() || !seek_fits(ctx.output_ctx.start_num, CHUNK_SIZE) {
            return None;
        }
        let seek = ctx.output_ctx.start_num * CHUNK_SIZE;
        let mut args = input_args(&ctx, seek as u64);
        append_args(&mut args, x264_args());
        append_args(&mut args, scale_args(&ctx));
        append_args(&mut args, bitrate_args(&ctx));
        append_args(&mut args, passthrough_args());
        append_args(&mut args, hls_args(&ctx));
        append_args(&mut args, temp_file_args());
        append_args(&mut args, init_args(&ctx));
        append_args(&mut args, chunk_args());
        append_args(&mut args, output_args(&ctx));
        Some(args)
    }

    fn supports(&self, ctx: &ProfileContext) -> (r: Result<(), NightfallError>) {
        if str_eq(ctx.output_ctx.codec.as_str(), "h264") {
            return Ok(());
        }
        Err(
            NightfallError::ProfileNotSupported(
                concat3(
                    "Got output codec ",
                    ctx.output_ctx.codec.as_str(),
                    " but profile only supports `h264`.",
                ),
            ),
        )
    }

    fn tag(&self) -> (r: &str) {
        "h264"
    }

    fn name(&self) -> (r: &str) {
        "H264TranscodeProfile"
    }

    fn is_stdio_stream(&self) -> (r: bool) {
        false
    }
}

/// Decodes a video stream to raw RGB frames written to stdout.
#[derive(Debug, Clone, Copy)]
pub struct RawVideoTranscodeProfile;

impl TranscodingProfile for RawVideoTranscodeProfile {
    open spec fn kind(&self) -> ProfileType {
        ProfileType::Transcode
    }

    open spec fn produces(&self) -> StreamType {
        StreamType::Video
    }

    open spec fn name_spec(&self) -> Seq<char> {
        "RawVideoTranscodeProfile"@
    }

    open spec fn tag_spec(&self) -> Seq<char> {
        "rawvideo"@
    }

    open spec fn stdio_spec(&self) -> bool {
        true
    }

    open spec fn enabled_spec(&self) -> bool {
        true
    }

    open spec fn disabled_reason(&self) -> Seq<char> {
        Seq::empty()
    }

    open spec fn buildable(&self, ctx: ContextView) -> bool {
        true
    }

    open spec fn args_spec(&self, ctx: ContextView) -> Seq<Seq<char>> {
        raw_video_args(ctx)
    }

    open spec fn supports_spec(&self, ctx: ContextView) -> bool {
        ctx.output.codec == "rawvideo"@
    }

    open spec fn unsupported_reason(&self, ctx: ContextView) -> Seq<char> {
        "Codec "@ + ctx.output.codec + " is not supported."@
    }

    fn profile_type(&self) -> (r: ProfileType) {
        ProfileType::Transcode
    }

    fn stream_type(&self) -> (r: StreamType) {
        StreamType::Video
    }

    fn is_enabled(&self) -> (r: Result<(), NightfallError>) {
        Ok(())
    }

    fn build(&self, ctx: ProfileContext) -> (r: Option<Vec<String>>) {
        if self.supports(&ctx).is_err() {
            return None;
        }
        let mut args = new_args();
        push_text(&mut args, "-y");
        proof {
            assert(args.deep_view() =~= seq!["-y"@]);
        }
        append_args(&mut args, raw_seek_args(&ctx));
        append_args(&mut args, raw_limit_args(&ctx));
        append_args(&mut args, raw_codec_args(&ctx));
        append_args(&mut args, scale_args(&ctx));
        append_args(&mut args, raw_output_args());
        Some(args)
    }

    fn supports(&self, ctx: &ProfileContext) -> (r: Result<(), NightfallError>) {
        if str_eq(ctx.output_ctx.codec.as_str(), "rawvideo") {
            return Ok(());
        }
        Err(
            NightfallError::ProfileNotSupported(
                concat3("Codec ", ctx.output_ctx.codec.as_str(), " is not supported."),
            ),
        )
    }

    fn tag(&self) -> (r: &str) {
        "rawvideo"
    }

    fn name(&self) -> (r: &str) {
        "RawVideoTranscodeProfile"
    }

    fn is_stdio_stream(&self) -> (r: bool) {
        true
    }
}

} // verus!
