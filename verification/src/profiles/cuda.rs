//! NVENC/NVDEC transcoding.
use vstd::prelude::*;

use super::ContextView;
use super::ProfileContext;
use super::ProfileType;
use super::StreamType;
use super::TranscodingProfile;
use super::video::{
    seek_fits,
    bitrate_args, bitrate_block, discont_flags, get_discont_flags, gop_args, gop_block, hls_args,
    hls_block, init_args, init_block, input_args, input_block, new_args, output_args, output_block,
    passthrough_args, passthrough_block, scale_arg, scale_text, temp_file_args, temp_file_block,
};
use crate::error::NightfallError;
use crate::text::{append_args, push_string, push_text, str_eq};

verus! {

/// Decodes on the GPU and keeps the frames there.
pub open spec fn cuda_hwaccel_block() -> Seq<Seq<char>> {
    seq!["-hwaccel"@, "cuda"@, "-hwaccel_output_format"@, "cuda"@]
}

/// Encodes with NVENC without B-frames.
pub open spec fn nvenc_block() -> Seq<Seq<char>> {
    seq!["-c:0"@, "h264_nvenc"@, "-bf"@, "0"@]
}

/// Scales on the GPU when a height is requested.
pub open spec fn cuda_scale_block(ctx: ContextView) -> Seq<Seq<char>> {
    match ctx.output.height {
        Some(h) => seq!["-vf"@, scale_text("scale_cuda"@, h, ctx.output.width)],
        None => Seq::empty(),
    }
}

/// Fixed key frame interval and fragment duration.
pub open spec fn keyint_block() -> Seq<Seq<char>> {
    seq!["-keyint_min"@, "120"@, "-g"@, "120"@, "-frag_duration"@, "5000000"@]
}

/// Every segment starts with a key frame.
pub open spec fn independent_block() -> Seq<Seq<char>> {
    seq!["-hls_flags"@, "independent_segments"@]
}

/// The ffmpeg arguments of the CUDA profile.
pub open spec fn cuda_args(ctx: ContextView) -> Seq<Seq<char>> {
    cuda_hwaccel_block() + input_block(ctx, (ctx.output.start_num * ctx.output.target_gop) as nat)
        + nvenc_block() + cuda_scale_block(ctx) + bitrate_block(ctx) + passthrough_block() + keyint_block()
        + discont_flags(ctx) + hls_block(ctx) + independent_block() + temp_file_block() + init_block(ctx)
        + gop_block(ctx.output.target_gop) + output_block(ctx)
}

fn cuda_hwaccel_args() -> (r: Vec<String>)
    ensures
        r.deep_view() == cuda_hwaccel_block(),
{
    let mut r = new_args();
    push_text(&mut r, "-hwaccel");
    push_text(&mut r, "cuda");
    push_text(&mut r, "-hwaccel_output_format");
    push_text(&mut r, "cuda");
    assert(r.deep_view() =~= cuda_hwaccel_block());
    r
}

fn nvenc_args() -> (r: Vec<String>)
    ensures
        r.deep_view() == nvenc_block(),
{
    let mut r = new_args();
    push_text(&mut r, "-c:0");
    push_text(&mut r, "h264_nvenc");
    push_text(&mut r, "-bf");
    push_text(&mut r, "0");
    assert(r.deep_view() =~= nvenc_block());
    r
}

fn cuda_scale_args(ctx: &ProfileContext) -> (r: Vec<String>)
    ensures
        r.deep_view() == cuda_scale_block(ctx@),
{
    let mut r = new_args();
    match ctx.output_ctx.height {
        Some(h) => {
            push_text(&mut r, "-vf");
            push_string(&mut r, scale_arg("scale_cuda", h, ctx.output_ctx.width));
        },
        None => {},
    }
    assert(r.deep_view() =~= cuda_scale_block(ctx@));
    r
}

/// Builds the key frame interval block.
pub fn keyint_args() -> (r: Vec<String>)
    ensures
        r.deep_view() == keyint_block(),
{
    let mut r = new_args();
    push_text(&mut r, "-keyint_min");
    push_text(&mut r, "120");
    push_text(&mut r, "-g");
    push_text(&mut r, "120");
    push_text(&mut r, "-frag_duration");
    push_text(&mut r, "5000000");
    assert(r.deep_view() =~= keyint_block());
    r
}

/// Builds the independent segments block.
pub fn independent_args() -> (r: Vec<String>)
    ensures
        r.deep_view() == independent_block(),
{
    let mut r = new_args();
    push_text(&mut r, "-hls_flags");
    push_text(&mut r, "independent_segments");
    assert(r.deep_view() =~= independent_block());
    r
}

/// Cuda (NVENC/NVDEC) transcoding of video streams to H264.
#[derive(Debug, Clone, Copy)]
pub struct CudaTranscodeProfile;

impl TranscodingProfile for CudaTranscodeProfile {
    open spec fn kind(&self) -> ProfileType {
        ProfileType::HardwareTranscode
    }

    open spec fn produces(&self) -> StreamType {
        StreamType::Video
    }

    open spec fn name_spec(&self) -> Seq<char> {
        "CudaTranscodeProfile"@
    }

    open spec fn tag_spec(&self) -> Seq<char> {
        "h264_cuda"@
    }

    open spec fn stdio_spec(&self) -> bool {
        false
    }

    open spec fn enabled_spec(&self) -> bool {
        true
    }

    open spec fn disabled_reason(&self) -> Seq<char> {
        Seq::empty()
    }

    open spec fn buildable(&self, ctx: ContextView) -> bool {
        ctx.output.start_num * ctx.output.target_gop <= u32::MAX
    }

    open spec fn args_spec(&self, ctx: ContextView) -> Seq<Seq<char>> {
        cuda_args(ctx)
    }

    /// Only H264 input streams are transcoded, to H264.
    open spec fn supports_spec(&self, ctx: ContextView) -> bool {
        ctx.input.codec == "h264"@ && ctx.output.codec == "h264"@
    }

    open spec fn unsupported_reason(&self, ctx: ContextView) -> Seq<char> {
        if ctx.input.codec != "h264"@ {
            "Profile only supports h264 input streams."@
        } else {
            "Profile only supports h264 output streams."@
        }
    }

    fn profile_type(&self) -> (r: ProfileType) {
        ProfileType::HardwareTranscode
    }

    fn stream_type(&self) -> (r: StreamType) {
        StreamType::Video
    }

    fn is_enabled(&self) -> (r: Result<(), NightfallError>) {
        Ok(())
    }

    fn build(&self, ctx: ProfileContext) -> (r: Option<Vec<String>>) {
        if self.supports(&ctx).is_err() || !seek_fits(ctx.output_ctx.start_num, ctx.output_ctx.target_gop) {
            return None;
        }
        let seek = ctx.output_ctx.start_num * ctx.output_ctx.target_gop;
        let mut args = cuda_hwaccel_args();
        append_args(&mut args, input_args(&ctx, seek as u64));
        append_args(&mut args, nvenc_args());
        append_args(&mut args, cuda_scale_args(&ctx));
        append_args(&mut args, bitrate_args(&ctx));
        append_args(&mut args, passthrough_args());
        append_args(&mut args, keyint_args());
        append_args(&mut args, get_discont_flags(&ctx));
        append_args(&mut args, hls_args(&ctx));
        append_args(&mut args, independent_args());
        append_args(&mut args, temp_file_args());
        append_args(&mut args, init_args(&ctx));
        append_args(&mut args, gop_args(ctx.output_ctx.target_gop));
        append_args(&mut args, output_args(&ctx));
        Some(args)
    }

    fn supports(&self, ctx: &ProfileContext) -> (r: Result<(), NightfallError>) {
        if !str_eq(ctx.input_ctx.codec.as_str(), "h264") {
            return Err(NightfallError::ProfileNotSupported(String::from_str("Profile only supports h264 input streams.")));
        }
        if !str_eq(ctx.output_ctx.codec.as_str(), "h264") {
            return Err(
                NightfallError::ProfileNotSupported(String::from_str("Profile only supports h264 output streams.")),
            );
        }
        Ok(())
    }

    fn tag(&self) -> (r: &str) {
        "h264_cuda"
    }

    fn name(&self) -> (r: &str) {
        "CudaTranscodeProfile"
    }

    fn is_stdio_stream(&self) -> (r: bool) {
        false
    }
}

} // verus!
