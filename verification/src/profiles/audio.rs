//! AAC audio transcoding.
use vstd::prelude::*;

use super::ContextView;
use super::ProfileContext;
use super::ProfileType;
use super::StreamType;
use super::TranscodingProfile;
use super::video::{seek_fits, discont_flags, get_discont_flags, gop_args, gop_block, hls_args, hls_block, init_args, init_block, input_args, input_block, new_args, output_args, output_block, temp_file_args, temp_file_block};
use crate::error::NightfallError;
use crate::text::{append_args, dec, push_string, push_text, str_eq, u64_to_text};

verus! {

/// The down-mix filter used when the channel count changes.
pub open spec fn pan_filter() -> Seq<char> {
    "pan=stereo|FL=0.5*FC+0.707*FL+0.707*BL+0.5*LFE|FR=0.5*FC+0.707*FR+0.707*BR+0.5*LFE"@
}

/// Encodes to AAC, down-mixing when the channel count changes, at the requested bitrate.
pub open spec fn aac_codec_block(ctx: ContextView) -> Seq<Seq<char>> {
    seq!["-c:0"@, "aac"@] + (if ctx.input.audio_channels != ctx.output.audio_channels {
        seq!["-af"@, pan_filter()]
    } else {
        Seq::empty()
    }) + seq!["-ab"@, dec(ctx.output.bitrate.unwrap_or(120000) as nat)]
}

/// Timestamps for audio: no sync, non negative.
pub open spec fn audio_sync_block() -> Seq<Seq<char>> {
    seq!["-start_at_zero"@, "-vsync"@, "-1"@, "-avoid_negative_ts"@, "make_non_negative"@]
}

/// The ffmpeg arguments of the AAC profile.
pub open spec fn aac_args(ctx: ContextView) -> Seq<Seq<char>> {
    input_block(ctx, (ctx.output.start_num * ctx.output.target_gop) as nat) + aac_codec_block(ctx)
        + audio_sync_block() + hls_block(ctx) + temp_file_block() + discont_flags(ctx) + init_block(ctx)
        + gop_block(ctx.output.target_gop) + output_block(ctx)
}

fn aac_codec_args(ctx: &ProfileContext) -> (r: Vec<String>)
    ensures
        r.deep_view() == aac_codec_block(ctx@),
{
    let mut r = new_args();
    push_text(&mut r, "-c:0");
    push_text(&mut r, "aac");
    if ctx.input_ctx.audio_channels != ctx.output_ctx.audio_channels {
        push_text(&mut r, "-af");
        push_text(
            &mut r,
            "pan=stereo|FL=0.5*FC+0.707*FL+0.707*BL+0.5*LFE|FR=0.5*FC+0.707*FR+0.707*BR+0.5*LFE",
        );
    }
    push_text(&mut r, "-ab");
    let ab = match ctx.output_ctx.bitrate {
        Some(b) => b,
        None => 120000,
    };
    push_string(&mut r, u64_to_text(ab));
    assert(r.deep_view() =~= aac_codec_block(ctx@));
    r
}

fn audio_sync_args() -> (r: Vec<String>)
    ensures
        r.deep_view() == audio_sync_block(),
{
    let mut r = new_args();
    push_text(&mut r, "-start_at_zero");
    push_text(&mut r, "-vsync");
    push_text(&mut r, "-1");
    push_text(&mut r, "-avoid_negative_ts");
    push_text(&mut r, "make_non_negative");
    assert(r.deep_view() =~= audio_sync_block());
    r
}

/// Transcodes audio streams to AAC.
#[derive(Debug, Clone, Copy)]
pub struct AacTranscodeProfile;

impl TranscodingProfile for AacTranscodeProfile {
    open spec fn kind(&self) -> ProfileType {
        ProfileType::Transcode
    }

    open spec fn produces(&self) -> StreamType {
        StreamType::Audio
    }

    open spec fn name_spec(&self) -> Seq<char> {
        "AacTranscodeProfile"@
    }

    open spec fn tag_spec(&self) -> Seq<char> {
        "aac"@
    }

    open spec fn stdio_spec(&self) -> bool {
        false
    }

    open spec fn enabled_spec(&self) -> bool {
        true
    }

    open spec fn disabled_reason(&self) -> Seq<char> {
        Seq::empty()
    }

    open spec fn buildable(&self, ctx: ContextView) -> bool {
        ctx.output.start_num * ctx.output.target_gop <= u32::MAX
    }

    open spec fn args_spec(&self, ctx: ContextView) -> Seq<Seq<char>> {
        aac_args(ctx)
    }

    open spec fn supports_spec(&self, ctx: ContextView) -> bool {
        ctx.output.codec == "aac"@
    }

    open spec fn unsupported_reason(&self, ctx: ContextView) -> Seq<char> {
        "Profile not supported."@
    }

    fn profile_type(&self) -> (r: ProfileType) {
        ProfileType::Transcode
    }

    fn stream_type(&self) -> (r: StreamType) {
        StreamType::Audio
    }

    fn is_enabled(&self) -> (r: Result<(), NightfallError>) {
        Ok(())
    }

    fn build(&self, ctx: ProfileContext) -> (r: Option<Vec<String>>) {
        if self.supports(&ctx).is_err() || !seek_fits(ctx.output_ctx.start_num, ctx.output_ctx.target_gop) {
            return None;
        }
        let seek = ctx.output_ctx.start_num * ctx.output_ctx.target_gop;
        let mut args = input_args(&ctx, seek as u64);
        append_args(&mut args, aac_codec_args(&ctx));
        append_args(&mut args, audio_sync_args());
        append_args(&mut args, hls_args(&ctx));
        append_args(&mut args, temp_file_args());
        append_args(&mut args, get_discont_flags(&ctx));
        append_args(&mut args, init_args(&ctx));
        append_args(&mut args, gop_args(ctx.output_ctx.target_gop));
        append_args(&mut args, output_args(&ctx));
        Some(args)
    }

    fn supports(&self, ctx: &ProfileContext) -> (r: Result<(), NightfallError>) {
        if str_eq(ctx.output_ctx.codec.as_str(), "aac") {
            return Ok(());
        }
        Err(NightfallError::ProfileNotSupported(String::from_str("Profile not supported.")))
    }

    fn tag(&self) -> (r: &str) {
        "aac"
    }

    fn name(&self) -> (r: &str) {
        "AacTranscodeProfile"
    }

    fn is_stdio_stream(&self) -> (r: bool) {
        false
    }
}

} // verus!
