//! Subtitle profiles.
use vstd::prelude::*;

use super::ContextView;
use super::ProfileContext;
use super::ProfileType;
use super::StreamType;
use super::TranscodingProfile;
use super::video::{new_args, stream_arg, stream_selector};
use crate::error::NightfallError;
use crate::text::{concat3, push_string, push_text, str_eq};

verus! {

/// Reads the whole input and writes the selected subtitle stream to stdout in `format`.
pub open spec fn subtitle_args(ctx: ContextView, format: Seq<char>) -> Seq<Seq<char>> {
    seq!["-y"@, "-i"@, ctx.file, "-map"@, stream_selector(ctx), "-f"@, format, "-"@]
}

fn subtitle_args_for(ctx: &ProfileContext, format: &str) -> (r: Vec<String>)
    ensures
        r.deep_view() == subtitle_args(ctx@, format@),
{
    let mut r = new_args();
    push_text(&mut r, "-y");
    push_text(&mut r, "-i");
    push_string(&mut r, ctx.file.clone());
    push_text(&mut r, "-map");
    push_string(&mut r, stream_arg(ctx));
    push_text(&mut r, "-f");
    push_text(&mut r, format);
    push_text(&mut r, "-");
    assert(r.deep_view() =~= subtitle_args(ctx@, format@));
    r
}

/// Converts text subtitles to WebVTT.
#[derive(Debug, Clone, Copy)]
pub struct WebvttTranscodeProfile;

impl TranscodingProfile for WebvttTranscodeProfile {
    open spec fn kind(&self) -> ProfileType {
        ProfileType::Transcode
    }

    open spec fn produces(&self) -> StreamType {
        StreamType::Subtitle
    }

    open spec fn name_spec(&self) -> Seq<char> {
        "WebvttTranscodeProfile"@
    }

    open spec fn tag_spec(&self) -> Seq<char> {
        "webvtt"@
    }

    open spec fn stdio_spec(&self) -> bool {
        true
    }

    open spec fn enabled_spec(&self) -> bool {
        true
    }

    open spec fn disabled_reason(&self) -> Seq<char> {
        Seq::empty()
    }

    open spec fn buildable(&self, ctx: ContextView) -> bool {
        true
    }

    open spec fn args_spec(&self, ctx: ContextView) -> Seq<Seq<char>> {
        subtitle_args(ctx, "webvtt"@)
    }

    open spec fn supports_spec(&self, ctx: ContextView) -> bool {
        &&& (ctx.input.codec == "srt"@ || ctx.input.codec == "ass"@ || ctx.input.codec == "ssa"@
            || ctx.input.codec == "subrip"@)
        &&& ctx.output.codec == "webvtt"@
    }

    open spec fn unsupported_reason(&self, ctx: ContextView) -> Seq<char> {
        "Codec "@ + ctx.input.codec + " not supported."@
    }

    fn profile_type(&self) -> (r: ProfileType) {
        ProfileType::Transcode
    }

    fn stream_type(&self) -> (r: StreamType) {
        StreamType::Subtitle
    }

    fn is_enabled(&self) -> (r: Result<(), NightfallError>) {
        Ok(())
    }

    fn build(&self, ctx: ProfileContext) -> (r: Option<Vec<String>>) {
        if self.supports(&ctx).is_err() {
            return None;
        }
        Some(subtitle_args_for(&ctx, "webvtt"))
    }

    fn supports(&self, ctx: &ProfileContext) -> (r: Result<(), NightfallError>) {
        let codec = ctx.input_ctx.codec.as_str();
        let known = str_eq(codec, "srt") || str_eq(codec, "ass") || str_eq(codec, "ssa") || str_eq(
            codec,
            "subrip",
        );
        if known && str_eq(ctx.output_ctx.codec.as_str(), "webvtt") {
            return Ok(());
        }
        Err(NightfallError::ProfileNotSupported(concat3("Codec ", codec, " not supported.")))
    }

    fn tag(&self) -> (r: &str) {
        "webvtt"
    }

    fn name(&self) -> (r: &str) {
        "WebvttTranscodeProfile"
    }

    fn is_stdio_stream(&self) -> (r: bool) {
        true
    }
}

/// Extracts ASS/SSA subtitles unchanged.
#[derive(Debug, Clone, Copy)]
pub struct AssExtractProfile;

impl TranscodingProfile for AssExtractProfile {
    open spec fn kind(&self) -> ProfileType {
        ProfileType::Transmux
    }

    open spec fn produces(&self) -> StreamType {
        StreamType::Subtitle
    }

    open spec fn name_spec(&self) -> Seq<char> {
        "AssExtractProfile"@
    }

    open spec fn tag_spec(&self) -> Seq<char> {
        "ass"@
    }

    open spec fn stdio_spec(&self) -> bool {
        true
    }

    open spec fn enabled_spec(&self) -> bool {
        true
    }

    open spec fn disabled_reason(&self) -> Seq<char> {
        Seq::empty()
    }

    open spec fn buildable(&self, ctx: ContextView) -> bool {
        true
    }

    open spec fn args_spec(&self, ctx: ContextView) -> Seq<Seq<char>> {
        subtitle_args(ctx, "ass"@)
    }

    open spec fn supports_spec(&self, ctx: ContextView) -> bool {
        &&& (ctx.input.codec == "ass"@ || ctx.input.codec == "ssa"@)
        &&& ctx.output.codec == "ass"@
    }

    open spec fn unsupported_reason(&self, ctx: ContextView) -> Seq<char> {
        "Profile only supports extracting ass subtitles."@
    }

    fn profile_type(&self) -> (r: ProfileType) {
        ProfileType::Transmux
    }

    fn stream_type(&self) -> (r: StreamType) {
        StreamType::Subtitle
    }

    fn is_enabled(&self) -> (r: Result<(), NightfallError>) {
        Ok(())
    }

    fn build(&self, ctx: ProfileContext) -> (r: Option<Vec<String>>) {
        if self.supports(&ctx).is_err() {
            return None;
        }
        Some(subtitle_args_for(&ctx, "ass"))
    }

    fn supports(&self, ctx: &ProfileContext) -> (r: Result<(), NightfallError>) {
        let codec = ctx.input_ctx.codec.as_str();
        if (str_eq(codec, "ass") || str_eq(codec, "ssa")) && str_eq(ctx.output_ctx.codec.as_str(), "ass") {
            return Ok(());
        }
        Err(
            NightfallError::ProfileNotSupported(
                String::from_str("Profile only supports extracting ass subtitles."),
            ),
        )
    }

    fn tag(&self) -> (r: &str) {
        "ass"
    }

    fn name(&self) -> (r: &str) {
        "AssExtractProfile"
    }

    fn is_stdio_stream(&self) -> (r: bool) {
        true
    }
}

} // verus!
