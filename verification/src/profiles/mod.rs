//! Transcoding profiles: how ffmpeg is invoked for each kind of output stream.
use vstd::prelude::*;

use crate::error::NightfallError;
use crate::text::dec;

pub mod audio;
pub mod cuda;
pub mod subtitle;
pub mod vaapi;
pub mod video;

pub use audio::AacTranscodeProfile;
pub use cuda::CudaTranscodeProfile;
pub use subtitle::AssExtractProfile;
pub use subtitle::WebvttTranscodeProfile;
pub use vaapi::VaapiTranscodeProfile;
pub use video::H264TranscodeProfile;
pub use video::H264TransmuxProfile;
pub use video::RawVideoTranscodeProfile;








verus! {

/// The kind of work a profile does; profiles are tried in this order.
#[derive(Clone, Copy, Debug, PartialEq, Eq, Structural, PartialOrd, Ord, Hash)]
pub enum ProfileType {
    Transcode,
    Transmux,
    HardwareTranscode,
}

/// The kind of stream a profile produces.
#[derive(Clone, Copy, Debug, PartialEq, Eq, Structural, Hash)]
pub enum StreamType {
    Video,
    Audio,
    Subtitle,
}

/// The position of a profile type in the order in which profiles are tried.
pub open spec fn profile_type_rank(t: ProfileType) -> nat {
    match t {
        ProfileType::Transcode => 0,
        ProfileType::Transmux => 1,
        ProfileType::HardwareTranscode => 2,
    }
}

/// Information about the input stream.
#[derive(Clone, Debug)]
pub struct InputCtx {
    pub stream: usize,
    pub codec: String,
    pub pix_fmt: String,
    pub profile: String,
    pub bframes: Option<u64>,
    pub bitrate: u64,
    pub seek: Option<i64>,
    pub audio_channels: u64,
}

/// Information about the requested output stream.
#[derive(Clone, Debug)]
pub struct OutputCtx {
    pub codec: String,
    pub start_num: u32,
    pub outdir: String,
    pub max_to_transcode: Option<u64>,
    pub bitrate: Option<u64>,
    pub height: Option<i64>,
    pub width: Option<i64>,
    pub audio_channels: u64,
    pub target_gop: u32,
}

/// A context which contains information we may need when building the ffmpeg arguments.
#[derive(Clone, Debug)]
pub struct ProfileContext {
    pub file: String,
    pub pre_args: Vec<String>,
    pub input_ctx: InputCtx,
    pub output_ctx: OutputCtx,
    pub ffmpeg_bin: String,
}

/// The mathematical value of an `InputCtx`.
pub struct InputView {
    pub stream: usize,
    pub codec: Seq<char>,
    pub pix_fmt: Seq<char>,
    pub profile: Seq<char>,
    pub bframes: Option<u64>,
    pub bitrate: u64,
    pub seek: Option<i64>,
    pub audio_channels: u64,
}

/// The mathematical value of an `OutputCtx`.
pub struct OutputView {
    pub codec: Seq<char>,
    pub start_num: u32,
    pub outdir: Seq<char>,
    pub max_to_transcode: Option<u64>,
    pub bitrate: Option<u64>,
    pub height: Option<i64>,
    pub width: Option<i64>,
    pub audio_channels: u64,
    pub target_gop: u32,
}

/// The mathematical value of a `ProfileContext`.
pub struct ContextView {
    pub file: Seq<char>,
    pub pre_args: Seq<Seq<char>>,
    pub input: InputView,
    pub output: OutputView,
    pub ffmpeg_bin: Seq<char>,
}

impl View for InputCtx {
    type V = InputView;

    open spec fn view(&self) -> InputView {
        InputView {
            stream: self.stream,
            codec: self.codec@,
            pix_fmt: self.pix_fmt@,
            profile: self.profile@,
            bframes: self.bframes,
            bitrate: self.bitrate,
            seek: self.seek,
            audio_channels: self.audio_channels,
        }
    }
}

impl View for OutputCtx {
    type V = OutputView;

    open spec fn view(&self) -> OutputView {
        OutputView {
            codec: self.codec@,
            start_num: self.start_num,
            outdir: self.outdir@,
            max_to_transcode: self.max_to_transcode,
            bitrate: self.bitrate,
            height: self.height,
            width: self.width,
            audio_channels: self.audio_channels,
            target_gop: self.target_gop,
        }
    }
}

impl View for ProfileContext {
    type V = ContextView;

    open spec fn view(&self) -> ContextView {
        ContextView {
            file: self.file@,
            pre_args: self.pre_args.deep_view(),
            input: self.input_ctx@,
            output: self.output_ctx@,
            ffmpeg_bin: self.ffmpeg_bin@,
        }
    }
}

impl Default for InputCtx {
    fn default() -> (r: Self)
        ensures
            r@ == (InputView {
                stream: 0,
                codec: Seq::empty(),
                pix_fmt: Seq::empty(),
                profile: Seq::empty(),
                bframes: None,
                bitrate: 0,
                seek: None,
                audio_channels: 2,
            }),
    {
        InputCtx {
            stream: 0,
            codec: String::new(),
            pix_fmt: String::new(),
            profile: String::new(),
            bframes: None,
            bitrate: 0,
            seek: None,
            audio_channels: 2,
        }
    }
}

impl Default for OutputCtx {
    fn default() -> (r: Self)
        ensures
            r@ == (OutputView {
                codec: Seq::empty(),
                start_num: 0,
                outdir: Seq::empty(),
                max_to_transcode: None,
                bitrate: None,
                height: None,
                width: None,
                audio_channels: 2,
                target_gop: 5,
            }),
    {
        OutputCtx {
            codec: String::new(),
            start_num: 0,
            outdir: String::new(),
            max_to_transcode: None,
            bitrate: None,
            height: None,
            width: None,
            audio_channels: 2,
            target_gop: 5,
        }
    }
}

impl Default for ProfileContext {
    fn default() -> (r: Self)
        ensures
            r.file@ == Seq::<char>::empty(),
            r.pre_args@.len() == 0,
            r.input_ctx@ == (InputView {
                stream: 0,
                codec: Seq::empty(),
                pix_fmt: Seq::empty(),
                profile: Seq::empty(),
                bframes: None,
                bitrate: 0,
                seek: None,
                audio_channels: 2,
            }),
            r.output_ctx@ == (OutputView {
                codec: Seq::empty(),
                start_num: 0,
                outdir: Seq::empty(),
                max_to_transcode: None,
                bitrate: None,
                height: None,
                width: None,
                audio_channels: 2,
                target_gop: 5,
            }),
            r.ffmpeg_bin@ == "ffmpeg"@,
    {
        ProfileContext {
            file: String::new(),
            pre_args: Vec::new(),
            input_ctx: InputCtx::default(),
            output_ctx: OutputCtx::default(),
            ffmpeg_bin: String::from_str("ffmpeg"),
        }
    }
}

impl InputCtx {
    /// A copy of the context.
    pub fn duplicate(&self) -> (r: Self)
        ensures
            r@ == self@,
    {
        InputCtx {
            stream: self.stream,
            codec: self.codec.clone(),
            pix_fmt: self.pix_fmt.clone(),
            profile: self.profile.clone(),
            bframes: self.bframes,
            bitrate: self.bitrate,
            seek: self.seek,
            audio_channels: self.audio_channels,
        }
    }
}

impl OutputCtx {
    /// A copy of the context.
    pub fn duplicate(&self) -> (r: Self)
        ensures
            r@ == self@,
    {
        OutputCtx {
            codec: self.codec.clone(),
            start_num: self.start_num,
            outdir: self.outdir.clone(),
            max_to_transcode: self.max_to_transcode,
            bitrate: self.bitrate,
            height: self.height,
            width: self.width,
            audio_channels: self.audio_channels,
            target_gop: self.target_gop,
        }
    }
}

impl ProfileContext {
    /// A copy of the context.
    pub fn duplicate(&self) -> (r: Self)
        ensures
            r@ == self@,
    {
        let pre_args = self.pre_args.clone();
        proof {
            broadcast use vstd::std_specs::vec::vec_clone_deep_view_proof;
            assert(pre_args.deep_view() =~= self.pre_args.deep_view());
        }
        ProfileContext {
            file: self.file.clone(),
            pre_args,
            input_ctx: self.input_ctx.duplicate(),
            output_ctx: self.output_ctx.duplicate(),
            ffmpeg_bin: self.ffmpeg_bin.clone(),
        }
    }
}

/// A way of producing one kind of output stream with ffmpeg.
pub trait TranscodingProfile {
    /// What kind of profile this is.
    spec fn kind(&self) -> ProfileType;

    /// The stream type this profile produces.
    spec fn produces(&self) -> StreamType;

    /// The name of the profile.
    spec fn name_spec(&self) -> Seq<char>;

    /// The tag of the profile.
    spec fn tag_spec(&self) -> Seq<char>;

    /// Whether the profile writes its output to stdout.
    spec fn stdio_spec(&self) -> bool;

    /// Whether the profile can be used at all on this machine.
    spec fn enabled_spec(&self) -> bool;

    /// Why the profile is disabled, when it is.
    spec fn disabled_reason(&self) -> Seq<char>;

    /// The contexts for which `build` computes its arguments without overflow.
    spec fn buildable(&self, ctx: ContextView) -> bool;

    /// The ffmpeg arguments for a context.
    spec fn args_spec(&self, ctx: ContextView) -> Seq<Seq<char>>;

    /// Whether the profile can produce the output requested by a context.
    spec fn supports_spec(&self, ctx: ContextView) -> bool;

    /// Why the profile cannot produce the output requested by a context.
    spec fn unsupported_reason(&self, ctx: ContextView) -> Seq<char>;

    /// Function must return what kind of profile it is.
    fn profile_type(&self) -> (r: ProfileType)
        ensures
            r == self.kind(),
    ;

    /// Function will return what type of stream this profile is for.
    fn stream_type(&self) -> (r: StreamType)
        ensures
            r == self.produces(),
    ;

    /// Checks whether this profile is enabled.
    fn is_enabled(&self) -> (r: Result<(), NightfallError>)
        ensures
            r is Ok <==> self.enabled_spec(),
            !self.enabled_spec() ==> crate::error::not_supported_with(r, self.disabled_reason()),
    ;

    /// Builds the list of arguments passed to ffmpeg for this profile; `None` when the
    /// context cannot be used here: the profile does not support it, or the position of its
    /// first chunk does not fit in 32 bits.
    fn build(&self, ctx: ProfileContext) -> (r: Option<Vec<String>>)
        ensures
            self.supports_spec(ctx@) && self.buildable(ctx@) ==> (r matches Some(args) && args.deep_view()
                == self.args_spec(ctx@)),
            !(self.supports_spec(ctx@) && self.buildable(ctx@)) ==> r is None,
    ;

    /// Checks whether this profile can produce the output that `ctx` asks for.
    fn supports(&self, ctx: &ProfileContext) -> (r: Result<(), NightfallError>)
        ensures
            r is Ok <==> self.supports_spec(ctx@),
            !self.supports_spec(ctx@) ==> crate::error::not_supported_with(
                r,
                self.unsupported_reason(ctx@),
            ),
    ;

    /// Return tag of this profile.
    fn tag(&self) -> (r: &str)
        ensures
            r@ == self.tag_spec(),
    ;

    /// Return name of this profile.
    fn name(&self) -> (r: &str)
        ensures
            r@ == self.name_spec(),
    ;

    /// Whether this profile emits data over stdout instead of progress information.
    fn is_stdio_stream(&self) -> (r: bool)
        ensures
            r == self.stdio_spec(),
    ;
}


/// One of the profiles this library implements.
#[derive(Debug, Clone)]
pub enum AnyProfile {
    Aac(AacTranscodeProfile),
    H264Transcode(H264TranscodeProfile),
    H264Transmux(H264TransmuxProfile),
    RawVideo(RawVideoTranscodeProfile),
    Webvtt(WebvttTranscodeProfile),
    AssExtract(AssExtractProfile),
    Cuda(CudaTranscodeProfile),
    Vaapi(VaapiTranscodeProfile),
}

impl TranscodingProfile for AnyProfile {
    open spec fn kind(&self) -> ProfileType {
        match self {
            AnyProfile::Aac(p) => p.kind(),
            AnyProfile::H264Transcode(p) => p.kind(),
            AnyProfile::H264Transmux(p) => p.kind(),
            AnyProfile::RawVideo(p) => p.kind(),
            AnyProfile::Webvtt(p) => p.kind(),
            AnyProfile::AssExtract(p) => p.kind(),
            AnyProfile::Cuda(p) => p.kind(),
            AnyProfile::Vaapi(p) => p.kind(),
        }
    }

    open spec fn produces(&self) -> StreamType {
        match self {
            AnyProfile::Aac(p) => p.produces(),
            AnyProfile::H264Transcode(p) => p.produces(),
            AnyProfile::H264Transmux(p) => p.produces(),
            AnyProfile::RawVideo(p) => p.produces(),
            AnyProfile::Webvtt(p) => p.produces(),
            AnyProfile::AssExtract(p) => p.produces(),
            AnyProfile::Cuda(p) => p.produces(),
            AnyProfile::Vaapi(p) => p.produces(),
        }
    }

    open spec fn name_spec(&self) -> Seq<char> {
        match self {
            AnyProfile::Aac(p) => p.name_spec(),
            AnyProfile::H264Transcode(p) => p.name_spec(),
            AnyProfile::H264Transmux(p) => p.name_spec(),
            AnyProfile::RawVideo(p) => p.name_spec(),
            AnyProfile::Webvtt(p) => p.name_spec(),
            AnyProfile::AssExtract(p) => p.name_spec(),
            AnyProfile::Cuda(p) => p.name_spec(),
            AnyProfile::Vaapi(p) => p.name_spec(),
        }
    }

    open spec fn tag_spec(&self) -> Seq<char> {
        match self {
            AnyProfile::Aac(p) => p.tag_spec(),
            AnyProfile::H264Transcode(p) => p.tag_spec(),
            AnyProfile::H264Transmux(p) => p.tag_spec(),
            AnyProfile::RawVideo(p) => p.tag_spec(),
            AnyProfile::Webvtt(p) => p.tag_spec(),
            AnyProfile::AssExtract(p) => p.tag_spec(),
            AnyProfile::Cuda(p) => p.tag_spec(),
            AnyProfile::Vaapi(p) => p.tag_spec(),
        }
    }

    open spec fn stdio_spec(&self) -> bool {
        match self {
            AnyProfile::Aac(p) => p.stdio_spec(),
            AnyProfile::H264Transcode(p) => p.stdio_spec(),
            AnyProfile::H264Transmux(p) => p.stdio_spec(),
            AnyProfile::RawVideo(p) => p.stdio_spec(),
            AnyProfile::Webvtt(p) => p.stdio_spec(),
            AnyProfile::AssExtract(p) => p.stdio_spec(),
            AnyProfile::Cuda(p) => p.stdio_spec(),
            AnyProfile::Vaapi(p) => p.stdio_spec(),
        }
    }

    open spec fn enabled_spec(&self) -> bool {
        match self {
            AnyProfile::Aac(p) => p.enabled_spec(),
            AnyProfile::H264Transcode(p) => p.enabled_spec(),
            AnyProfile::H264Transmux(p) => p.enabled_spec(),
            AnyProfile::RawVideo(p) => p.enabled_spec(),
            AnyProfile::Webvtt(p) => p.enabled_spec(),
            AnyProfile::AssExtract(p) => p.enabled_spec(),
            AnyProfile::Cuda(p) => p.enabled_spec(),
            AnyProfile::Vaapi(p) => p.enabled_spec(),
        }
    }

    open spec fn disabled_reason(&self) -> Seq<char> {
        match self {
            AnyProfile::Aac(p) => p.disabled_reason(),
            AnyProfile::H264Transcode(p) => p.disabled_reason(),
            AnyProfile::H264Transmux(p) => p.disabled_reason(),
            AnyProfile::RawVideo(p) => p.disabled_reason(),
            AnyProfile::Webvtt(p) => p.disabled_reason(),
            AnyProfile::AssExtract(p) => p.disabled_reason(),
            AnyProfile::Cuda(p) => p.disabled_reason(),
            AnyProfile::Vaapi(p) => p.disabled_reason(),
        }
    }

    open spec fn buildable(&self, ctx: ContextView) -> bool {
        match self {
            AnyProfile::Aac(p) => p.buildable(ctx),
            AnyProfile::H264Transcode(p) => p.buildable(ctx),
            AnyProfile::H264Transmux(p) => p.buildable(ctx),
            AnyProfile::RawVideo(p) => p.buildable(ctx),
            AnyProfile::Webvtt(p) => p.buildable(ctx),
            AnyProfile::AssExtract(p) => p.buildable(ctx),
            AnyProfile::Cuda(p) => p.buildable(ctx),
            AnyProfile::Vaapi(p) => p.buildable(ctx),
        }
    }

    open spec fn args_spec(&self, ctx: ContextView) -> Seq<Seq<char>> {
        match self {
            AnyProfile::Aac(p) => p.args_spec(ctx),
            AnyProfile::H264Transcode(p) => p.args_spec(ctx),
            AnyProfile::H264Transmux(p) => p.args_spec(ctx),
            AnyProfile::RawVideo(p) => p.args_spec(ctx),
            AnyProfile::Webvtt(p) => p.args_spec(ctx),
            AnyProfile::AssExtract(p) => p.args_spec(ctx),
            AnyProfile::Cuda(p) => p.args_spec(ctx),
            AnyProfile::Vaapi(p) => p.args_spec(ctx),
        }
    }

    open spec fn supports_spec(&self, ctx: ContextView) -> bool {
        match self {
            AnyProfile::Aac(p) => p.supports_spec(ctx),
            AnyProfile::H264Transcode(p) => p.supports_spec(ctx),
            AnyProfile::H264Transmux(p) => p.supports_spec(ctx),
            AnyProfile::RawVideo(p) => p.supports_spec(ctx),
            AnyProfile::Webvtt(p) => p.supports_spec(ctx),
            AnyProfile::AssExtract(p) => p.supports_spec(ctx),
            AnyProfile::Cuda(p) => p.supports_spec(ctx),
            AnyProfile::Vaapi(p) => p.supports_spec(ctx),
        }
    }

    open spec fn unsupported_reason(&self, ctx: ContextView) -> Seq<char> {
        match self {
            AnyProfile::Aac(p) => p.unsupported_reason(ctx),
            AnyProfile::H264Transcode(p) => p.unsupported_reason(ctx),
            AnyProfile::H264Transmux(p) => p.unsupported_reason(ctx),
            AnyProfile::RawVideo(p) => p.unsupported_reason(ctx),
            AnyProfile::Webvtt(p) => p.unsupported_reason(ctx),
            AnyProfile::AssExtract(p) => p.unsupported_reason(ctx),
            AnyProfile::Cuda(p) => p.unsupported_reason(ctx),
            AnyProfile::Vaapi(p) => p.unsupported_reason(ctx),
        }
    }

    fn profile_type(&self) -> (r: ProfileType) {
        match self {
            AnyProfile::Aac(p) => p.profile_type(),
            AnyProfile::H264Transcode(p) => p.profile_type(),
            AnyProfile::H264Transmux(p) => p.profile_type(),
            AnyProfile::RawVideo(p) => p.profile_type(),
            AnyProfile::Webvtt(p) => p.profile_type(),
            AnyProfile::AssExtract(p) => p.profile_type(),
            AnyProfile::Cuda(p) => p.profile_type(),
            AnyProfile::Vaapi(p) => p.profile_type(),
        }
    }

    fn stream_type(&self) -> (r: StreamType) {
        match self {
            AnyProfile::Aac(p) => p.stream_type(),
            AnyProfile::H264Transcode(p) => p.stream_type(),
            AnyProfile::H264Transmux(p) => p.stream_type(),
            AnyProfile::RawVideo(p) => p.stream_type(),
            AnyProfile::Webvtt(p) => p.stream_type(),
            AnyProfile::AssExtract(p) => p.stream_type(),
            AnyProfile::Cuda(p) => p.stream_type(),
            AnyProfile::Vaapi(p) => p.stream_type(),
        }
    }

    fn is_enabled(&self) -> (r: Result<(), NightfallError>) {
        match self {
            AnyProfile::Aac(p) => p.is_enabled(),
            AnyProfile::H264Transcode(p) => p.is_enabled(),
            AnyProfile::H264Transmux(p) => p.is_enabled(),
            AnyProfile::RawVideo(p) => p.is_enabled(),
            AnyProfile::Webvtt(p) => p.is_enabled(),
            AnyProfile::AssExtract(p) => p.is_enabled(),
            AnyProfile::Cuda(p) => p.is_enabled(),
            AnyProfile::Vaapi(p) => p.is_enabled(),
        }
    }

    fn build(&self, ctx: ProfileContext) -> (r: Option<Vec<String>>) {
        match self {
            AnyProfile::Aac(p) => p.build(ctx),
            AnyProfile::H264Transcode(p) => p.build(ctx),
            AnyProfile::H264Transmux(p) => p.build(ctx),
            AnyProfile::RawVideo(p) => p.build(ctx),
            AnyProfile::Webvtt(p) => p.build(ctx),
            AnyProfile::AssExtract(p) => p.build(ctx),
            AnyProfile::Cuda(p) => p.build(ctx),
            AnyProfile::Vaapi(p) => p.build(ctx),
        }
    }

    fn supports(&self, ctx: &ProfileContext) -> (r: Result<(), NightfallError>) {
        match self {
            AnyProfile::Aac(p) => p.supports(ctx),
            AnyProfile::H264Transcode(p) => p.supports(ctx),
            AnyProfile::H264Transmux(p) => p.supports(ctx),
            AnyProfile::RawVideo(p) => p.supports(ctx),
            AnyProfile::Webvtt(p) => p.supports(ctx),
            AnyProfile::AssExtract(p) => p.supports(ctx),
            AnyProfile::Cuda(p) => p.supports(ctx),
            AnyProfile::Vaapi(p) => p.supports(ctx),
        }
    }

    fn tag(&self) -> (r: &str) {
        match self {
            AnyProfile::Aac(p) => p.tag(),
            AnyProfile::H264Transcode(p) => p.tag(),
            AnyProfile::H264Transmux(p) => p.tag(),
            AnyProfile::RawVideo(p) => p.tag(),
            AnyProfile::Webvtt(p) => p.tag(),
            AnyProfile::AssExtract(p) => p.tag(),
            AnyProfile::Cuda(p) => p.tag(),
            AnyProfile::Vaapi(p) => p.tag(),
        }
    }

    fn name(&self) -> (r: &str) {
        match self {
            AnyProfile::Aac(p) => p.name(),
            AnyProfile::H264Transcode(p) => p.name(),
            AnyProfile::H264Transmux(p) => p.name(),
            AnyProfile::RawVideo(p) => p.name(),
            AnyProfile::Webvtt(p) => p.name(),
            AnyProfile::AssExtract(p) => p.name(),
            AnyProfile::Cuda(p) => p.name(),
            AnyProfile::Vaapi(p) => p.name(),
        }
    }

    fn is_stdio_stream(&self) -> (r: bool) {
        match self {
            AnyProfile::Aac(p) => p.is_stdio_stream(),
            AnyProfile::H264Transcode(p) => p.is_stdio_stream(),
            AnyProfile::H264Transmux(p) => p.is_stdio_stream(),
            AnyProfile::RawVideo(p) => p.is_stdio_stream(),
            AnyProfile::Webvtt(p) => p.is_stdio_stream(),
            AnyProfile::AssExtract(p) => p.is_stdio_stream(),
            AnyProfile::Cuda(p) => p.is_stdio_stream(),
            AnyProfile::Vaapi(p) => p.is_stdio_stream(),
        }
    }
}

/// The profiles that are offered when they are enabled, in this order.
pub open spec fn builtin_profiles() -> Seq<AnyProfile> {
    seq![
        AnyProfile::Aac(AacTranscodeProfile),
        AnyProfile::H264Transcode(H264TranscodeProfile),
        AnyProfile::H264Transmux(H264TransmuxProfile),
        AnyProfile::RawVideo(RawVideoTranscodeProfile),
        AnyProfile::Webvtt(WebvttTranscodeProfile),
        AnyProfile::AssExtract(AssExtractProfile),
        AnyProfile::Cuda(CudaTranscodeProfile),
    ]
}

/// Whether a profile is enabled.
pub open spec fn is_enabled_profile(p: AnyProfile) -> bool {
    p.enabled_spec()
}

/// The predicate `is_enabled_profile`.
pub open spec fn enabled_pred() -> spec_fn(AnyProfile) -> bool {
    |p: AnyProfile| is_enabled_profile(p)
}

/// Builds the list of built-in profiles, leaving out those that are not enabled.
pub fn profiles_init() -> (r: Vec<AnyProfile>)
    ensures
        r@ == builtin_profiles().filter(enabled_pred()),
        r@ == builtin_profiles(),
{
    let mut candidates: Vec<AnyProfile> = Vec::new();
    candidates.push(AnyProfile::Aac(AacTranscodeProfile));
    candidates.push(AnyProfile::H264Transcode(H264TranscodeProfile));
    candidates.push(AnyProfile::H264Transmux(H264TransmuxProfile));
    candidates.push(AnyProfile::RawVideo(RawVideoTranscodeProfile));
    candidates.push(AnyProfile::Webvtt(WebvttTranscodeProfile));
    candidates.push(AnyProfile::AssExtract(AssExtractProfile));
    candidates.push(AnyProfile::Cuda(CudaTranscodeProfile));
    assert(candidates@ =~= builtin_profiles());
    let ghost pred = enabled_pred();
    let mut r: Vec<AnyProfile> = Vec::new();
    let mut i: usize = 0;
    while i < candidates.len()
        invariant
            i <= candidates.len(),
            candidates@ == builtin_profiles(),
            r@ == candidates@.take(i as int).filter(enabled_pred()),
        decreases candidates.len() - i,
    {
        proof {
            assert(candidates@.take(i + 1) =~= candidates@.take(i as int).push(candidates@[i as int]));
            candidates@.take(i as int).lemma_filter_push(candidates@[i as int], enabled_pred());
        }
        let enabled = candidates[i].is_enabled();
        if enabled.is_ok() {
            r.push(candidates[i].clone_profile());
        }
        i = i + 1;
    }
    assert(candidates@.take(i as int) =~= candidates@);
    proof {
        let b = builtin_profiles();
        reveal_with_fuel(Seq::filter, 8);
        assert(b.take(7) =~= b);
        assert(b.drop_last() =~= b.take(6));
        assert(b.take(6).drop_last() =~= b.take(5));
        assert(b.take(5).drop_last() =~= b.take(4));
        assert(b.take(4).drop_last() =~= b.take(3));
        assert(b.take(3).drop_last() =~= b.take(2));
        assert(b.take(2).drop_last() =~= b.take(1));
        assert(b.take(1).drop_last() =~= b.take(0));
        assert(b.filter(pred) =~= b);
    }
    r
}

impl AnyProfile {
    /// A copy of the profile.
    pub fn clone_profile(&self) -> (r: Self)
        ensures
            !(self is Vaapi) ==> r == *self,
            self is Vaapi ==> r is Vaapi && r->Vaapi_0.device_profiles() == self->Vaapi_0.device_profiles()
                && r->Vaapi_0.vendor_spec() == self->Vaapi_0.vendor_spec() && r->Vaapi_0.dri_spec()
                == self->Vaapi_0.dri_spec(),
    {
        match self {
            AnyProfile::Aac(p) => AnyProfile::Aac(*p),
            AnyProfile::H264Transcode(p) => AnyProfile::H264Transcode(*p),
            AnyProfile::H264Transmux(p) => AnyProfile::H264Transmux(*p),
            AnyProfile::RawVideo(p) => AnyProfile::RawVideo(*p),
            AnyProfile::Webvtt(p) => AnyProfile::Webvtt(*p),
            AnyProfile::AssExtract(p) => AnyProfile::AssExtract(*p),
            AnyProfile::Cuda(p) => AnyProfile::Cuda(*p),
            AnyProfile::Vaapi(p) => AnyProfile::Vaapi(p.clone_device()),
        }
    }
}

/// Whether a profile can be used for a stream of type `stream_type` as `ctx` asks.
pub open spec fn fits(p: AnyProfile, stream_type: StreamType, ctx: ContextView) -> bool {
    p.produces() == stream_type && p.supports_spec(ctx)
}

/// The predicate `fits` for one request.
pub open spec fn fits_pred(stream_type: StreamType, ctx: ContextView) -> spec_fn(AnyProfile) -> bool {
    |p: AnyProfile| fits(p, stream_type, ctx)
}

/// Whether a profile has the profile type of rank `rank`.
pub open spec fn rank_pred(rank: nat) -> spec_fn(AnyProfile) -> bool {
    |p: AnyProfile| profile_type_rank(p.kind()) == rank
}

/// The profiles of a registry of one profile type, in registry order.
pub open spec fn of_rank(ps: Seq<AnyProfile>, rank: nat) -> Seq<AnyProfile> {
    ps.filter(rank_pred(rank))
}

/// The profiles of `registry` that fit, stably ordered by profile type.
pub open spec fn profiles_for(registry: Seq<AnyProfile>, stream_type: StreamType, ctx: ContextView) -> Seq<
    AnyProfile,
> {
    let fitting = registry.filter(fits_pred(stream_type, ctx));
    of_rank(fitting, 0) + of_rank(fitting, 1) + of_rank(fitting, 2)
}

/// The rank of a profile type in the order in which profiles are tried.
pub fn rank_of(t: ProfileType) -> (r: u32)
    ensures
        r == profile_type_rank(t),
{
    match t {
        ProfileType::Transcode => 0,
        ProfileType::Transmux => 1,
        ProfileType::HardwareTranscode => 2,
    }
}

/// Appends the profiles of `src` of one rank to `out`.
fn append_rank<'a>(out: &mut Vec<&'a AnyProfile>, src: &Vec<&'a AnyProfile>, rank: u32, Ghost(s): Ghost<Seq<AnyProfile>>, Ghost(o): Ghost<Seq<AnyProfile>>)
    requires
        src@.len() == s.len(),
        forall|k: int| 0 <= k < s.len() ==> *src@[k] == s[k],
        old(out)@.len() == o.len(),
        forall|k: int| 0 <= k < o.len() ==> *old(out)@[k] == o[k],
    ensures
        final(out)@.len() == (o + of_rank(s, rank as nat)).len(),
        forall|k: int| 0 <= k < final(out)@.len() ==> *final(out)@[k] == (o + of_rank(s, rank as nat))[k],
{
    let mut j: usize = 0;
    while j < src.len()
        invariant
            j <= src.len(),
            src@.len() == s.len(),
            forall|k: int| 0 <= k < s.len() ==> *src@[k] == s[k],
            out@.len() == (o + s.take(j as int).filter(rank_pred(rank as nat))).len(),
            forall|k: int| 0 <= k < out@.len() ==> *out@[k] == (o + s.take(j as int).filter(rank_pred(rank as nat)))[k],
        decreases src.len() - j,
    {
        proof {
            assert(s.take(j + 1) =~= s.take(j as int).push(s[j as int]));
            s.take(j as int).lemma_filter_push(s[j as int], rank_pred(rank as nat));
        }
        let p = src[j];
        if rank_of(p.profile_type()) == rank {
            out.push(p);
            proof {
                let t = o + s.take(j + 1).filter(rank_pred(rank as nat));
                assert(t =~= (o + s.take(j as int).filter(rank_pred(rank as nat))).push(s[j as int]));
            }
        } else {
            proof {
                assert(o + s.take(j + 1).filter(rank_pred(rank as nat)) =~= o + s.take(j as int).filter(rank_pred(rank as nat)));
            }
        }
        j = j + 1;
    }
    assert(s.take(j as int) =~= s);
}

/// The profiles of `registry` that produce `stream_type` and support `ctx`, software
/// transcoding first, then transmuxing, then hardware transcoding, each group in registry order.
pub fn get_profile_for<'a>(registry: &'a Vec<AnyProfile>, stream_type: StreamType, ctx: &ProfileContext) -> (r: Vec<
    &'a AnyProfile,
>)
    ensures
        r@.len() == profiles_for(registry@, stream_type, ctx@).len(),
        forall|k: int| 0 <= k < r@.len() ==> *r@[k] == profiles_for(registry@, stream_type, ctx@)[k],
{
    let ghost pred = fits_pred(stream_type, ctx@);
    let ghost reg = registry@;
    let mut fitting: Vec<&'a AnyProfile> = Vec::new();
    let mut i: usize = 0;
    while i < registry.len()
        invariant
            i <= registry.len(),
            reg == registry@,
            fitting@.len() == reg.take(i as int).filter(fits_pred(stream_type, ctx@)).len(),
            forall|k: int| 0 <= k < fitting@.len() ==> *fitting@[k] == reg.take(i as int).filter(fits_pred(stream_type, ctx@))[k],
        decreases registry.len() - i,
    {
        proof {
            assert(reg.take(i + 1) =~= reg.take(i as int).push(reg[i as int]));
            reg.take(i as int).lemma_filter_push(reg[i as int], fits_pred(stream_type, ctx@));
        }
        let p = &registry[i];
        if p.stream_type() == stream_type && p.supports(ctx).is_ok() {
            fitting.push(p);
        }
        i = i + 1;
    }
    assert(reg.take(i as int) =~= reg);
    let ghost f = reg.filter(pred);
    let mut r: Vec<&'a AnyProfile> = Vec::new();
    append_rank(&mut r, &fitting, 0, Ghost(f), Ghost(Seq::empty()));
    append_rank(&mut r, &fitting, 1, Ghost(f), Ghost(Seq::empty() + of_rank(f, 0)));
    append_rank(&mut r, &fitting, 2, Ghost(f), Ghost(Seq::empty() + of_rank(f, 0) + of_rank(f, 1)));
    assert(Seq::<AnyProfile>::empty() + of_rank(f, 0) + of_rank(f, 1) + of_rank(f, 2) =~= profiles_for(reg, stream_type, ctx@));
    r
}

/// Every profile chosen for a request produces the requested stream type, supports the
/// request, is registered, and the choice is ordered by profile type.
pub proof fn lemma_profiles_for_sound(registry: Seq<AnyProfile>, stream_type: StreamType, ctx: ContextView)
    ensures
        forall|k: int| 0 <= k < profiles_for(registry, stream_type, ctx).len() ==> {
            let p = #[trigger] profiles_for(registry, stream_type, ctx)[k];
            &&& p.produces() == stream_type
            &&& p.supports_spec(ctx)
            &&& registry.contains(p)
        },
        forall|a: int, b: int|
            0 <= a < b < profiles_for(registry, stream_type, ctx).len() ==> profile_type_rank(
                #[trigger] profiles_for(registry, stream_type, ctx)[a].kind(),
            ) <= profile_type_rank(#[trigger] profiles_for(registry, stream_type, ctx)[b].kind()),
{
    let fpred = fits_pred(stream_type, ctx);
    let f = registry.filter(fpred);
    let g0 = f.filter(rank_pred(0));
    let g1 = f.filter(rank_pred(1));
    let g2 = f.filter(rank_pred(2));
    let out = profiles_for(registry, stream_type, ctx);
    assert(out == g0 + g1 + g2);
    assert forall|k: int| 0 <= k < out.len() implies {
        let p = #[trigger] out[k];
        &&& p.produces() == stream_type
        &&& p.supports_spec(ctx)
        &&& registry.contains(p)
    } by {
        let p = out[k];
        if k < g0.len() {
            assert(p == g0[k]);
            assert(g0.contains(p));
            f.lemma_filter_contains_rev(rank_pred(0), p);
        } else if k < g0.len() + g1.len() {
            assert(p == g1[k - g0.len()]);
            assert(g1.contains(p));
            f.lemma_filter_contains_rev(rank_pred(1), p);
        } else {
            assert(p == g2[k - g0.len() - g1.len()]);
            assert(g2.contains(p));
            f.lemma_filter_contains_rev(rank_pred(2), p);
        }
        let j = choose|j: int| 0 <= j < f.len() && f[j] == p;
        registry.lemma_filter_pred(fpred, j);
        registry.lemma_filter_contains_rev(fpred, p);
    }
    assert forall|a: int, b: int| 0 <= a < b < out.len() implies profile_type_rank(
        #[trigger] out[a].kind(),
    ) <= profile_type_rank(#[trigger] out[b].kind()) by {
        if a < g0.len() {
            f.lemma_filter_pred(rank_pred(0), a);
        } else if a < g0.len() + g1.len() {
            f.lemma_filter_pred(rank_pred(1), a - g0.len());
            if b < g0.len() + g1.len() {
                f.lemma_filter_pred(rank_pred(1), b - g0.len());
            } else {
                f.lemma_filter_pred(rank_pred(2), b - g0.len() - g1.len());
            }
        } else {
            f.lemma_filter_pred(rank_pred(2), a - g0.len() - g1.len());
            f.lemma_filter_pred(rank_pred(2), b - g0.len() - g1.len());
        }
    }
}

/// No profile that fits is left out: every profile of the registry that produces the
/// requested type of stream and supports the request is among those chosen.
pub proof fn lemma_profiles_for_complete(registry: Seq<AnyProfile>, stream_type: StreamType, ctx: ContextView)
    ensures
        forall|k: int|
            0 <= k < registry.len() && (#[trigger] registry[k]).produces() == stream_type
                && registry[k].supports_spec(ctx) ==> profiles_for(registry, stream_type, ctx).contains(registry[k]),
{
    let fpred = fits_pred(stream_type, ctx);
    let f = registry.filter(fpred);
    let g0 = f.filter(rank_pred(0));
    let g1 = f.filter(rank_pred(1));
    let g2 = f.filter(rank_pred(2));
    let out = profiles_for(registry, stream_type, ctx);
    assert(out == g0 + g1 + g2);
    assert forall|k: int|
        0 <= k < registry.len() && (#[trigger] registry[k]).produces() == stream_type
            && registry[k].supports_spec(ctx) implies out.contains(registry[k]) by {
        let p = registry[k];
        registry.lemma_filter_contains(fpred, k);
        assert(f.contains(p));
        let j = choose|j: int| 0 <= j < f.len() && f[j] == p;
        let r = profile_type_rank(p.kind());
        if r == 0 {
            f.lemma_filter_contains(rank_pred(0), j);
            let i = choose|i: int| 0 <= i < g0.len() && g0[i] == p;
            assert(out[i] == p);
        } else if r == 1 {
            f.lemma_filter_contains(rank_pred(1), j);
            let i = choose|i: int| 0 <= i < g1.len() && g1[i] == p;
            assert(out[g0.len() + i] == p);
        } else {
            f.lemma_filter_contains(rank_pred(2), j);
            let i = choose|i: int| 0 <= i < g2.len() && g2[i] == p;
            assert(out[g0.len() + g1.len() + i] == p);
        }
    }
}

/// Whether `args` hold `flag` directly followed by `value`.
pub open spec fn has_option(args: Seq<Seq<char>>, flag: Seq<char>, value: Seq<char>) -> bool {
    exists|i: int| 0 <= i && i + 1 < args.len() && args[i] == flag && #[trigger] args[i + 1] == value
}

/// A requested bitrate reaches the encoder: the arguments of every profile that encodes
/// video hold its rate option followed by the bitrate in decimal (`-b:v`, or `-maxrate` on
/// a VAAPI device that scales on the CPU).
pub proof fn lemma_requested_bitrate_is_passed(ctx: ContextView, vaapi: VaapiTranscodeProfile, b: u64)
    requires
        ctx.output.bitrate == Some(b),
    ensures
        has_option(H264TranscodeProfile.args_spec(ctx), "-b:v"@, dec(b as nat)),
        has_option(CudaTranscodeProfile.args_spec(ctx), "-b:v"@, dec(b as nat)),
        has_option(
            vaapi.args_spec(ctx),
            if vaapi::hw_scaling(vaapi.device_profiles()) { "-b:v"@ } else { "-maxrate"@ },
            dec(b as nat),
        ),
{
    let t = video::transcode_args(ctx);
    let tp = video::input_block(ctx, (ctx.output.start_num * video::CHUNK_SIZE) as nat) + video::x264_block()
        + video::scale_block(ctx);
    assert(t[tp.len() as int] == "-b:v"@);
    assert(t[tp.len() + 1int] == dec(b as nat));
    let c = cuda::cuda_args(ctx);
    let cp = cuda::cuda_hwaccel_block() + video::input_block(ctx, (ctx.output.start_num * ctx.output.target_gop) as nat)
        + cuda::nvenc_block() + cuda::cuda_scale_block(ctx);
    assert(c[cp.len() as int] == "-b:v"@);
    assert(c[cp.len() + 1int] == dec(b as nat));
    let hw = vaapi::hw_scaling(vaapi.device_profiles());
    let v = vaapi::vaapi_args(ctx, vaapi.dri_spec(), hw);
    let vp = vaapi::vaapi_hwaccel_block(vaapi.dri_spec()) + video::input_block(
        ctx,
        (ctx.output.start_num * ctx.output.target_gop) as nat,
    ) + vaapi::vaapi_codec_block(ctx, hw);
    assert(v[vp.len() as int] == (if hw { "-b:v"@ } else { "-maxrate"@ }));
    assert(v[vp.len() + 1int] == dec(b as nat));
}

} // verus!
