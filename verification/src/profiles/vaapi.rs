//! VAAPI hardware transcoding.
use vstd::prelude::*;

use super::ContextView;
use super::ProfileContext;
use super::ProfileType;
use super::StreamType;
use super::TranscodingProfile;
use super::cuda::{independent_args, independent_block, keyint_args, keyint_block};
use super::video::{
    seek_fits,
    discont_flags, get_discont_flags, gop_args, gop_block, hls_args, hls_block, init_args, init_block,
    input_args, input_block, new_args, output_args, output_block, scale_arg, scale_text,
    temp_file_args, temp_file_block,
};
use crate::error::NightfallError;
use crate::text::{append_args, concat2, concat3, dec, push_string, push_text, str_eq, u64_to_text};

verus! {

/// A VAAPI profile of a device and the entrypoints it offers.
#[derive(Debug, Clone)]
pub struct VaProfile {
    pub name: String,
    pub entrypoints: Vec<String>,
}

/// The mathematical value of a `VaProfile`.
pub struct VaProfileView {
    pub name: Seq<char>,
    pub entrypoints: Seq<Seq<char>>,
}

impl View for VaProfile {
    type V = VaProfileView;

    open spec fn view(&self) -> VaProfileView {
        VaProfileView { name: self.name@, entrypoints: self.entrypoints.deep_view() }
    }
}

/// What probing a render node found: its profiles, vendor string and device path.
#[derive(Debug, Clone)]
pub struct VaDevice {
    pub profiles: Vec<VaProfile>,
    pub vendor: String,
    pub dri: String,
}

/// The views of a list of profiles.
pub open spec fn profile_views(ps: Seq<VaProfile>) -> Seq<VaProfileView> {
    ps.map_values(|p: VaProfile| p@)
}

/// The first profile called `name`.
pub open spec fn find_named(ps: Seq<VaProfileView>, name: Seq<char>) -> Option<VaProfileView>
    decreases ps.len(),
{
    if ps.len() == 0 {
        None
    } else if ps[0].name == name {
        Some(ps[0])
    } else {
        find_named(ps.drop_first(), name)
    }
}

/// Whether some profile is called `name` and offers the entrypoint `ep`.
pub open spec fn has_named_with(ps: Seq<VaProfileView>, name: Seq<char>, ep: Seq<char>) -> bool {
    exists|i: int| 0 <= i < ps.len() && ps[i].name == name && ps[i].entrypoints.contains(ep)
}

/// The names of the profiles separated by ` | `.
pub open spec fn join_names(ps: Seq<VaProfileView>) -> Seq<char>
    decreases ps.len(),
{
    if ps.len() == 0 {
        Seq::empty()
    } else if ps.len() == 1 {
        ps[0].name
    } else {
        join_names(ps.drop_last()) + " | "@ + ps.last().name
    }
}

/// Whether the device scales on the GPU: the first of the H264 Main and High profiles that
/// the device has decides, by whether it offers the encoding entrypoint.
pub open spec fn hw_scaling(ps: Seq<VaProfileView>) -> bool {
    match find_named(ps, "VAProfileH264Main"@) {
        Some(p) => p.entrypoints.contains("VAEntrypointEncSlice"@),
        None => match find_named(ps, "VAProfileH264High"@) {
            Some(p) => p.entrypoints.contains("VAEntrypointEncSlice"@),
            None => false,
        },
    }
}

/// The device profile needed to decode `codec` in the codec profile `profile`.
pub open spec fn device_profile_for(codec: Seq<char>, profile: Seq<char>) -> Option<Seq<char>> {
    if codec == "h264"@ && profile == "High"@ {
        Some("VAProfileH264High"@)
    } else if codec == "h264"@ && profile == "Main"@ {
        Some("VAProfileH264Main"@)
    } else if codec == "h264"@ && profile == "Baseline"@ {
        Some("VAProfileH264Baseline"@)
    } else if codec == "hevc"@ && profile == "Main"@ {
        Some("VAProfileHEVCMain"@)
    } else if codec == "hevc"@ && profile == "Main 10"@ {
        Some("VAProfileHEVCMain10"@)
    } else {
        None
    }
}

/// The video filter chain: download from the GPU, convert the pixel format, upload again,
/// scaling on the GPU or on the CPU when a height is requested.
pub open spec fn vaapi_filter(ctx: ContextView, hw: bool) -> Seq<char> {
    match ctx.output.height {
        Some(h) => (if hw {
            scale_text("scale_vaapi"@, h, ctx.output.width) + ","@
        } else {
            Seq::empty()
        }) + "hwdownload,"@ + (if ctx.input.profile == "Main 10"@ {
            "format=p010le,"@
        } else {
            Seq::empty()
        }) + "format=nv12,"@ + (if !hw {
            scale_text("scale"@, h, ctx.output.width) + ","@
        } else {
            Seq::empty()
        }) + "hwupload"@,
        None => "hwdownload,format=nv12,hwupload"@,
    }
}

/// Decodes on the given device and keeps the frames there.
pub open spec fn vaapi_hwaccel_block(dri: Seq<char>) -> Seq<Seq<char>> {
    seq!["-hwaccel"@, "vaapi"@, "-vaapi_device"@, dri, "-hwaccel_output_format"@, "vaapi"@]
}

/// Encodes with VAAPI without B-frames, through the filter chain.
pub open spec fn vaapi_codec_block(ctx: ContextView, hw: bool) -> Seq<Seq<char>> {
    seq!["-c:0"@, "h264_vaapi"@, "-bf"@, "0"@, "-vf"@, vaapi_filter(ctx, hw)]
}

/// The bitrate; a device without GPU scaling only takes a maximum rate.
pub open spec fn vaapi_bitrate_block(ctx: ContextView, hw: bool) -> Seq<Seq<char>> {
    match ctx.output.bitrate {
        Some(b) => seq![if !hw { "-maxrate"@ } else { "-b:v"@ }, dec(b as nat)],
        None => Seq::empty(),
    }
}

/// Keeps the timestamps of the input.
pub open spec fn vaapi_sync_block() -> Seq<Seq<char>> {
    seq!["-vsync"@, "passthrough"@, "-avoid_negative_ts"@, "disabled"@, "-max_muxing_queue_size"@, "2048"@]
}

/// No key frames at scene changes.
pub open spec fn scene_block() -> Seq<Seq<char>> {
    seq!["-sc_threshold:v:0"@, "0"@]
}

/// The ffmpeg arguments of the VAAPI profile.
pub open spec fn vaapi_args(ctx: ContextView, dri: Seq<char>, hw: bool) -> Seq<Seq<char>> {
    vaapi_hwaccel_block(dri) + input_block(ctx, (ctx.output.start_num * ctx.output.target_gop) as nat)
        + vaapi_codec_block(ctx, hw) + vaapi_bitrate_block(ctx, hw) + vaapi_sync_block() + keyint_block()
        + discont_flags(ctx) + hls_block(ctx) + independent_block() + temp_file_block() + init_block(ctx)
        + gop_block(ctx.output.target_gop) + scene_block() + output_block(ctx)
}

/// Whether `ctx` asks for something the device can do.
pub open spec fn vaapi_supports(ps: Seq<VaProfileView>, ctx: ContextView) -> bool {
    &&& (ctx.input.codec == "h264"@ || ctx.input.codec == "hevc"@)
    &&& (ctx.input.codec == "hevc"@ ==> has_named_with(ps, "VAProfileHEVCMain"@, "VAEntrypointVLD"@))
    &&& ctx.output.codec == "h264"@
    &&& device_profile_for(ctx.input.codec, ctx.input.profile) is Some
    &&& find_named(ps, device_profile_for(ctx.input.codec, ctx.input.profile)->0) is Some
}

/// Why the device cannot do what `ctx` asks for.
pub open spec fn vaapi_refusal(ps: Seq<VaProfileView>, ctx: ContextView) -> Seq<char> {
    if !(ctx.input.codec == "h264"@ || ctx.input.codec == "hevc"@) {
        "Profile only supports decoding h264 or h265 video streams."@
    } else if ctx.input.codec == "hevc"@ && !has_named_with(ps, "VAProfileHEVCMain"@, "VAEntrypointVLD"@) {
        "HW Acceleration device doesnt support decoding hevc content."@
    } else if ctx.output.codec != "h264"@ {
        "Profile only supports h264 output streams."@
    } else {
        match device_profile_for(ctx.input.codec, ctx.input.profile) {
            None => "Profile "@ + ctx.input.profile + " for "@ + ctx.input.codec + " not supported by device."@,
            Some(p) => "Profile "@ + p + " not supported by device."@,
        }
    }
}

/// Whether a list of texts holds `s`.
pub fn texts_contain(v: &Vec<String>, s: &str) -> (r: bool)
    ensures
        r == v.deep_view().contains(s@),
{
    let mut i: usize = 0;
    while i < v.len()
        invariant
            i <= v.len(),
            forall|k: int| 0 <= k < i ==> v.deep_view()[k] != s@,
        decreases v.len() - i,
    {
        if str_eq(v[i].as_str(), s) {
            assert(v.deep_view()[i as int] == s@);
            return true;
        }
        i = i + 1;
    }
    proof {
        if v.deep_view().contains(s@) {
            let k = choose|k: int| 0 <= k < v.deep_view().len() && v.deep_view()[k] == s@;
            assert(v.deep_view()[k] != s@);
        }
    }
    false
}

/// Vaapi transcoding of H264 and HEVC video streams to H264.
#[derive(Debug, Clone)]
pub struct VaapiTranscodeProfile {
    profiles: Vec<VaProfile>,
    vendor: String,
    dri: String,
}

impl VaapiTranscodeProfile {
    /// The profiles of the device.
    pub closed spec fn device_profiles(&self) -> Seq<VaProfileView> {
        profile_views(self.profiles@)
    }

    /// The vendor string of the device.
    pub closed spec fn vendor_spec(&self) -> Seq<char> {
        self.vendor@
    }

    /// The path of the device.
    pub closed spec fn dri_spec(&self) -> Seq<char> {
        self.dri@
    }

    /// Builds the profile from the first render node that could be opened, or from a null
    /// device without profiles when none could.
    pub fn new(found: Option<VaDevice>) -> (r: Option<Self>)
        ensures
            r is Some,
            match found {
                Some(d) => {
                    &&& r->0.device_profiles() == profile_views(d.profiles@)
                    &&& r->0.vendor_spec() == d.vendor@
                    &&& r->0.dri_spec() == d.dri@
                },
                None => {
                    &&& r->0.device_profiles().len() == 0
                    &&& r->0.vendor_spec() == "<null_device>"@
                    &&& r->0.dri_spec() == Seq::<char>::empty()
                },
            },
    {
        match found {
            Some(d) => Some(VaapiTranscodeProfile { profiles: d.profiles, vendor: d.vendor, dri: d.dri }),
            None => {
                let r = VaapiTranscodeProfile {
                    profiles: Vec::new(),
                    vendor: String::from_str("<null_device>"),
                    dri: String::new(),
                };
                assert(r.device_profiles() =~= Seq::<VaProfileView>::empty());
                Some(r)
            },
        }
    }

    /// Finds the first device profile called `name`.
    fn find_profile(&self, name: &str) -> (r: Option<usize>)
        ensures
            match r {
                Some(i) => i < self.device_profiles().len() && find_named(self.device_profiles(), name@)
                    == Some(self.device_profiles()[i as int]),
                None => find_named(self.device_profiles(), name@) is None,
            },
    {
        let ghost ps = self.device_profiles();
        let mut i: usize = 0;
        assert(ps.skip(0) =~= ps);
        while i < self.profiles.len()
            invariant
                i <= self.profiles.len(),
                ps == self.device_profiles(),
                ps.len() == self.profiles.len(),
                find_named(ps, name@) == find_named(ps.skip(i as int), name@),
            decreases self.profiles.len() - i,
        {
            assert(ps.skip(i as int)[0] == ps[i as int]);
            assert(ps[i as int] == self.profiles@[i as int]@);
            if str_eq(self.profiles[i].name.as_str(), name) {
                return Some(i);
            }
            assert(ps.skip(i as int).drop_first() =~= ps.skip(i + 1));
            i = i + 1;
        }
        assert(ps.skip(i as int).len() == 0);
        None
    }

    /// Whether some device profile is called `name` and offers the entrypoint `ep`.
    fn has_profile_with(&self, name: &str, ep: &str) -> (r: bool)
        ensures
            r == has_named_with(self.device_profiles(), name@, ep@),
    {
        let ghost ps = self.device_profiles();
        let mut i: usize = 0;
        while i < self.profiles.len()
            invariant
                i <= self.profiles.len(),
                ps == self.device_profiles(),
                ps.len() == self.profiles.len(),
                forall|k: int| 0 <= k < i ==> !(ps[k].name == name@ && ps[k].entrypoints.contains(ep@)),
            decreases self.profiles.len() - i,
        {
            assert(ps[i as int] == self.profiles@[i as int]@);
            if str_eq(self.profiles[i].name.as_str(), name) && texts_contain(&self.profiles[i].entrypoints, ep) {
                return true;
            }
            i = i + 1;
        }
        false
    }

    /// The names of the device profiles separated by ` | `.
    fn profile_names(&self) -> (r: String)
        ensures
            r@ == join_names(self.device_profiles()),
    {
        let ghost ps = self.device_profiles();
        let mut r = String::new();
        let mut i: usize = 0;
        while i < self.profiles.len()
            invariant
                i <= self.profiles.len(),
                ps == self.device_profiles(),
                ps.len() == self.profiles.len(),
                r@ == join_names(ps.take(i as int)),
            decreases self.profiles.len() - i,
        {
            let ghost t = ps.take(i + 1);
            assert(t.drop_last() =~= ps.take(i as int));
            assert(t.last() == self.profiles@[i as int]@);
            if i > 0 {
                r.append(" | ");
            } else {
                assert(ps.take(0).len() == 0);
            }
            r.append(self.profiles[i].name.as_str());
            i = i + 1;
        }
        assert(ps.take(i as int) =~= ps);
        r
    }

    /// Whether the device can scale on the GPU.
    fn hw_scaling_supported(&self) -> (r: bool)
        ensures
            r == hw_scaling(self.device_profiles()),
    {
        match self.find_profile("VAProfileH264Main") {
            Some(i) => texts_contain(&self.profiles[i].entrypoints, "VAEntrypointEncSlice"),
            None => match self.find_profile("VAProfileH264High") {
                Some(i) => texts_contain(&self.profiles[i].entrypoints, "VAEntrypointEncSlice"),
                None => false,
            },
        }
    }
}

fn vaapi_hwaccel_args(dri: &str) -> (r: Vec<String>)
    ensures
        r.deep_view() == vaapi_hwaccel_block(dri@),
{
    let mut r = new_args();
    push_text(&mut r, "-hwaccel");
    push_text(&mut r, "vaapi");
    push_text(&mut r, "-vaapi_device");
    push_text(&mut r, dri);
    push_text(&mut r, "-hwaccel_output_format");
    push_text(&mut r, "vaapi");
    assert(r.deep_view() =~= vaapi_hwaccel_block(dri@));
    r
}

fn vaapi_filter_arg(ctx: &ProfileContext, hw: bool) -> (r: String)
    ensures
        r@ == vaapi_filter(ctx@, hw),
{
    match ctx.output_ctx.height {
        Some(h) => {
            let mut f = String::new();
            if hw {
                let s = scale_arg("scale_vaapi", h, ctx.output_ctx.width);
                f.append(s.as_str());
                f.append(",");
            }
            f.append("hwdownload,");
            if str_eq(ctx.input_ctx.profile.as_str(), "Main 10") {
                f.append("format=p010le,");
            }
            f.append("format=nv12,");
            if !hw {
                let s = scale_arg("scale", h, ctx.output_ctx.width);
                f.append(s.as_str());
                f.append(",");
            }
            f.append("hwupload");
            assert(f@ =~= vaapi_filter(ctx@, hw));
            f
        },
        None => String::from_str("hwdownload,format=nv12,hwupload"),
    }
}

fn vaapi_codec_args(ctx: &ProfileContext, hw: bool) -> (r: Vec<String>)
    ensures
        r.deep_view() == vaapi_codec_block(ctx@, hw),
{
    let mut r = new_args();
    push_text(&mut r, "-c:0");
    push_text(&mut r, "h264_vaapi");
    push_text(&mut r, "-bf");
    push_text(&mut r, "0");
    push_text(&mut r, "-vf");
    push_string(&mut r, vaapi_filter_arg(ctx, hw));
    assert(r.deep_view() =~= vaapi_codec_block(ctx@, hw));
    r
}

fn vaapi_bitrate_args(ctx: &ProfileContext, hw: bool) -> (r: Vec<String>)
    ensures
        r.deep_view() == vaapi_bitrate_block(ctx@, hw),
{
    let mut r = new_args();
    match ctx.output_ctx.bitrate {
        Some(b) => {
            if !hw {
                push_text(&mut r, "-maxrate");
            } else {
                push_text(&mut r, "-b:v");
            }
            push_string(&mut r, u64_to_text(b));
        },
        None => {},
    }
    assert(r.deep_view() =~= vaapi_bitrate_block(ctx@, hw));
    r
}

fn vaapi_sync_args() -> (r: Vec<String>)
    ensures
        r.deep_view() == vaapi_sync_block(),
{
    let mut r = new_args();
    push_text(&mut r, "-vsync");
    push_text(&mut r, "passthrough");
    push_text(&mut r, "-avoid_negative_ts");
    push_text(&mut r, "disabled");
    push_text(&mut r, "-max_muxing_queue_size");
    push_text(&mut r, "2048");
    assert(r.deep_view() =~= vaapi_sync_block());
    r
}

fn scene_args() -> (r: Vec<String>)
    ensures
        r.deep_view() == scene_block(),
{
    let mut r = new_args();
    push_text(&mut r, "-sc_threshold:v:0");
    push_text(&mut r, "0");
    assert(r.deep_view() =~= scene_block());
    r
}

/// The device profile needed to decode `codec` in the codec profile `profile`.
fn device_profile_name(codec: &str, profile: &str) -> (r: Option<&'static str>)
    ensures
        match r {
            Some(n) => device_profile_for(codec@, profile@) == Some(n@),
            None => device_profile_for(codec@, profile@) is None,
        },
{
    if str_eq(codec, "h264") && str_eq(profile, "High") {
        Some("VAProfileH264High")
    } else if str_eq(codec, "h264") && str_eq(profile, "Main") {
        Some("VAProfileH264Main")
    } else if str_eq(codec, "h264") && str_eq(profile, "Baseline") {
        Some("VAProfileH264Baseline")
    } else if str_eq(codec, "hevc") && str_eq(profile, "Main") {
        Some("VAProfileHEVCMain")
    } else if str_eq(codec, "hevc") && str_eq(profile, "Main 10") {
        Some("VAProfileHEVCMain10")
    } else {
        None
    }
}

impl TranscodingProfile for VaapiTranscodeProfile {
    open spec fn kind(&self) -> ProfileType {
        ProfileType::HardwareTranscode
    }

    open spec fn produces(&self) -> StreamType {
        StreamType::Video
    }

    open spec fn name_spec(&self) -> Seq<char> {
        "VaapiTranscodeProfile"@
    }

    open spec fn tag_spec(&self) -> Seq<char> {
        "h264_vaapi"@
    }

    open spec fn stdio_spec(&self) -> bool {
        false
    }

    /// Decided by the first required profile, the H264 constrained baseline one.
    open spec fn enabled_spec(&self) -> bool {
        find_named(self.device_profiles(), "VAProfileH264ConstrainedBaseline"@) is Some
    }

    open spec fn disabled_reason(&self) -> Seq<char> {
        "Device "@ + self.vendor_spec() + " doesnt support profile VAProfileH264ConstrainedBaseline (Supported profiles: "@
            + join_names(self.device_profiles()) + ")"@
    }

    open spec fn buildable(&self, ctx: ContextView) -> bool {
        ctx.output.start_num * ctx.output.target_gop <= u32::MAX
    }

    open spec fn args_spec(&self, ctx: ContextView) -> Seq<Seq<char>> {
        vaapi_args(ctx, self.dri_spec(), hw_scaling(self.device_profiles()))
    }

    open spec fn supports_spec(&self, ctx: ContextView) -> bool {
        vaapi_supports(self.device_profiles(), ctx)
    }

    open spec fn unsupported_reason(&self, ctx: ContextView) -> Seq<char> {
        vaapi_refusal(self.device_profiles(), ctx)
    }

    fn profile_type(&self) -> (r: ProfileType) {
        ProfileType::HardwareTranscode
    }

    fn stream_type(&self) -> (r: StreamType) {
        StreamType::Video
    }

    fn is_enabled(&self) -> (r: Result<(), NightfallError>) {
        match self.find_profile("VAProfileH264ConstrainedBaseline") {
            Some(_) => Ok(()),
            None => {
                let names = self.profile_names();
                let mut m = concat2("Device ", self.vendor.as_str());
                m.append(" doesnt support profile VAProfileH264ConstrainedBaseline (Supported profiles: ");
                m.append(names.as_str());
                m.append(")");
                Err(NightfallError::ProfileNotSupported(m))
            },
        }
    }

    fn build(&self, ctx: ProfileContext) -> (r: Option<Vec<String>>) {
        if self.supports(&ctx).is_err() || !seek_fits(ctx.output_ctx.start_num, ctx.output_ctx.target_gop) {
            return None;
        }
        let hw = self.hw_scaling_supported();
        let seek = ctx.output_ctx.start_num * ctx.output_ctx.target_gop;
        let mut args = vaapi_hwaccel_args(self.dri.as_str());
        append_args(&mut args, input_args(&ctx, seek as u64));
        append_args(&mut args, vaapi_codec_args(&ctx, hw));
        append_args(&mut args, vaapi_bitrate_args(&ctx, hw));
        append_args(&mut args, vaapi_sync_args());
        append_args(&mut args, keyint_args());
        append_args(&mut args, get_discont_flags(&ctx));
        append_args(&mut args, hls_args(&ctx));
        append_args(&mut args, independent_args());
        append_args(&mut args, temp_file_args());
        append_args(&mut args, init_args(&ctx));
        append_args(&mut args, gop_args(ctx.output_ctx.target_gop));
        append_args(&mut args, scene_args());
        append_args(&mut args, output_args(&ctx));
        Some(args)
    }

    fn supports(&self, ctx: &ProfileContext) -> (r: Result<(), NightfallError>) {
        let codec = ctx.input_ctx.codec.as_str();
        if !(str_eq(codec, "h264") || str_eq(codec, "hevc")) {
            return Err(
                NightfallError::ProfileNotSupported(
                    String::from_str("Profile only supports decoding h264 or h265 video streams."),
                ),
            );
        }
        if str_eq(codec, "hevc") && !self.has_profile_with("VAProfileHEVCMain", "VAEntrypointVLD") {
            return Err(
                NightfallError::ProfileNotSupported(
                    String::from_str("HW Acceleration device doesnt support decoding hevc content."),
                ),
            );
        }
        if !str_eq(ctx.output_ctx.codec.as_str(), "h264") {
            return Err(
                NightfallError::ProfileNotSupported(
                    String::from_str("Profile only supports h264 output streams."),
                ),
            );
        }
        let profile = match device_profile_name(codec, ctx.input_ctx.profile.as_str()) {
            Some(p) => p,
            None => {
                let mut m = concat3("Profile ", ctx.input_ctx.profile.as_str(), " for ");
                m.append(codec);
                m.append(" not supported by device.");
                return Err(NightfallError::ProfileNotSupported(m));
            },
        };
        if self.find_profile(profile).is_none() {
            return Err(
                NightfallError::ProfileNotSupported(concat3("Profile ", profile, " not supported by device.")),
            );
        }
        Ok(())
    }

    fn tag(&self) -> (r: &str) {
        "h264_vaapi"
    }

    fn name(&self) -> (r: &str) {
        "VaapiTranscodeProfile"
    }

    fn is_stdio_stream(&self) -> (r: bool) {
        false
    }
}

} // verus!
verus! {

/// A copy of a device profile.
fn clone_va_profile(p: &VaProfile) -> (r: VaProfile)
    ensures
        r@ == p@,
{
    let e = p.entrypoints.clone();
    proof {
        broadcast use vstd::std_specs::vec::vec_clone_deep_view_proof;
        assert(e.deep_view() =~= p.entrypoints.deep_view());
    }
    VaProfile { name: p.name.clone(), entrypoints: e }
}

/// A copy of a list of device profiles.
fn clone_profiles(ps: &Vec<VaProfile>) -> (r: Vec<VaProfile>)
    ensures
        profile_views(r@) == profile_views(ps@),
{
    let mut r: Vec<VaProfile> = Vec::new();
    let mut i: usize = 0;
    while i < ps.len()
        invariant
            i <= ps.len(),
            r@.len() == i,
            forall|k: int| 0 <= k < i ==> r@[k]@ == ps@[k]@,
        decreases ps.len() - i,
    {
        r.push(clone_va_profile(&ps[i]));
        i = i + 1;
    }
    assert(profile_views(r@) =~= profile_views(ps@));
    r
}

impl VaapiTranscodeProfile {
    /// A copy of the profile.
    pub fn clone_device(&self) -> (r: Self)
        ensures
            r.device_profiles() == self.device_profiles(),
            r.vendor_spec() == self.vendor_spec(),
            r.dri_spec() == self.dri_spec(),
    {
        VaapiTranscodeProfile {
            profiles: clone_profiles(&self.profiles),
            vendor: self.vendor.clone(),
            dri: self.dri.clone(),
        }
    }
}

/// A profile with a given name is found.
proof fn lemma_find_named_some(ps: Seq<VaProfileView>, name: Seq<char>, i: int)
    requires
        0 <= i < ps.len(),
        ps[i].name == name,
    ensures
        find_named(ps, name) is Some,
    decreases ps.len(),
{
    if ps[0].name != name {
        lemma_find_named_some(ps.drop_first(), name, i - 1);
    }
}

/// Whether the device encodes and decodes H264 in the device profile `name`.
pub open spec fn encodes_and_decodes(ps: Seq<VaProfileView>, name: Seq<char>) -> bool {
    has_named_with(ps, name, "VAEntrypointEncSlice"@) && has_named_with(ps, name, "VAEntrypointVLD"@)
}

/// A device that encodes and decodes H264 in the Main, High and constrained baseline
/// profiles enables the VAAPI profile.
pub proof fn lemma_capable_device_enabled(p: VaapiTranscodeProfile)
    requires
        encodes_and_decodes(p.device_profiles(), "VAProfileH264Main"@),
        encodes_and_decodes(p.device_profiles(), "VAProfileH264High"@),
        encodes_and_decodes(p.device_profiles(), "VAProfileH264ConstrainedBaseline"@),
    ensures
        p.enabled_spec(),
{
    let ps = p.device_profiles();
    let i = choose|i: int|
        0 <= i < ps.len() && ps[i].name == "VAProfileH264ConstrainedBaseline"@ && ps[i].entrypoints.contains(
            "VAEntrypointVLD"@,
        );
    lemma_find_named_some(ps, "VAProfileH264ConstrainedBaseline"@, i);
}

/// The text `s` with its ASCII lower case letters made upper case.
pub open spec fn ascii_upper(s: Seq<char>) -> Seq<char> {
    Seq::new(s.len(), |i: int| if 'a' <= s[i] && s[i] <= 'z' { ((s[i] as int) - 32) as char } else { s[i] })
}

/// The text `s` without its spaces.
pub open spec fn without_spaces(s: Seq<char>) -> Seq<char>
    decreases s.len(),
{
    if s.len() == 0 {
        s
    } else if s[0] == ' ' {
        without_spaces(s.drop_first())
    } else {
        seq![s[0]] + without_spaces(s.drop_first())
    }
}

/// Whether a decoder is known for the codec profile `profile` of `codec`: H264 in the High,
/// Main and Baseline profiles, and HEVC in the Main and Main 10 profiles.
pub open spec fn known_codec_profile(codec: Seq<char>, profile: Seq<char>) -> bool {
    ||| codec == "h264"@ && (profile == "High"@ || profile == "Main"@ || profile == "Baseline"@)
    ||| codec == "hevc"@ && (profile == "Main"@ || profile == "Main 10"@)
}

/// The device profile that decodes an input is named after the input's codec and codec
/// profile: `VAProfile`, the codec in upper case, and the codec profile without spaces
/// (`hevc`/`Main 10` needs `VAProfileHEVCMain10`); inputs of other codec profiles need none.
pub proof fn lemma_device_profile_names(codec: Seq<char>, profile: Seq<char>)
    ensures
        device_profile_for(codec, profile) is Some <==> known_codec_profile(codec, profile),
        known_codec_profile(codec, profile) ==> device_profile_for(codec, profile) == Some(
            "VAProfile"@ + ascii_upper(codec) + without_spaces(profile),
        ),
{
    reveal_strlit("h264");
    reveal_strlit("hevc");
    reveal_strlit("High");
    reveal_strlit("Main");
    reveal_strlit("Baseline");
    reveal_strlit("Main 10");
    reveal_strlit("VAProfile");
    reveal_strlit("VAProfileH264High");
    reveal_strlit("VAProfileH264Main");
    reveal_strlit("VAProfileH264Baseline");
    reveal_strlit("VAProfileHEVCMain");
    reveal_strlit("VAProfileHEVCMain10");
    reveal_with_fuel(without_spaces, 9);
    assert("h264"@[1] != "hevc"@[1]);
    assert("High"@[0] != "Main"@[0] && "High"@[0] != "Baseline"@[0] && "Main"@[0] != "Baseline"@[0]);
    assert("Main"@.len() != "Main 10"@.len());
    if codec == "h264"@ {
        assert(ascii_upper(codec) =~= "H264"@) by {
            reveal_strlit("H264");
        }
        if profile == "High"@ {
            assert(without_spaces(profile) =~= profile);
            assert("VAProfile"@ + ascii_upper(codec) + without_spaces(profile) =~= "VAProfileH264High"@);
        } else if profile == "Main"@ {
            assert(without_spaces(profile) =~= profile);
            assert("VAProfile"@ + ascii_upper(codec) + without_spaces(profile) =~= "VAProfileH264Main"@);
        } else if profile == "Baseline"@ {
            assert(without_spaces(profile) =~= profile);
            assert("VAProfile"@ + ascii_upper(codec) + without_spaces(profile) =~= "VAProfileH264Baseline"@);
        }
    } else if codec == "hevc"@ {
        assert(ascii_upper(codec) =~= "HEVC"@) by {
            reveal_strlit("HEVC");
        }
        if profile == "Main"@ {
            assert(without_spaces(profile) =~= profile);
            assert("VAProfile"@ + ascii_upper(codec) + without_spaces(profile) =~= "VAProfileHEVCMain"@);
        } else if profile == "Main 10"@ {
            assert(without_spaces(profile) =~= "Main10"@) by {
                reveal_strlit("Main10");
            }
            assert("VAProfile"@ + ascii_upper(codec) + without_spaces(profile) =~= "VAProfileHEVCMain10"@);
        }
    }
}

/// A device that has the device profile an input needs, named after the input's codec and
/// codec profile (and, for HEVC, decodes HEVC Main), supports transcoding that input to H264.
pub proof fn lemma_device_with_profile_supports(p: VaapiTranscodeProfile, ctx: ContextView)
    requires
        known_codec_profile(ctx.input.codec, ctx.input.profile),
        exists|i: int|
            0 <= i < p.device_profiles().len() && #[trigger] p.device_profiles()[i].name == "VAProfile"@
                + ascii_upper(ctx.input.codec) + without_spaces(ctx.input.profile),
        ctx.input.codec == "hevc"@ ==> has_named_with(p.device_profiles(), "VAProfileHEVCMain"@, "VAEntrypointVLD"@),
        ctx.output.codec == "h264"@,
    ensures
        p.supports_spec(ctx),
{
    lemma_device_profile_names(ctx.input.codec, ctx.input.profile);
    let name = "VAProfile"@ + ascii_upper(ctx.input.codec) + without_spaces(ctx.input.profile);
    let i = choose|i: int| 0 <= i < p.device_profiles().len() && #[trigger] p.device_profiles()[i].name == name;
    lemma_find_named_some(p.device_profiles(), name, i);
}

} // verus!
