use nightfall::error::NightfallError;
use nightfall::profiles::vaapi::{VaDevice, VaProfile};
use nightfall::profiles::{
    get_profile_for, profiles_init, AacTranscodeProfile, AnyProfile, AssExtractProfile, CudaTranscodeProfile,
    H264TranscodeProfile, H264TransmuxProfile, ProfileContext, ProfileType, RawVideoTranscodeProfile, StreamType,
    TranscodingProfile, VaapiTranscodeProfile, WebvttTranscodeProfile,
};

fn s(v: &[&str]) -> Vec<String> {
    v.iter().map(|x| x.to_string()).collect()
}

fn ctx(file: &str, outdir: &str, start: u32) -> ProfileContext {
    let mut c = ProfileContext::default();
    c.file = file.into();
    c.output_ctx.outdir = outdir.into();
    c.output_ctx.start_num = start;
    c
}

fn not_supported(r: Result<(), NightfallError>) -> String {
    match r {
        Err(NightfallError::ProfileNotSupported(m)) => m,
        other => panic!("expected a refusal, got {:?}", other),
    }
}

#[test]
fn context_defaults() {
    let c = ProfileContext::default();
    assert_eq!(c.ffmpeg_bin, "ffmpeg");
    assert_eq!(c.output_ctx.audio_channels, 2);
    assert_eq!(c.output_ctx.target_gop, 5);
    assert_eq!(c.output_ctx.start_num, 0);
    assert_eq!(c.input_ctx.audio_channels, 2);
    assert!(c.pre_args.is_empty());
}

#[test]
fn aac_arguments() {
    let mut c = ctx("in.mkv", "/o", 2);
    c.input_ctx.stream = 1;
    c.output_ctx.codec = "aac".into();
    let args = AacTranscodeProfile.build(c.clone()).unwrap();
    let mut want = s(&["-y", "-ss", "10", "-i", "in.mkv", "-copyts", "-map", "0:1", "-c:0", "aac", "-ab", "120000"]);
    want.extend(s(&["-start_at_zero", "-vsync", "-1", "-avoid_negative_ts", "make_non_negative"]));
    want.extend(s(&["-f", "hls", "-start_number", "2", "-hls_flags", "temp_file", "-max_delay", "5000000"]));
    want.extend(s(&["-hls_segment_options", "movflags=frag_custom+dash+delay_moov+frag_discont"]));
    want.extend(s(&["-hls_fmp4_init_filename", "2_init.mp4"]));
    want.extend(s(&["-hls_time", "5", "-force_key_frames", "expr:gte(t,n_forced*5)"]));
    want.extend(s(&["-hls_segment_type", "1", "-loglevel", "info", "-progress", "pipe:1"]));
    want.extend(s(&["-hls_segment_filename", "/o/%d.m4s", "/o/playlist.m3u8"]));
    assert_eq!(args, want);

    c.input_ctx.audio_channels = 6;
    c.output_ctx.bitrate = Some(96000);
    c.output_ctx.start_num = 0;
    let args = AacTranscodeProfile.build(c).unwrap();
    assert_eq!(args[2], "0");
    assert_eq!(&args[10..14], &s(&["-af", "pan=stereo|FL=0.5*FC+0.707*FL+0.707*BL+0.5*LFE|FR=0.5*FC+0.707*FR+0.707*BR+0.5*LFE", "-ab", "96000"])[..]);
    assert!(args.contains(&"movflags=frag_custom+dash+delay_moov".to_string()));
}

#[test]
fn aac_supports_only_aac_output() {
    let mut c = ctx("f", "o", 0);
    c.output_ctx.codec = "aac".into();
    assert!(AacTranscodeProfile.supports(&c).is_ok());
    c.output_ctx.codec = "opus".into();
    assert_eq!(not_supported(AacTranscodeProfile.supports(&c)), "Profile not supported.");
}

#[test]
fn transmux_arguments_and_support() {
    let mut c = ctx("in.mp4", "d", 4);
    c.input_ctx.codec = "h264".into();
    c.output_ctx.codec = "h264".into();
    let args = H264TransmuxProfile.build(c.clone()).unwrap();
    assert_eq!(&args[..10], &s(&["-y", "-ss", "20", "-i", "in.mp4", "-copyts", "-map", "0:0", "-c:0", "copy"])[..]);
    assert!(args.windows(2).any(|w| w == s(&["-hls_time", "5"]).as_slice()));
    assert_eq!(args.last().unwrap(), "d/playlist.m3u8");

    assert!(H264TransmuxProfile.supports(&c).is_ok());
    c.input_ctx.bframes = Some(2);
    assert_eq!(
        not_supported(H264TransmuxProfile.supports(&c)),
        "Transmuxing streams containing b-frames is currently not supported."
    );
    c.input_ctx.bframes = Some(0);
    c.input_ctx.codec = "hevc".into();
    assert_eq!(not_supported(H264TransmuxProfile.supports(&c)), "Profile only supports h264 input and output codecs.");
    assert_eq!(H264TransmuxProfile.build(c.clone()), None);
}

#[test]
fn transcode_arguments_scale_and_bitrate() {
    let mut c = ctx("in", "o", 0);
    c.output_ctx.height = Some(720);
    c.output_ctx.bitrate = Some(2_000_000);
    c.output_ctx.codec = "h264".into();
    let args = H264TranscodeProfile.build(c.clone()).unwrap();
    assert_eq!(&args[8..18], &s(&["-c:0", "libx264", "-preset", "veryfast", "-x264-params", "bframes=0", "-vf", "scale=720:-2", "-b:v", "2000000"])[..]);
    c.output_ctx.width = Some(1280);
    let args = H264TranscodeProfile.build(c.clone()).unwrap();
    assert_eq!(args[15], "scale=720:1280");
    c.output_ctx.codec = "vp9".into();
    assert_eq!(
        not_supported(H264TranscodeProfile.supports(&c)),
        "Got output codec vp9 but profile only supports `h264`."
    );
    assert_eq!(H264TranscodeProfile.build(c), None);
}

#[test]
fn raw_video_arguments() {
    let mut c = ctx("in", "o", 0);
    c.input_ctx.seek = Some(30);
    c.output_ctx.max_to_transcode = Some(10);
    c.output_ctx.codec = "rawvideo".into();
    let args = RawVideoTranscodeProfile.build(c.clone()).unwrap();
    assert_eq!(
        args,
        s(&["-y", "-ss", "30", "-t", "10", "-map", "0:0", "-c:v", "rawvideo", "-flags2", "-pix_fmt", "rgb24", "-preset", "ultrafast", "-f", "data", "-"])
    );
    c.input_ctx.seek = Some(-5);
    c.output_ctx.max_to_transcode = None;
    c.output_ctx.height = Some(8);
    c.output_ctx.width = Some(8);
    let args = RawVideoTranscodeProfile.build(c.clone()).unwrap();
    assert_eq!(&args[..3], &s(&["-y", "-sseof", "-5"])[..]);
    assert_eq!(&args[args.len() - 5..], &s(&["-vf", "scale=8:8", "-f", "data", "-"])[..]);
    c.input_ctx.seek = Some(0);
    assert_eq!(RawVideoTranscodeProfile.build(c.clone()).unwrap()[1], "-sseof");
    assert!(RawVideoTranscodeProfile.is_stdio_stream());
    c.output_ctx.codec = "".into();
    assert_eq!(RawVideoTranscodeProfile.build(c.clone()), None);
    assert_eq!(not_supported(RawVideoTranscodeProfile.supports(&c)), "Codec  is not supported.");
}

#[test]
fn subtitle_profiles() {
    let mut c = ctx("movie.mkv", "o", 0);
    c.input_ctx.stream = 3;
    c.input_ctx.codec = "ass".into();
    c.output_ctx.codec = "webvtt".into();
    assert_eq!(
        WebvttTranscodeProfile.build(c.clone()).unwrap(),
        s(&["-y", "-i", "movie.mkv", "-map", "0:3", "-f", "webvtt", "-"])
    );
    assert_eq!(AssExtractProfile.build(c.clone()), None);
    c.output_ctx.codec = "ass".into();
    assert_eq!(
        AssExtractProfile.build(c.clone()).unwrap(),
        s(&["-y", "-i", "movie.mkv", "-map", "0:3", "-f", "ass", "-"])
    );
    c.output_ctx.codec = "webvtt".into();
    for codec in ["srt", "ass", "ssa", "subrip"] {
        c.input_ctx.codec = codec.into();
        assert!(WebvttTranscodeProfile.supports(&c).is_ok());
    }
    c.input_ctx.codec = "pgs".into();
    assert_eq!(not_supported(WebvttTranscodeProfile.supports(&c)), "Codec pgs not supported.");
    c.input_ctx.codec = "ssa".into();
    c.output_ctx.codec = "ass".into();
    assert!(AssExtractProfile.supports(&c).is_ok());
    c.input_ctx.codec = "srt".into();
    assert_eq!(not_supported(AssExtractProfile.supports(&c)), "Profile only supports extracting ass subtitles.");
}

#[test]
fn cuda_arguments() {
    let mut c = ctx("in", "o", 1);
    c.output_ctx.height = Some(480);
    c.input_ctx.codec = "h264".into();
    c.output_ctx.codec = "h264".into();
    let args = CudaTranscodeProfile.build(c.clone()).unwrap();
    assert_eq!(&args[..4], &s(&["-hwaccel", "cuda", "-hwaccel_output_format", "cuda"])[..]);
    assert_eq!(args[6], "5");
    assert!(args.windows(2).any(|w| w == s(&["-vf", "scale_cuda=480:-2"]).as_slice()));
    assert!(args.windows(2).any(|w| w == s(&["-hls_flags", "independent_segments"]).as_slice()));
    assert!(CudaTranscodeProfile.supports(&c).is_ok());
    assert_eq!(CudaTranscodeProfile.profile_type(), ProfileType::HardwareTranscode);
    assert_eq!(CudaTranscodeProfile.tag(), "h264_cuda");
}

fn device(names: &[(&str, &[&str])]) -> VaDevice {
    VaDevice {
        profiles: names
            .iter()
            .map(|(n, e)| VaProfile { name: n.to_string(), entrypoints: s(e) })
            .collect(),
        vendor: "Intel iHD".into(),
        dri: "/dev/dri/renderD128".into(),
    }
}

#[test]
fn vaapi_null_device_is_disabled() {
    let p = VaapiTranscodeProfile::new(None).unwrap();
    assert_eq!(
        not_supported(p.is_enabled()),
        "Device <null_device> doesnt support profile VAProfileH264ConstrainedBaseline (Supported profiles: )"
    );
    let p = VaapiTranscodeProfile::new(Some(device(&[("VAProfileH264Main", &[]), ("VAProfileHEVCMain", &[])]))).unwrap();
    assert_eq!(
        not_supported(p.is_enabled()),
        "Device Intel iHD doesnt support profile VAProfileH264ConstrainedBaseline (Supported profiles: VAProfileH264Main | VAProfileHEVCMain)"
    );
    let p = VaapiTranscodeProfile::new(Some(device(&[("VAProfileH264ConstrainedBaseline", &[])]))).unwrap();
    assert!(p.is_enabled().is_ok());
}

#[test]
fn vaapi_support_checks() {
    let p = VaapiTranscodeProfile::new(Some(device(&[
        ("VAProfileH264High", &["VAEntrypointVLD", "VAEntrypointEncSlice"]),
        ("VAProfileHEVCMain", &["VAEntrypointEncSlice"]),
    ])))
    .unwrap();
    let mut c = ctx("in", "o", 0);
    c.input_ctx.codec = "vp9".into();
    assert_eq!(not_supported(p.supports(&c)), "Profile only supports decoding h264 or h265 video streams.");
    c.input_ctx.codec = "hevc".into();
    assert_eq!(not_supported(p.supports(&c)), "HW Acceleration device doesnt support decoding hevc content.");
    c.input_ctx.codec = "h264".into();
    c.output_ctx.codec = "hevc".into();
    assert_eq!(not_supported(p.supports(&c)), "Profile only supports h264 output streams.");
    c.output_ctx.codec = "h264".into();
    c.input_ctx.profile = "Extended".into();
    assert_eq!(not_supported(p.supports(&c)), "Profile Extended for h264 not supported by device.");
    c.input_ctx.profile = "Main".into();
    assert_eq!(not_supported(p.supports(&c)), "Profile VAProfileH264Main not supported by device.");
    c.input_ctx.profile = "High".into();
    assert!(p.supports(&c).is_ok());
}

#[test]
fn vaapi_arguments_follow_gpu_scaling() {
    let hevc: &[(&str, &[&str])] = &[("VAProfileHEVCMain", &["VAEntrypointVLD"]), ("VAProfileHEVCMain10", &[])];
    let mut g = vec![("VAProfileH264Main", &["VAEntrypointEncSlice"][..])];
    g.extend_from_slice(hevc);
    let mut p = vec![("VAProfileH264Main", &["VAEntrypointVLD"][..])];
    p.extend_from_slice(hevc);
    let gpu = VaapiTranscodeProfile::new(Some(device(&g))).unwrap();
    let cpu = VaapiTranscodeProfile::new(Some(device(&p))).unwrap();
    let mut c = ctx("in", "o", 0);
    c.output_ctx.height = Some(720);
    c.output_ctx.bitrate = Some(1000);
    c.input_ctx.profile = "Main 10".into();
    c.input_ctx.codec = "hevc".into();
    c.output_ctx.codec = "h264".into();
    let a = gpu.build(c.clone()).unwrap();
    assert_eq!(&a[..6], &s(&["-hwaccel", "vaapi", "-vaapi_device", "/dev/dri/renderD128", "-hwaccel_output_format", "vaapi"])[..]);
    assert!(a.windows(2).any(|w| w == s(&["-vf", "scale_vaapi=720:-2,hwdownload,format=p010le,format=nv12,hwupload"]).as_slice()));
    assert!(a.windows(2).any(|w| w == s(&["-b:v", "1000"]).as_slice()));
    let b = cpu.build(c.clone()).unwrap();
    assert!(b.windows(2).any(|w| w == s(&["-vf", "hwdownload,format=p010le,format=nv12,scale=720:-2,hwupload"]).as_slice()));
    assert!(b.windows(2).any(|w| w == s(&["-maxrate", "1000"]).as_slice()));
    c.output_ctx.height = None;
    let d = cpu.build(c).unwrap();
    assert!(d.windows(2).any(|w| w == s(&["-vf", "hwdownload,format=nv12,hwupload"]).as_slice()));
    assert!(d.windows(2).any(|w| w == s(&["-sc_threshold:v:0", "0"]).as_slice()));
}

#[test]
fn registry_holds_the_enabled_builtin_profiles() {
    let reg = profiles_init();
    let tags: Vec<&str> = reg.iter().map(|p| p.tag()).collect();
    assert_eq!(tags, vec!["aac", "h264", "h264_copy", "rawvideo", "webvtt", "ass", "h264_cuda"]);
}

#[test]
fn profiles_for_a_request_are_ordered_by_type() {
    let reg = profiles_init();
    let mut c = ctx("in", "o", 0);
    c.input_ctx.codec = "h264".into();
    c.output_ctx.codec = "h264".into();
    let chosen: Vec<&str> = get_profile_for(&reg, StreamType::Video, &c).iter().map(|p| p.tag()).collect();
    assert_eq!(chosen, vec!["h264", "h264_copy", "h264_cuda"]);

    c.input_ctx.bframes = Some(3);
    let chosen: Vec<&str> = get_profile_for(&reg, StreamType::Video, &c).iter().map(|p| p.tag()).collect();
    assert_eq!(chosen, vec!["h264", "h264_cuda"]);

    let mut reg2 = vec![AnyProfile::Cuda(CudaTranscodeProfile)];
    reg2.extend(profiles_init());
    let chosen: Vec<&str> = get_profile_for(&reg2, StreamType::Video, &c).iter().map(|p| p.tag()).collect();
    assert_eq!(chosen, vec!["h264", "h264_cuda", "h264_cuda"]);

    c.output_ctx.codec = "aac".into();
    let chosen: Vec<&str> = get_profile_for(&reg, StreamType::Audio, &c).iter().map(|p| p.tag()).collect();
    assert_eq!(chosen, vec!["aac"]);
    assert!(get_profile_for(&reg, StreamType::Subtitle, &c).is_empty());
}

#[test]
fn vaapi_capable_device_is_enabled() {
    let both: &[&str] = &["VAEntrypointVLD", "VAEntrypointEncSlice"];
    let p = VaapiTranscodeProfile::new(Some(device(&[
        ("VAProfileH264Main", both),
        ("VAProfileH264High", both),
        ("VAProfileH264ConstrainedBaseline", both),
    ])))
    .unwrap();
    assert!(p.is_enabled().is_ok());
}

#[test]
fn building_needs_a_seek_position_that_fits() {
    let mut c = ctx("in", "o", u32::MAX / 5);
    c.input_ctx.codec = "h264".into();
    c.output_ctx.codec = "h264".into();
    assert!(H264TransmuxProfile.build(c.clone()).is_some());
    c.output_ctx.start_num = u32::MAX / 5 + 1;
    assert_eq!(H264TransmuxProfile.build(c.clone()), None);
    c.output_ctx.codec = "aac".into();
    c.output_ctx.start_num = 1000;
    c.output_ctx.target_gop = u32::MAX / 1000;
    assert!(AacTranscodeProfile.build(c.clone()).is_some());
    c.output_ctx.target_gop = u32::MAX / 1000 + 1;
    assert_eq!(AacTranscodeProfile.build(c), None);
}

#[test]
fn cuda_transcodes_only_h264() {
    let mut c = ctx("in", "o", 0);
    c.input_ctx.codec = "hevc".into();
    c.output_ctx.codec = "h264".into();
    assert_eq!(not_supported(CudaTranscodeProfile.supports(&c)), "Profile only supports h264 input streams.");
    assert_eq!(CudaTranscodeProfile.build(c.clone()), None);
    c.input_ctx.codec = "h264".into();
    c.output_ctx.codec = "hevc".into();
    assert_eq!(not_supported(CudaTranscodeProfile.supports(&c)), "Profile only supports h264 output streams.");
    c.output_ctx.codec = "h264".into();
    assert!(CudaTranscodeProfile.supports(&c).is_ok());
    assert!(CudaTranscodeProfile.build(c).is_some());
}
