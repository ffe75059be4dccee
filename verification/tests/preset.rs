use nightfall::profile::{AudioProfile, Profile, RawVideoProfile, StreamType, SubtitleProfile, VideoProfile};

const KEY_FRAMES: &str = "expr:if(isnan(prev_forced_t),eq(t,t),gte(t,prev_forced_t+5.00))";

#[test]
fn video_presets_have_parameters_and_labels() {
    assert_eq!(VideoProfile::Direct.to_params(), (vec!["-c:0", "copy"], "direct"));
    assert_eq!(VideoProfile::Native.to_params(), (vec!["-c:0", "libx264", "-preset", "veryfast"], "max"));
    assert_eq!(
        VideoProfile::High.to_params(),
        (vec!["-c:0", "libx264", "-b:v", "5M", "-preset", "veryfast", "-vf", "scale=1280:-2"], "5000kb")
    );
    assert_eq!(VideoProfile::Medium.to_params().1, "2000kb");
    assert_eq!(VideoProfile::Low.to_params().0[7], "scale=480:-2");
}

#[test]
fn video_labels_name_presets_again() {
    for p in [VideoProfile::Direct, VideoProfile::High, VideoProfile::Medium, VideoProfile::Low] {
        assert_eq!(VideoProfile::from_string(p.to_params().1), Some(p));
    }
    assert_eq!(VideoProfile::from_string("max"), None);
    assert_eq!(VideoProfile::from_string("native"), Some(VideoProfile::Native));
    assert_eq!(VideoProfile::from_string("4000kb"), None);
}

#[test]
fn audio_preset_labels() {
    assert_eq!(AudioProfile::Low.to_params(), (vec!["-c:0", "aac", "-ac", "2", "-ab", "128k"], "128kb"));
    assert_eq!(AudioProfile::from_string("120kb"), Some(AudioProfile::Low));
    assert_eq!(AudioProfile::from_string("128kb"), None);
}

#[test]
fn presets_display() {
    assert_eq!(
        StreamType::Video { map: 0, profile: VideoProfile::High }.display_text(),
        "map 0 -> h264@5000kb"
    );
    assert_eq!(StreamType::Audio { map: 3, profile: AudioProfile::Low }.display_text(), "map 3 -> aac@128kb");
    assert_eq!(
        StreamType::Subtitle { map: 12, profile: SubtitleProfile::Webvtt }.display_text(),
        "map 12 -> vtt"
    );
    assert_eq!(
        StreamType::RawVideo { map: 1, profile: RawVideoProfile::RawRgb, tt: None }.display_text(),
        "map 1 -> RawRgb"
    );
    assert_eq!(StreamType::RawVideo { map: 9, profile: RawVideoProfile::RawRgb, tt: Some(2) }.map(), 9);
    assert_eq!(VideoProfile::Direct.display_text(), "copy");
}

fn hls_tail(start: &str) -> Vec<String> {
    vec![
        "-f".to_string(),
        "hls".into(),
        "-start_number".into(),
        start.into(),
        "-hls_flags".into(),
        "temp_file".into(),
        "-max_delay".into(),
        "5000000".into(),
        "-hls_fmp4_init_filename".into(),
        format!("{}_init.mp4", start),
        "-hls_time".into(),
        "5".into(),
    ]
}

fn output(outdir: &str) -> Vec<String> {
    vec![
        "-hls_segment_type".to_string(),
        "1".into(),
        "-loglevel".into(),
        "info".into(),
        "-progress".into(),
        "pipe:1".into(),
        "-hls_segment_filename".into(),
        format!("{}/%d.m4s", outdir),
        format!("{}/playlist.m3u8", outdir),
    ]
}

#[test]
fn direct_video_preset_forces_no_key_frames() {
    let args = VideoProfile::Direct.to_args(3, "/tmp/s");
    let mut want: Vec<String> = vec!["-c:0".into(), "copy".into()];
    want.extend(
        ["-start_at_zero", "-vsync", "passthrough", "-avoid_negative_ts", "disabled", "-max_muxing_queue_size", "2048"]
            .iter()
            .map(|s| s.to_string()),
    );
    want.extend(hls_tail("3"));
    want.extend(output("/tmp/s"));
    assert_eq!(args, want);
}

#[test]
fn transcoding_video_preset_forces_key_frames() {
    let args = VideoProfile::Low.to_args(0, "out");
    assert!(args.windows(2).any(|w| w[0] == "-force_key_frames" && w[1] == KEY_FRAMES));
    assert_eq!(args.last().unwrap(), "out/playlist.m3u8");
    assert_eq!(&args[..8], &VideoProfile::Low.to_params().0.iter().map(|s| s.to_string()).collect::<Vec<_>>()[..]);
}

#[test]
fn audio_preset_arguments() {
    let args = AudioProfile::Low.to_args(10, "a");
    assert_eq!(args[..6], ["-c:0", "aac", "-ac", "2", "-ab", "128k"]);
    assert_eq!(args[6..13], ["-start_at_zero", "-vsync", "-1", "-avoid_negative_ts", "disabled", "-max_muxing_queue_size", "2048"]);
    assert!(args.windows(2).any(|w| w[0] == "-start_number" && w[1] == "10"));
    assert!(args.windows(2).any(|w| w[0] == "-hls_fmp4_init_filename" && w[1] == "10_init.mp4"));
    assert!(args.windows(2).any(|w| w[0] == "-force_key_frames" && w[1] == KEY_FRAMES));
    assert_eq!(args.last().unwrap(), "a/playlist.m3u8");
}

#[test]
fn subtitle_and_raw_presets_pipe_to_stdout() {
    assert_eq!(SubtitleProfile::Webvtt.to_args(5, "x"), vec!["-f", "webvtt", "-"]);
    assert_eq!(
        RawVideoProfile::RawRgb.to_args(0, "x"),
        vec!["-c:v", "rawvideo", "-vf", "scale=8:8", "-pix_fmt", "rgb24", "-preset", "ultrafast", "-f", "data", "-"]
    );
}
