use nightfall::error::NightfallError;
use nightfall::manager::{
    begin_chunk_request, begin_init_request, finish_chunk_request, finish_init_request, chain_label, create_session, gc_action, plan_chunk_init, plan_chunk_request, session_label, should_hard_seek,
    ChunkAction, GcAction, InitAction, StreamStat,
};
use nightfall::profiles::{
    AacTranscodeProfile, AnyProfile, H264TranscodeProfile, H264TransmuxProfile, OutputCtx, ProfileContext,
    WebvttTranscodeProfile,
};
use nightfall::progress::{parse_progress_line, ProgressMap};
use nightfall::session::{stderr_tail, Session};

fn video_chain() -> Vec<AnyProfile> {
    vec![AnyProfile::H264Transmux(H264TransmuxProfile), AnyProfile::H264Transcode(H264TranscodeProfile)]
}

fn progress(pairs: &[(&str, &str)]) -> ProgressMap {
    let mut m = ProgressMap::new();
    for (k, v) in pairs {
        m.insert(k.to_string(), v.to_string());
    }
    m
}

#[test]
fn progress_lines_split_at_the_first_equals_sign() {
    assert_eq!(parse_progress_line("frame=  120"), ("frame".to_string(), "120".to_string()));
    assert_eq!(parse_progress_line("speed=1.5x \t"), ("speed".to_string(), "1.5x".to_string()));
    assert_eq!(parse_progress_line("a=b=c"), ("a".to_string(), "b".to_string()));
    assert_eq!(parse_progress_line("progress="), ("progress".to_string(), "".to_string()));
    assert_eq!(parse_progress_line(" k = v "), (" k ".to_string(), "v".to_string()));
}

#[test]
fn progress_map_keeps_the_last_value() {
    let mut m = ProgressMap::new();
    assert_eq!(m.get("frame"), None);
    m.insert("frame".into(), "1".into());
    m.insert("fps".into(), "24".into());
    m.insert("frame".into(), "2".into());
    assert_eq!(m.get("frame"), Some("2".to_string()));
    assert_eq!(m.get("fps"), Some("24".to_string()));
    assert_eq!(m.get("speed"), None);
}

#[test]
fn new_session_state() {
    let mut ctx = ProfileContext::default();
    ctx.output_ctx.start_num = 7;
    ctx.output_ctx.outdir = "/tmp/out".into();
    let s = Session::new("abc".into(), video_chain(), ctx, 1000);
    assert_eq!(s.id(), "abc");
    assert_eq!(s.start_num(), 7);
    assert!(!s.has_started());
    assert!(!s.paused());
    assert_eq!(s.real_segment(), 7);
    assert_eq!(s.child_pid(), None);
    assert_eq!(s.chunk_to_path(12), "/tmp/out/12.m4s");
    assert_eq!(s.init_seg(), "/tmp/out/7_init.mp4");
    assert_eq!(s.log_path(), "/tmp/out/ffmpeg.log");
    assert_eq!(s.vtt_path(), None);
    assert_eq!(s.subtitle_path("a.vtt"), None);
    assert!(s.reports_progress());
    assert!(!s.is_hard_timeout(1000 + 1_800_000));
    assert!(s.is_hard_timeout(1000 + 1_800_001));
}

#[test]
fn video_chunk_follows_frames() {
    let mut ctx = ProfileContext::default();
    ctx.output_ctx.start_num = 10;
    let s = Session::new("v".into(), video_chain(), ctx, 0);
    assert_eq!(s.current_chunk(&progress(&[])), 10);
    assert_eq!(s.current_chunk(&progress(&[("frame", "119")])), 10);
    assert_eq!(s.current_chunk(&progress(&[("frame", "240")])), 12);
    assert_eq!(s.current_chunk(&progress(&[("frame", "garbage")])), 10);
    assert_eq!(s.current_chunk(&progress(&[("frame", "4294967416")])), 11);
}

#[test]
fn audio_chunk_follows_time_and_never_goes_back() {
    let s = Session::new("a".into(), vec![AnyProfile::Aac(AacTranscodeProfile)], ProfileContext::default(), 0);
    assert_eq!(s.current_chunk(&progress(&[("out_time_us", "25000000")])), 5);
    let mut s = s;
    s.reset_timeout(9, 0);
    assert_eq!(s.current_chunk(&progress(&[("out_time_us", "25000000")])), 9);
    assert!(!s.is_timeout(&progress(&[("out_time_us", "100000000")])));
    assert!(s.is_timeout(&progress(&[("out_time_us", "125000000")])));
}

#[test]
fn pause_and_continue() {
    let mut s = Session::new("p".into(), video_chain(), ProfileContext::default(), 0);
    assert_eq!(s.pause(), None);
    s.mark_started();
    s.set_child(Some(42));
    assert_eq!(s.pause(), Some(42));
    assert!(s.paused());
    assert_eq!(s.pause(), None);
    assert_eq!(s.cont(), Some(42));
    assert!(!s.paused());
    assert_eq!(s.cont(), None);
}

#[test]
fn reset_restarts_at_the_chunk() {
    let mut ctx = ProfileContext::default();
    ctx.input_ctx.codec = "h264".into();
    ctx.output_ctx.codec = "h264".into();
    let mut s = Session::new("r".into(), video_chain(), ctx, 0);
    s.mark_started();
    s.set_child(Some(5));
    s.reset_to(30);
    assert_eq!(s.start_num(), 30);
    assert!(!s.has_started());
    assert!(s.paused());
    assert_eq!(s.real_segment(), 30);
    assert_eq!(s.child_pid(), None);
    assert_eq!(s.init_seg(), "/30_init.mp4");
    assert_eq!(s.ffmpeg_args().unwrap()[2], "150");
}

#[test]
fn failed_profile_moves_down_the_chain() {
    let mut ctx = ProfileContext::default();
    ctx.output_ctx.start_num = 3;
    let mut s = Session::new("f".into(), video_chain(), ctx, 0);
    assert_eq!(s.switch_profile_after_failure().unwrap(), None);
    s.record_exit(true);
    assert_eq!(s.switch_profile_after_failure().unwrap(), None);
    s.record_exit(false);
    assert_eq!(s.switch_profile_after_failure().unwrap(), Some("h264".to_string()));
    assert_eq!(s.start_num(), 3);
    assert!(!s.has_started());
    s.set_child(Some(1));
    s.record_exit(false);
    assert_eq!(s.switch_profile_after_failure(), Err(NightfallError::ProfileChainExhausted));
}

#[test]
fn subtitle_sessions_write_vtt() {
    let mut ctx = ProfileContext::default();
    ctx.output_ctx.outdir = "/s".into();
    let s = Session::new("s".into(), vec![AnyProfile::Webvtt(WebvttTranscodeProfile)], ctx, 0);
    assert_eq!(s.vtt_path(), Some("/s/stream.vtt".to_string()));
    assert_eq!(s.subtitle_path("stream.vtt"), Some("/s/stream.vtt".to_string()));
    assert!(!s.reports_progress());
    assert_eq!(s.current_chunk(&progress(&[("frame", "1000")])), 0);
}

#[test]
fn created_sessions_get_an_id_and_a_directory() {
    let random = [0x12, 0x34, 0x56, 0x78, 0x9a, 0xbc, 0xde, 0xf0, 0xff, 0x01, 0x23, 0x45, 0x67, 0x89, 0xab, 0xcd];
    let (id, s) = create_session("/cache", "/usr/bin/ffmpeg", video_chain(), ProfileContext::default(), 0, random);
    assert_eq!(id, "12345678-9abc-4ef0-bf01-23456789abcd");
    assert_eq!(s.id(), id);
    assert_eq!(s.outdir(), format!("/cache/{}", id));
    assert_eq!(s.ffmpeg_bin(), "/usr/bin/ffmpeg");
    let (zero, _) = create_session("/cache", "ffmpeg", video_chain(), ProfileContext::default(), 0, [0; 16]);
    assert_eq!(zero, "00000000-0000-4000-8000-000000000000");
}

#[test]
fn session_labels() {
    let mut out = OutputCtx::default();
    assert_eq!(session_label("h264", &out), "h264");
    out.bitrate = Some(5000);
    assert_eq!(session_label("h264", &out), "h264@5000");
    out.width = Some(1280);
    assert_eq!(session_label("h264", &out), "h264 (1280x-2@5000)");
    out.height = Some(720);
    out.bitrate = None;
    assert_eq!(session_label("h264", &out), "h264 (1280x720)");
    assert_eq!(chain_label(&video_chain()), "h264_copy -> h264");
    assert_eq!(chain_label(&vec![]), "");
}

#[test]
fn chunk_requests() {
    let stat = StreamStat { hard_seeked_at: 20, last_hard_seek: 100_000 };
    assert_eq!(plan_chunk_request(5, false, 10, 12, 0, &stat, false), ChunkAction::NotReady { hard_seek: true });
    assert_eq!(plan_chunk_request(30, false, 10, 12, 110_000, &stat, false), ChunkAction::NotReady { hard_seek: true });
    assert_eq!(plan_chunk_request(30, false, 10, 12, 115_000, &stat, false), ChunkAction::NotReady { hard_seek: false });
    assert_eq!(plan_chunk_request(20, false, 10, 2, 110_000, &stat, false), ChunkAction::NotReady { hard_seek: false });
    assert_eq!(plan_chunk_request(13, false, 10, 12, 0, &stat, true), ChunkAction::NotReady { hard_seek: true });
    assert_eq!(plan_chunk_request(13, true, 10, 15, 0, &stat, true), ChunkAction::Serve { cont: true });
    assert_eq!(plan_chunk_request(12, true, 10, 15, 0, &stat, true), ChunkAction::Serve { cont: false });
}

#[test]
fn hard_seek_advice() {
    let mut stat = StreamStat::new(0);
    assert_eq!(stat.hard_seeked_at, 0);
    stat.record_hard_seek(40, 50_000);
    assert_eq!((stat.hard_seeked_at, stat.last_hard_seek), (40, 50_000));
    assert!(!should_hard_seek(false, 0, 10, 10, 0, &stat, true));
    assert!(should_hard_seek(true, 9, 10, 10, 0, &stat, false));
    assert!(should_hard_seek(true, 26, 10, 10, 64_999, &stat, false));
    assert!(!should_hard_seek(true, 26, 10, 10, 65_000, &stat, false));
    assert!(!should_hard_seek(true, 25, 10, 10, 0, &stat, false));
    assert!(should_hard_seek(true, 25, 10, 10, 0, &stat, true));
}

#[test]
fn init_requests() {
    assert_eq!(plan_chunk_init(5, true, 0), InitAction { restart: false, cont: false });
    assert_eq!(plan_chunk_init(5, false, 5), InitAction { restart: false, cont: true });
    assert_eq!(plan_chunk_init(5, false, 0), InitAction { restart: true, cont: true });
}

#[test]
fn garbage_collection() {
    let mut s = Session::new("g".into(), video_chain(), ProfileContext::default(), 0);
    s.mark_started();
    s.set_child(Some(9));
    let idle = progress(&[("frame", "0")]);
    let ahead = progress(&[("frame", "2000")]);
    assert_eq!(gc_action(&s, 1_800_001, &idle, false), GcAction::Reap);
    assert_eq!(gc_action(&s, 10, &idle, false), GcAction::Keep);
    assert_eq!(gc_action(&s, 10, &ahead, false), GcAction::Pause);
    assert_eq!(gc_action(&s, 10, &ahead, true), GcAction::Keep);
    s.pause();
    assert_eq!(gc_action(&s, 10, &ahead, false), GcAction::Keep);
    s.set_timeout(5);
    assert_eq!(gc_action(&s, 6, &idle, false), GcAction::Reap);
}

#[test]
fn unbuildable_context_gives_no_arguments() {
    let mut ctx = ProfileContext::default();
    ctx.output_ctx.start_num = u32::MAX;
    let s = Session::new("big".into(), video_chain(), ctx, 0);
    assert_eq!(s.ffmpeg_args(), None);
    assert_eq!(s.last_chunk(), 0);
}

#[test]
fn log_tail_keeps_the_last_thousand_bytes() {
    let short = b"ffmpeg version 6".to_vec();
    assert_eq!(stderr_tail(&short), short);
    let long: Vec<u8> = (0..2500u32).map(|i| (i % 251) as u8).collect();
    let tail = stderr_tail(&long);
    assert_eq!(tail.len(), 1000);
    assert_eq!(tail[..], long[1500..]);
    assert_eq!(stderr_tail(&[]), Vec::<u8>::new());
}

#[test]
fn requests_keep_sessions_alive() {
    let mut s = Session::new("k".into(), video_chain(), ProfileContext::default(), 0);
    s.mark_started();
    s.set_child(Some(3));
    s.reset_timeout(10, 1_000);
    assert_eq!(s.last_chunk(), 10);
    let near = progress(&[("frame", "3000")]);
    let far = progress(&[("frame", "3120")]);
    assert_eq!(gc_action(&s, 1_801_000, &near, false), GcAction::Keep);
    assert_eq!(gc_action(&s, 1_801_000, &far, false), GcAction::Pause);
    assert_eq!(gc_action(&s, 1_801_001, &near, false), GcAction::Reap);
}

#[test]
fn served_chunks_record_the_request() {
    let mut s = Session::new("c".into(), video_chain(), ProfileContext::default(), 0);
    s.mark_started();
    s.set_child(Some(8));
    s.pause();
    let mut stat = StreamStat::new(0);
    let step = begin_chunk_request(&mut s, &mut stat, 3, true, 2, 100, false);
    assert_eq!(step.action, ChunkAction::Serve { cont: true });
    assert_eq!(step.resume, Some(8));
    assert!(!s.paused());
    let path = finish_chunk_request(&mut s, 3, Some(17), 500);
    assert_eq!(path, "/3.m4s");
    assert_eq!(s.last_chunk(), 3);
    assert_eq!(s.real_segment(), 17);
    assert!(!s.is_hard_timeout(1_800_500));
    assert!(s.is_hard_timeout(1_800_501));
    finish_chunk_request(&mut s, 4, None, 600);
    assert_eq!(s.real_segment(), 17);
}

#[test]
fn far_requests_restart_the_stream() {
    let mut s = Session::new("c".into(), video_chain(), ProfileContext::default(), 0);
    s.mark_started();
    s.set_child(Some(8));
    let mut stat = StreamStat::new(0);
    let step = begin_chunk_request(&mut s, &mut stat, 90, false, 10, 100, true);
    assert_eq!(step.action, ChunkAction::NotReady { hard_seek: true });
    assert_eq!(step.resume, None);
    assert_eq!(s.start_num(), 90);
    assert!(!s.has_started());
    assert_eq!(stat.hard_seeked_at, 90);
    assert_eq!(stat.last_hard_seek, 100);
    let step = begin_chunk_request(&mut s, &mut stat, 91, false, 90, 200, false);
    assert_eq!(step.action, ChunkAction::NotReady { hard_seek: false });
    assert_eq!(s.start_num(), 90);
}

#[test]
fn init_requests_restart_or_fail_over() {
    let mut s = Session::new("i".into(), video_chain(), ProfileContext::default(), 0);
    let mut stat = StreamStat::new(0);
    let step = begin_init_request(&mut s, &mut stat, 12, false, 50).unwrap();
    assert_eq!(step.action, InitAction { restart: true, cont: true });
    assert_eq!(s.start_num(), 12);
    assert_eq!(stat.hard_seeked_at, 12);
    assert_eq!(finish_init_request(&s, true), Ok("/12_init.mp4".to_string()));
    assert_eq!(finish_init_request(&s, false), Err(NightfallError::ChunkNotDone));

    s.record_exit(false);
    let step = begin_init_request(&mut s, &mut stat, 12, true, 60).unwrap();
    assert_eq!(step.next_profile, Some("h264".to_string()));
    assert_eq!(step.action, InitAction { restart: false, cont: false });
    s.record_exit(false);
    assert!(matches!(begin_init_request(&mut s, &mut stat, 12, true, 70), Err(NightfallError::ProfileChainExhausted)));
}

#[test]
fn video_chunks_must_fit_in_32_bits() {
    let mut ctx = ProfileContext::default();
    ctx.output_ctx.start_num = u32::MAX - 1;
    let s = Session::new("v".into(), video_chain(), ctx, 0);
    assert!(s.current_chunk_in_range(&progress(&[("frame", "119")])));
    assert!(s.current_chunk_in_range(&progress(&[("frame", "239")])));
    assert!(!s.current_chunk_in_range(&progress(&[("frame", "240")])));
    let a = Session::new("a".into(), vec![AnyProfile::Aac(AacTranscodeProfile)], ProfileContext::default(), 0);
    assert!(a.current_chunk_in_range(&progress(&[("out_time_us", "999999999999")])));
}
