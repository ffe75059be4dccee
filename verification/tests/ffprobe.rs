use nightfall::error::NightfallError;
use nightfall::ffprobe::{FFPStream, FFPWrapper, FFProbeCtx, Format, Stream};

#[test]
fn probe_arguments_ask_for_json() {
    let ctx = FFProbeCtx::new("/usr/bin/ffprobe");
    assert_eq!(ctx.ffprobe_bin(), "/usr/bin/ffprobe");
    assert_eq!(
        ctx.probe_args("movie.mkv"),
        vec!["movie.mkv", "-v", "quiet", "-print_format", "json", "-show_streams", "-show_format"]
    );
}

#[test]
fn unreadable_report_means_corrupt_file() {
    let w = FFPWrapper::from_probe(None);
    assert_eq!(w.corrupt(), Some(true));
    assert!(w.stream().is_none());

    let stream = Stream { index: 0, codec_name: "h264".into(), ..Default::default() };
    let format = Format { nb_streams: 1, ..Default::default() };
    let w = FFPWrapper::from_probe(Some(FFPStream::new(vec![stream.clone()], format.clone())));
    assert_eq!(w.corrupt(), None);
    let s = w.stream().unwrap();
    assert_eq!(s.streams(), &vec![stream]);
    assert_eq!(s.format(), &format);
}

#[test]
fn errors_describe_themselves() {
    assert_eq!(NightfallError::SessionDoesntExist.message(), "The requested session doesnt exist");
    assert_eq!(NightfallError::ChunkNotDone.message(), "Chunk requested is not ready yet");
    assert_eq!(NightfallError::Aborted.message(), "Request aborted");
    assert_eq!(NightfallError::SessionManagerDied.message(), "Session manager died");
    assert_eq!(
        NightfallError::SegmentPatchError("bad box".into()).message(),
        "Failed to patch segment bad box"
    );
    assert_eq!(NightfallError::IoError.message(), "Io Error");
    assert_eq!(NightfallError::MissingSegmentBox.message(), "Box missing in segment.");
    assert_eq!(NightfallError::ProfileNotSupported("why".into()).message(), "why");
}
