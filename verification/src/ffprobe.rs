//! What ffprobe reports about a media file.
use vstd::prelude::*;

use crate::profiles::video::new_args;
use crate::text::push_text;

verus! {

/// The result of probing a file: its streams and format, or the mark that the file is corrupt.
#[derive(Default, Debug, Clone, PartialEq)]
pub struct FFPWrapper {
    ffpstream: Option<FFPStream>,
    corrupt: Option<bool>,
}

/// The streams and the container format of a file.
#[derive(Default, Debug, Clone, PartialEq)]
pub struct FFPStream {
    streams: Vec<Stream>,
    format: Format,
}

/// One stream of a file.
#[derive(Default, Debug, Clone, PartialEq)]
pub struct Stream {
    pub index: i64,
    pub codec_name: String,
    pub codec_long_name: String,
    pub profile: Option<String>,
    pub codec_type: String,
    pub codec_time_base: Option<String>,
    pub width: Option<i64>,
    pub height: Option<i64>,
    pub coded_width: Option<i64>,
    pub coded_height: Option<i64>,
    pub display_aspect_ratio: Option<String>,
    pub is_avc: Option<String>,
    pub tags: Option<Tags>,
    pub sample_rate: Option<String>,
    pub channels: Option<i64>,
    pub channel_layout: Option<String>,
    pub bit_rate: Option<String>,
    pub duration_ts: Option<i64>,
    pub duration: Option<String>,
    pub color_range: Option<String>,
    pub color_space: Option<String>,
}

/// The tags of a stream.
#[derive(Default, Debug, Clone, PartialEq)]
pub struct Tags {
    pub language: Option<String>,
    pub title: Option<String>,
    pub bps_eng: Option<String>,
    pub duration_eng: Option<String>,
    pub number_of_frames_eng: Option<String>,
    pub number_of_bytes_eng: Option<String>,
    pub statistics_writing_app_eng: Option<String>,
    pub statistics_writing_date_utc_eng: Option<String>,
    pub statistics_tags_eng: Option<String>,
    pub filename: Option<String>,
    pub mimetype: Option<String>,
}

/// The container format of a file.
#[derive(Default, Debug, Clone, PartialEq)]
pub struct Format {
    pub filename: String,
    pub nb_streams: i64,
    pub nb_programs: i64,
    pub format_name: String,
    pub format_long_name: String,
    pub start_time: String,
    pub duration: String,
    pub size: String,
    pub bit_rate: String,
}

impl FFPStream {
    /// The streams and format that ffprobe reported.
    pub fn new(streams: Vec<Stream>, format: Format) -> (r: Self)
        ensures
            r.streams_spec() == streams@,
            r.format_spec() == format,
    {
        FFPStream { streams, format }
    }

    /// The streams.
    pub closed spec fn streams_spec(&self) -> Seq<Stream> {
        self.streams@
    }

    /// The format.
    pub closed spec fn format_spec(&self) -> Format {
        self.format
    }

    /// The streams.
    pub fn streams(&self) -> (r: &Vec<Stream>)
        ensures
            r@ == self.streams_spec(),
    {
        &self.streams
    }

    /// The format.
    pub fn format(&self) -> (r: &Format)
        ensures
            *r == self.format_spec(),
    {
        &self.format
    }
}

impl FFPWrapper {
    /// What was read from ffprobe's report, if it could be read.
    pub closed spec fn stream_spec(&self) -> Option<FFPStream> {
        self.ffpstream
    }

    /// Whether the file was found corrupt.
    pub closed spec fn corrupt_spec(&self) -> Option<bool> {
        self.corrupt
    }

    /// The result of a probe: the report when it could be read, else a corrupt file.
    pub fn from_probe(parsed: Option<FFPStream>) -> (r: Self)
        ensures
            match parsed {
                Some(s) => r.stream_spec() == Some(s) && r.corrupt_spec() == None::<bool>,
                None => r.stream_spec() == None::<FFPStream> && r.corrupt_spec() == Some(true),
            },
    {
        match parsed {
            Some(x) => FFPWrapper { ffpstream: Some(x), corrupt: None },
            None => FFPWrapper { ffpstream: None, corrupt: Some(true) },
        }
    }

    /// The report, when it could be read.
    pub fn stream(&self) -> (r: Option<&FFPStream>)
        ensures
            match self.stream_spec() {
                Some(s) => r == Some(&s),
                None => r is None,
            },
    {
        match &self.ffpstream {
            Some(s) => Some(s),
            None => None,
        }
    }

    /// Whether the file was found corrupt.
    pub fn corrupt(&self) -> (r: Option<bool>)
        ensures
            r == self.corrupt_spec(),
    {
        self.corrupt
    }
}

/// Runs ffprobe on media files.
pub struct FFProbeCtx {
    ffprobe_bin: String,
}

/// The arguments that make ffprobe report the streams and format of `file` as JSON.
pub open spec fn probe_args_spec(file: Seq<char>) -> Seq<Seq<char>> {
    seq![file, "-v"@, "quiet"@, "-print_format"@, "json"@, "-show_streams"@, "-show_format"@]
}

impl FFProbeCtx {
    /// A context that runs the ffprobe binary at `ffprobe_bin`.
    pub fn new(ffprobe_bin: &str) -> (r: Self)
        ensures
            r.bin_spec() == ffprobe_bin@,
    {
        FFProbeCtx { ffprobe_bin: String::from_str(ffprobe_bin) }
    }

    /// The ffprobe binary.
    pub closed spec fn bin_spec(&self) -> Seq<char> {
        self.ffprobe_bin@
    }

    /// The ffprobe binary.
    pub fn ffprobe_bin(&self) -> (r: &str)
        ensures
            r@ == self.bin_spec(),
    {
        self.ffprobe_bin.as_str()
    }

    /// The arguments for probing `file`.
    pub fn probe_args(&self, file: &str) -> (r: Vec<String>)
        ensures
            r.deep_view() == probe_args_spec(file@),
    {
        let mut r = new_args();
        push_text(&mut r, file);
        push_text(&mut r, "-v");
        push_text(&mut r, "quiet");
        push_text(&mut r, "-print_format");
        push_text(&mut r, "json");
        push_text(&mut r, "-show_streams");
        push_text(&mut r, "-show_format");
        assert(r.deep_view() =~= probe_args_spec(file@));
        r
    }
}

} // verus!
