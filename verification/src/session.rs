//! The state of one streaming session: which profile runs, from which chunk on, and
//! whether the ffmpeg process should be paused or restarted.
use vstd::prelude::*;

use crate::error::NightfallError;
use crate::profiles::{AnyProfile, ContextView, ProfileContext, StreamType, TranscodingProfile};
use crate::progress::ProgressMap;
use crate::text::{concat2, dec, parse_u64, parse_u64_spec, u64_to_text};

verus! {

/// Length of a chunk in seconds.
pub const CHUNK_SIZE: u32 = 5;

/// How many chunks ffmpeg may run ahead of the last request before the stream is paused.
pub const MAX_CHUNKS_AHEAD: u32 = 15;

/// How long a session lives without requests, in milliseconds.
pub const HARD_TIMEOUT_MS: u64 = 1_800_000;

/// The mathematical value of a session.
pub struct SessionView {
    pub id: Seq<char>,
    pub paused: bool,
    pub chain: Seq<AnyProfile>,
    pub current: nat,
    pub ctx: ContextView,
    pub has_started: bool,
    pub last_chunk: u32,
    pub hard_timeout: u64,
    pub child_pid: Option<u32>,
    pub real_segment: u32,
    pub exit_status: Option<bool>,
}

/// The number that ffmpeg reported for `key`, or zero when it reported none or garbage.
pub open spec fn progress_number(m: Map<Seq<char>, Seq<char>>, key: Seq<char>) -> nat {
    if m.dom().contains(key) {
        match parse_u64_spec(m[key]) {
            Some(n) => n as nat,
            None => 0,
        }
    } else {
        0
    }
}

/// The chunk ffmpeg is working on: for audio, the chunk of the reported time, never less
/// than the last requested chunk; for video, the chunk of the reported frame counted from
/// the first chunk of the stream; for other streams, zero.
pub open spec fn current_chunk_spec(s: SessionView, m: Map<Seq<char>, Seq<char>>) -> int {
    match s.chain[s.current as int].produces() {
        StreamType::Audio => {
            let frame = (progress_number(m, "out_time_us"@) / 1000 / 1000 * 24) % 0x1_0000_0000;
            let chunk = frame / 120;
            if chunk >= s.last_chunk { chunk as int } else { s.last_chunk as int }
        },
        StreamType::Video => {
            let frame = progress_number(m, "frame"@) % 0x1_0000_0000;
            frame / 120 + s.ctx.output.start_num
        },
        StreamType::Subtitle => 0,
    }
}

/// Whether the chunk of a video stream, the reported frame's chunk counted from the first
/// chunk of the stream, fits in 32 bits; other streams add nothing.
pub open spec fn chunk_in_range(s: SessionView, m: Map<Seq<char>, Seq<char>>) -> bool {
    s.chain[s.current as int].produces() == StreamType::Video ==> (progress_number(m, "frame"@) % 0x1_0000_0000)
        / 120 + s.ctx.output.start_num <= u32::MAX
}

/// The session state after `reset_to(chunk)`.
pub open spec fn reset_spec(s: SessionView, chunk: u32) -> SessionView {
    SessionView {
        ctx: ContextView { output: crate::profiles::OutputView { start_num: chunk, ..s.ctx.output }, ..s.ctx },
        last_chunk: chunk,
        has_started: false,
        paused: true,
        real_segment: chunk,
        child_pid: None,
        ..s
    }
}

/// The session state after a request for `last_requested` at `now`: the request is
/// remembered and the session lives for another `HARD_TIMEOUT_MS` milliseconds.
pub open spec fn reset_timeout_spec(s: SessionView, last_requested: u32, now: u64) -> SessionView {
    SessionView { last_chunk: last_requested, hard_timeout: (now + HARD_TIMEOUT_MS) as u64, ..s }
}

/// The session state after `pause`: a running process is marked paused.
pub open spec fn pause_spec(s: SessionView) -> SessionView {
    if s.child_pid is Some && !s.paused {
        SessionView { paused: true, ..s }
    } else {
        s
    }
}

/// The session state after `cont`: a paused process is marked running.
pub open spec fn cont_spec(s: SessionView) -> SessionView {
    if s.child_pid is Some && s.paused {
        SessionView { paused: false, ..s }
    } else {
        s
    }
}

/// Pausing and then continuing a running stream gives back the state before; pausing or
/// continuing twice is the same as once.
pub proof fn lemma_pause_cont(s: SessionView)
    ensures
        s.child_pid is Some && !s.paused ==> cont_spec(pause_spec(s)) == s,
        s.child_pid is Some && s.paused ==> pause_spec(cont_spec(s)) == s,
        pause_spec(pause_spec(s)) == pause_spec(s),
        cont_spec(cont_spec(s)) == cont_spec(s),
        s.child_pid is None ==> pause_spec(s) == s && cont_spec(s) == s,
{
}

/// A streaming session.
pub struct Session {
    id: String,
    paused: bool,
    profile_chain: Vec<AnyProfile>,
    current: usize,
    profile_ctx: ProfileContext,
    has_started: bool,
    last_chunk: u32,
    hard_timeout: u64,
    child_pid: Option<u32>,
    real_segment: u32,
    exit_status: Option<bool>,
}

impl View for Session {
    type V = SessionView;

    closed spec fn view(&self) -> SessionView {
        SessionView {
            id: self.id@,
            paused: self.paused,
            chain: self.profile_chain@,
            current: self.current as nat,
            ctx: self.profile_ctx@,
            has_started: self.has_started,
            last_chunk: self.last_chunk,
            hard_timeout: self.hard_timeout,
            child_pid: self.child_pid,
            real_segment: self.real_segment,
            exit_status: self.exit_status,
        }
    }
}

impl Session {
    /// The chain always has a current profile.
    #[verifier::type_invariant]
    closed spec fn chain_wf(self) -> bool {
        self.current < self.profile_chain@.len()
    }

    /// The identifier of the session.
    pub fn id(&self) -> (r: &str)
        ensures
            r@ == self@.id,
    {
        self.id.as_str()
    }

    /// Whether the stream is paused.
    pub fn paused(&self) -> (r: bool)
        ensures
            r == self@.paused,
    {
        self.paused
    }

    /// The number of the next segment that patching gives out.
    pub fn real_segment(&self) -> (r: u32)
        ensures
            r == self@.real_segment,
    {
        self.real_segment
    }

    /// Records the number of the next segment that patching gives out.
    pub fn set_real_segment(&mut self, seq: u32)
        ensures
            final(self)@ == (SessionView { real_segment: seq, ..old(self)@ }),
    {
        proof { use_type_invariant(&*self); }
        self.real_segment = seq;
    }

    /// How the process of the stream exited, if it did.
    pub fn exit_status(&self) -> (r: Option<bool>)
        ensures
            r == self@.exit_status,
    {
        self.exit_status
    }

    /// A session that has not started yet, using the first profile of `profile_chain`.
    pub fn new(id: String, profile_chain: Vec<AnyProfile>, profile_ctx: ProfileContext, now: u64) -> (r: Self)
        requires
            profile_chain@.len() > 0,
            now + HARD_TIMEOUT_MS <= u64::MAX,
        ensures
            r@ == (SessionView {
                id: id@,
                paused: false,
                chain: profile_chain@,
                current: 0,
                ctx: profile_ctx@,
                has_started: false,
                last_chunk: 0,
                hard_timeout: (now + HARD_TIMEOUT_MS) as u64,
                child_pid: None,
                real_segment: profile_ctx.output_ctx.start_num,
                exit_status: None,
            }),
    {
        let real_segment = profile_ctx.output_ctx.start_num;
        Session {
            id,
            paused: false,
            profile_chain,
            current: 0,
            profile_ctx,
            has_started: false,
            last_chunk: 0,
            hard_timeout: now + HARD_TIMEOUT_MS,
            child_pid: None,
            real_segment,
            exit_status: None,
        }
    }

    /// The profile in use.
    pub fn profile(&self) -> (r: &AnyProfile)
        ensures
            *r == self@.chain[self@.current as int],
    {
        proof { use_type_invariant(self); }
        &self.profile_chain[self.current]
    }

    /// Moves on to the next profile of the chain and returns its tag, or returns `None`
    /// and stays when the chain is exhausted.
    pub fn next_profile(&mut self) -> (r: Option<String>)
        ensures
            old(self)@.current + 1 < old(self)@.chain.len() ==> {
                &&& final(self)@ == SessionView { current: old(self)@.current + 1, ..old(self)@ }
                &&& r matches Some(t) && t@ == old(self)@.chain[old(self)@.current + 1int].tag_spec()
            },
            old(self)@.current + 1 >= old(self)@.chain.len() ==> final(self)@ == old(self)@ && r is None,
    {
        proof { use_type_invariant(&*self); }
        if self.current < self.profile_chain.len() - 1 {
            self.current = self.current + 1;
            let t = String::from_str(self.profile_chain[self.current].tag());
            Some(t)
        } else {
            None
        }
    }

    /// The number of the first chunk of the running stream.
    pub fn start_num(&self) -> (r: u32)
        ensures
            r == self@.ctx.output.start_num,
    {
        self.profile_ctx.output_ctx.start_num
    }

    /// Whether ffmpeg has been started for the current chunk range.
    pub fn has_started(&self) -> (r: bool)
        ensures
            r == self@.has_started,
    {
        self.has_started
    }

    /// The process that runs the stream, if one runs.
    pub fn child_pid(&self) -> (r: Option<u32>)
        ensures
            r == self@.child_pid,
    {
        self.child_pid
    }

    /// The ffmpeg arguments for the current profile and context, or `None` when the profile
    /// cannot be used for the context.
    pub fn ffmpeg_args(&self) -> (r: Option<Vec<String>>)
        ensures
            ({
                let p = self@.chain[self@.current as int];
                &&& p.supports_spec(self@.ctx) && p.buildable(self@.ctx) ==> (r matches Some(args)
                    && args.deep_view() == p.args_spec(self@.ctx))
                &&& !(p.supports_spec(self@.ctx) && p.buildable(self@.ctx)) ==> r is None
            }),
    {
        proof { use_type_invariant(self); }
        self.profile_chain[self.current].build(self.profile_ctx.duplicate())
    }

    /// The last chunk that was requested.
    pub fn last_chunk(&self) -> (r: u32)
        ensures
            r == self@.last_chunk,
    {
        self.last_chunk
    }

    /// The ffmpeg binary to run.
    pub fn ffmpeg_bin(&self) -> (r: &str)
        ensures
            r@ == self@.ctx.ffmpeg_bin,
    {
        self.profile_ctx.ffmpeg_bin.as_str()
    }

    /// The directory that holds the stream's files.
    pub fn outdir(&self) -> (r: &str)
        ensures
            r@ == self@.ctx.output.outdir,
    {
        self.profile_ctx.output_ctx.outdir.as_str()
    }

    /// Where ffmpeg's log goes.
    pub fn log_path(&self) -> (r: String)
        ensures
            r@ == self@.ctx.output.outdir + "/ffmpeg.log"@,
    {
        concat2(self.profile_ctx.output_ctx.outdir.as_str(), "/ffmpeg.log")
    }

    /// Where a subtitle stream is written, when the profile produces one.
    pub fn vtt_path(&self) -> (r: Option<String>)
        ensures
            match r {
                Some(p) => self@.chain[self@.current as int].produces() == StreamType::Subtitle && p@
                    == self@.ctx.output.outdir + "/stream.vtt"@,
                None => self@.chain[self@.current as int].produces() != StreamType::Subtitle,
            },
    {
        if self.profile().stream_type() == StreamType::Subtitle {
            Some(concat2(self.profile_ctx.output_ctx.outdir.as_str(), "/stream.vtt"))
        } else {
            None
        }
    }

    /// Whether ffmpeg reports progress on stdout that should be parsed.
    pub fn reports_progress(&self) -> (r: bool)
        ensures
            r == !self@.chain[self@.current as int].stdio_spec(),
    {
        !self.profile().is_stdio_stream()
    }

    /// Records that the stream is being started.
    pub fn mark_started(&mut self)
        ensures
            final(self)@ == (SessionView { has_started: true, paused: false, ..old(self)@ }),
    {
        proof { use_type_invariant(&*self); }
        self.has_started = true;
        self.paused = false;
    }

    /// Records the process that was spawned for the stream; a new process has not exited.
    pub fn set_child(&mut self, pid: Option<u32>)
        ensures
            final(self)@ == (SessionView { child_pid: pid, exit_status: None, ..old(self)@ }),
    {
        proof { use_type_invariant(&*self); }
        self.child_pid = pid;
        self.exit_status = None;
    }

    /// Records how the process exited.
    pub fn record_exit(&mut self, success: bool)
        ensures
            final(self)@ == (SessionView { exit_status: Some(success), ..old(self)@ }),
    {
        proof { use_type_invariant(&*self); }
        self.exit_status = Some(success);
    }

    /// After ffmpeg failed, moves on to the next profile and restarts from the first chunk of
    /// the stream; fails when no profile is left. Returns the tag of the new profile.
    pub fn switch_profile_after_failure(&mut self) -> (r: Result<Option<String>, NightfallError>)
        ensures
            !(old(self)@.exit_status == Some(false)) ==> final(self)@ == old(self)@ && r == Ok::<
                Option<String>,
                NightfallError,
            >(None),
            old(self)@.exit_status == Some(false) && old(self)@.current + 1 < old(self)@.chain.len() ==> {
                &&& final(self)@ == reset_spec(
                    SessionView { current: old(self)@.current + 1, ..old(self)@ },
                    old(self)@.ctx.output.start_num,
                )
                &&& r matches Ok(Some(t)) && t@ == old(self)@.chain[old(self)@.current + 1int].tag_spec()
            },
            old(self)@.exit_status == Some(false) && old(self)@.current + 1 >= old(self)@.chain.len() ==> {
                &&& final(self)@ == old(self)@
                &&& r == Err::<Option<String>, NightfallError>(NightfallError::ProfileChainExhausted)
            },
    {
        proof { use_type_invariant(&*self); }
        match self.exit_status {
            Some(false) => {
                match self.next_profile() {
                    Some(t) => {
                        let start = self.start_num();
                        self.reset_to(start);
                        Ok(Some(t))
                    },
                    None => Err(NightfallError::ProfileChainExhausted),
                }
            },
            _ => Ok(None),
        }
    }

    /// Whether the session has gone without requests for too long.
    pub fn is_hard_timeout(&self, now: u64) -> (r: bool)
        ensures
            r == (now > self@.hard_timeout),
    {
        now > self.hard_timeout
    }

    /// Makes the session time out at once.
    pub fn set_timeout(&mut self, now: u64)
        ensures
            final(self)@ == (SessionView { hard_timeout: now, ..old(self)@ }),
    {
        proof { use_type_invariant(&*self); }
        self.hard_timeout = now;
    }

    /// Pauses the stream; returns the process to stop when one runs and is not paused.
    pub fn pause(&mut self) -> (r: Option<u32>)
        ensures
            final(self)@ == pause_spec(old(self)@),
            old(self)@.child_pid is Some && !old(self)@.paused ==> r == old(self)@.child_pid,
            !(old(self)@.child_pid is Some && !old(self)@.paused) ==> r is None,
    {
        proof { use_type_invariant(&*self); }
        match self.child_pid {
            Some(x) => {
                if !self.paused {
                    self.paused = true;
                    Some(x)
                } else {
                    None
                }
            },
            None => None,
        }
    }

    /// Continues the stream; returns the process to continue when one runs and is paused.
    pub fn cont(&mut self) -> (r: Option<u32>)
        ensures
            final(self)@ == cont_spec(old(self)@),
            old(self)@.child_pid is Some && old(self)@.paused ==> r == old(self)@.child_pid,
            !(old(self)@.child_pid is Some && old(self)@.paused) ==> r is None,
    {
        proof { use_type_invariant(&*self); }
        match self.child_pid {
            Some(x) => {
                if self.paused {
                    self.paused = false;
                    Some(x)
                } else {
                    None
                }
            },
            None => None,
        }
    }

    /// Whether the chunk ffmpeg is working on can be counted in 32 bits.
    pub fn current_chunk_in_range(&self, progress: &ProgressMap) -> (r: bool)
        ensures
            r == chunk_in_range(self@, progress.as_map()),
    {
        proof { use_type_invariant(self); }
        match self.profile().stream_type() {
            StreamType::Video => {
                let f = read_number(progress, "frame");
                assert((f as u32) == f % 0x1_0000_0000) by (bit_vector);
                let frame = f as u32;
                frame / (CHUNK_SIZE * 24) <= u32::MAX - self.profile_ctx.output_ctx.start_num
            },
            _ => true,
        }
    }

    /// The chunk ffmpeg is working on, from its progress report.
    pub fn current_chunk(&self, progress: &ProgressMap) -> (r: u32)
        requires
            chunk_in_range(self@, progress.as_map()),
        ensures
            r == current_chunk_spec(self@, progress.as_map()),
    {
        proof { use_type_invariant(self); }
        match self.profile().stream_type() {
            StreamType::Audio => {
                let t = read_number(progress, "out_time_us");
                let wide: u64 = t / 1000 / 1000 * 24;
                assert((wide as u32) == wide % 0x1_0000_0000) by (bit_vector);
                let frame = wide as u32;
                let chunk = frame / (CHUNK_SIZE * 24);
                if chunk >= self.last_chunk {
                    chunk
                } else {
                    self.last_chunk
                }
            },
            StreamType::Video => {
                let f = read_number(progress, "frame");
                assert((f as u32) == f % 0x1_0000_0000) by (bit_vector);
                let frame = f as u32;
                frame / (CHUNK_SIZE * 24) + self.profile_ctx.output_ctx.start_num
            },
            StreamType::Subtitle => 0,
        }
    }

    /// Whether ffmpeg ran more than `MAX_CHUNKS_AHEAD` chunks ahead of the last request.
    pub fn is_timeout(&self, progress: &ProgressMap) -> (r: bool)
        requires
            chunk_in_range(self@, progress.as_map()),
            self@.last_chunk + MAX_CHUNKS_AHEAD <= u32::MAX,
        ensures
            r == (current_chunk_spec(self@, progress.as_map()) > self@.last_chunk + MAX_CHUNKS_AHEAD),
    {
        self.current_chunk(progress) > self.last_chunk + MAX_CHUNKS_AHEAD
    }

    /// Records a request for `last_requested` and extends the session's life.
    pub fn reset_timeout(&mut self, last_requested: u32, now: u64)
        requires
            now + HARD_TIMEOUT_MS <= u64::MAX,
        ensures
            final(self)@ == reset_timeout_spec(old(self)@, last_requested, now),
    {
        proof { use_type_invariant(&*self); }
        self.last_chunk = last_requested;
        self.hard_timeout = now + HARD_TIMEOUT_MS;
    }

    /// The path of chunk `chunk_num`.
    pub fn chunk_to_path(&self, chunk_num: u32) -> (r: String)
        ensures
            r@ == self@.ctx.output.outdir + "/"@ + dec(chunk_num as nat) + ".m4s"@,
    {
        let n = u64_to_text(chunk_num as u64);
        let mut r = concat2(self.profile_ctx.output_ctx.outdir.as_str(), "/");
        r.append(n.as_str());
        r.append(".m4s");
        r
    }

    /// The path of the initialisation segment of the running stream.
    pub fn init_seg(&self) -> (r: String)
        ensures
            r@ == self@.ctx.output.outdir + "/"@ + dec(self@.ctx.output.start_num as nat) + "_init.mp4"@,
    {
        let n = u64_to_text(self.start_num() as u64);
        let mut r = concat2(self.profile_ctx.output_ctx.outdir.as_str(), "/");
        r.append(n.as_str());
        r.append("_init.mp4");
        r
    }

    /// The path of the subtitle file `file`, for a subtitle stream.
    pub fn subtitle_path(&self, file: &str) -> (r: Option<String>)
        ensures
            match r {
                Some(p) => self@.chain[self@.current as int].produces() == StreamType::Subtitle && p@
                    == self@.ctx.output.outdir + "/"@ + file@,
                None => self@.chain[self@.current as int].produces() != StreamType::Subtitle,
            },
    {
        if self.profile().stream_type() != StreamType::Subtitle {
            return None;
        }
        let mut r = concat2(self.profile_ctx.output_ctx.outdir.as_str(), "/");
        r.append(file);
        Some(r)
    }

    /// Restarts the stream at `chunk`: the stream is stopped and starts again from there.
    pub fn reset_to(&mut self, chunk: u32)
        ensures
            final(self)@ == reset_spec(old(self)@, chunk),
    {
        proof { use_type_invariant(&*self); }
        self.profile_ctx.output_ctx.start_num = chunk;
        self.last_chunk = chunk;
        self.has_started = false;
        self.paused = true;
        self.real_segment = chunk;
        self.child_pid = None;
    }
}

/// The number ffmpeg reported for `key`, or zero.
fn read_number(progress: &ProgressMap, key: &str) -> (r: u64)
    ensures
        r == progress_number(progress.as_map(), key@),
{
    match progress.get(key) {
        Some(v) => match parse_u64(v.as_str()) {
            Some(n) => n,
            None => 0,
        },
        None => 0,
    }
}

/// How many bytes of ffmpeg's log are handed out.
pub const LOG_TAIL_BYTES: usize = 1000;

/// The end of a log: all of it when it is short, else its last `LOG_TAIL_BYTES` bytes.
pub open spec fn log_tail_spec(log: Seq<u8>) -> Seq<u8> {
    if log.len() <= LOG_TAIL_BYTES {
        log
    } else {
        log.skip(log.len() - LOG_TAIL_BYTES)
    }
}

/// The end of ffmpeg's log that is shown to users.
pub fn stderr_tail(log: &[u8]) -> (r: Vec<u8>)
    ensures
        r@ == log_tail_spec(log@),
{
    let len = log.len();
    let start: usize = if len <= LOG_TAIL_BYTES { 0 } else { len - LOG_TAIL_BYTES };
    let mut r: Vec<u8> = Vec::new();
    let mut i: usize = start;
    while i < len
        invariant
            start <= i <= len,
            len == log@.len(),
            r@ == log@.subrange(start as int, i as int),
        decreases len - i,
    {
        r.push(log[i]);
        i = i + 1;
        assert(r@ =~= log@.subrange(start as int, i as int));
    }
    assert(log@.subrange(start as int, len as int) =~= log_tail_spec(log@));
    r
}

/// After a reset to `chunk`, the stream is stopped and will start from `chunk`: its first
/// chunk and last requested chunk are `chunk`, and the initialisation segment is that of `chunk`.
pub proof fn lemma_reset_restarts_at(s: SessionView, chunk: u32)
    ensures
        reset_spec(s, chunk).ctx.output.start_num == chunk,
        reset_spec(s, chunk).last_chunk == chunk,
        reset_spec(s, chunk).real_segment == chunk,
        !reset_spec(s, chunk).has_started,
        reset_spec(s, chunk).child_pid is None,
        reset_spec(s, chunk).chain == s.chain && reset_spec(s, chunk).current == s.current,
        reset_spec(s, chunk).ctx.output.outdir == s.ctx.output.outdir,
        reset_spec(reset_spec(s, chunk), chunk) == reset_spec(s, chunk),
{
}

} // verus!
