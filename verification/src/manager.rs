//! The decisions of the session manager: creating sessions, when to restart ffmpeg at a
//! requested chunk, and which sessions to pause or reap.
use vstd::prelude::*;

use crate::profiles::{AnyProfile, ContextView, OutputCtx, OutputView, ProfileContext, TranscodingProfile};
use crate::progress::ProgressMap;
use crate::session::{
    chunk_in_range, cont_spec, current_chunk_spec, reset_spec, reset_timeout_spec, Session, SessionView, HARD_TIMEOUT_MS, MAX_CHUNKS_AHEAD,
};
use crate::error::NightfallError;
use crate::text::{concat2, dec, i64_to_text, int_text, u64_to_text};

verus! {

/// How far ahead of ffmpeg a request may be right after a hard seek before it forces another.
pub const SEEK_AHEAD_CHUNKS: u32 = 15;

/// How long after a hard seek far requests are answered by hard seeking, in milliseconds.
pub const SEEK_GRACE_MS: u64 = 15_000;

/// Whether `c` is a lower case hexadecimal digit.
pub open spec fn is_lower_hex(c: char) -> bool {
    ('0' <= c && c <= '9') || ('a' <= c && c <= 'f')
}

/// A random (version 4) UUID in lower case hyphenated form.
pub open spec fn is_hyphenated_uuid(s: Seq<char>) -> bool {
    &&& s.len() == 36
    &&& forall|i: int|
        0 <= i < 36 ==> if i == 8 || i == 13 || i == 18 || i == 23 {
            s[i] == '-'
        } else {
            is_lower_hex(#[trigger] s[i])
        }
    &&& s[14] == '4'
    &&& (s[19] == '8' || s[19] == '9' || s[19] == 'a' || s[19] == 'b')
}

/// The value of a hexadecimal digit written in lower case.
pub open spec fn hex_digit(d: int) -> char {
    if d < 10 {
        (d + 48) as char
    } else {
        (d + 87) as char
    }
}

/// The `n`-th four bit half of the bytes `b`, high half first.
pub open spec fn uuid_nibble(b: Seq<u8>, n: int) -> int {
    if n % 2 == 0 {
        b[n / 2] as int / 16
    } else {
        b[n / 2] as int % 16
    }
}

/// How many hyphens come before position `i` of a hyphenated UUID.
pub open spec fn hyphens_before(i: int) -> int {
    if i < 8 {
        0
    } else if i < 13 {
        1
    } else if i < 18 {
        2
    } else if i < 23 {
        3
    } else {
        4
    }
}

/// The hyphenated lower case text of the 16 bytes `b`: two hex digits per byte, in groups
/// of 4, 2, 2, 2 and 6 bytes separated by hyphens.
pub open spec fn uuid_text(b: Seq<u8>) -> Seq<char> {
    Seq::new(
        36,
        |i: int|
            if i == 8 || i == 13 || i == 18 || i == 23 {
                '-'
            } else {
                hex_digit(uuid_nibble(b, i - hyphens_before(i)))
            },
    )
}

/// The bytes of a random (version 4, RFC 4122 variant) UUID made from the bytes `b`: the
/// high half of byte 6 becomes 4 and the two high bits of byte 8 become `10`.
pub open spec fn v4_bytes(b: Seq<u8>) -> Seq<u8> {
    b.update(6, (b[6] % 16 + 64) as u8).update(8, (b[8] % 64 + 128) as u8)
}

/// Formats the random bytes `bytes` as a version 4 UUID.
///
/// Calls uuid's `Builder::from_bytes`, `set_variant(Variant::RFC4122)`,
/// `set_version(Version::Random)` and `build`, and writes the result with `to_hyphenated`.
/// The contract states what uuid's source does: `set_version` sets byte 6 to
/// `(b & 0x0f) | 0x40`, `set_variant` sets byte 8 to `(b & 0x3f) | 0x80`, and the hyphenated
/// form writes each byte as two lower case hex digits with hyphens after bytes 4, 6, 8
/// and 10.
#[verifier::external_body]
fn hyphenated_uuid(bytes: [u8; 16]) -> (r: String)
    ensures
        r@ == uuid_text(v4_bytes(bytes@)),
{
    uuid::Builder::from_bytes(bytes)
        .set_variant(uuid::Variant::RFC4122)
        .set_version(uuid::Version::Random)
        .build()
        .to_hyphenated()
        .to_string()
}

/// The text of a version 4 UUID has the hyphenated lower case shape.
pub proof fn lemma_uuid_text_shape(b: Seq<u8>)
    requires
        b.len() == 16,
    ensures
        is_hyphenated_uuid(uuid_text(v4_bytes(b))),
{
    let v = v4_bytes(b);
    let t = uuid_text(v);
    assert forall|i: int| 0 <= i < 36 && !(i == 8 || i == 13 || i == 18 || i == 23) implies is_lower_hex(
        #[trigger] t[i],
    ) by {
        let n = i - hyphens_before(i);
        assert(0 <= n < 32);
        let x = v[n / 2] as int;
        assert(0 <= x < 256);
        assert(0 <= x / 16 < 16) by (nonlinear_arith)
            requires
                0 <= x < 256,
        ;
        assert(0 <= uuid_nibble(v, n) < 16);
    }
    let b6 = (b[6] % 16 + 64) as int;
    assert(64 <= b6 < 80);
    assert(b6 / 16 == 4) by (nonlinear_arith)
        requires
            64 <= b6 < 80,
    ;
    assert(t[14] == hex_digit(v[6] as int / 16));
    let b8 = (b[8] % 64 + 128) as int;
    assert(128 <= b8 < 192);
    assert(8 <= b8 / 16 < 12) by (nonlinear_arith)
        requires
            128 <= b8 < 192,
    ;
    assert(t[19] == hex_digit(v[8] as int / 16));
}

/// The context of a new session: its files go to `<outdir>/<id>` and it runs `ffmpeg`.
pub open spec fn session_context(args: ContextView, outdir: Seq<char>, ffmpeg: Seq<char>, id: Seq<char>) -> ContextView {
    ContextView {
        output: OutputView { outdir: outdir + "/"@ + id, ..args.output },
        ffmpeg_bin: ffmpeg,
        ..args
    }
}

/// Creates a session for `profile_chain` whose identifier is the version 4 UUID made from
/// the random bytes `random`; its files go to a directory of its own below `outdir`.
pub fn create_session(
    outdir: &str,
    ffmpeg: &str,
    profile_chain: Vec<AnyProfile>,
    profile_args: ProfileContext,
    now: u64,
    random: [u8; 16],
) -> (r: (String, Session))
    requires
        profile_chain@.len() > 0,
        now + HARD_TIMEOUT_MS <= u64::MAX,
    ensures
        r.0@ == uuid_text(v4_bytes(random@)),
        is_hyphenated_uuid(r.0@),
        r.1@ == (SessionView {
            id: r.0@,
            paused: false,
            chain: profile_chain@,
            current: 0,
            ctx: session_context(profile_args@, outdir@, ffmpeg@, r.0@),
            has_started: false,
            last_chunk: 0,
            hard_timeout: (now + HARD_TIMEOUT_MS) as u64,
            child_pid: None,
            real_segment: profile_args.output_ctx.start_num,
            exit_status: None,
        }),
{
    let session_id = hyphenated_uuid(random);
    proof {
        lemma_uuid_text_shape(random@);
    }
    let mut args = profile_args;
    let mut dir = concat2(outdir, "/");
    dir.append(session_id.as_str());
    args.output_ctx.outdir = dir;
    args.ffmpeg_bin = String::from_str(ffmpeg);
    let session = Session::new(session_id.clone(), profile_chain, args, now);
    proof {
        assert(session@.ctx == session_context(profile_args@, outdir@, ffmpeg@, session_id@));
    }
    (session_id, session)
}

/// `@<bitrate>` when a bitrate is requested.
pub open spec fn bitrate_suffix(output: OutputView) -> Seq<char> {
    match output.bitrate {
        Some(b) => "@"@ + dec(b as nat),
        None => Seq::empty(),
    }
}

/// How a session is described: `<tag> (<width>x<height>@<bitrate>)` when a width is
/// requested, else `<tag>@<bitrate>`.
pub open spec fn session_label_spec(tag: Seq<char>, output: OutputView) -> Seq<char> {
    match output.width {
        Some(w) => tag + " ("@ + int_text(w as int) + "x"@ + int_text(output.height.unwrap_or(-2i64) as int)
            + bitrate_suffix(output) + ")"@,
        None => tag + bitrate_suffix(output),
    }
}

/// Describes a session by the tag of its first profile and the requested output.
pub fn session_label(tag: &str, output: &OutputCtx) -> (r: String)
    ensures
        r@ == session_label_spec(tag@, output@),
{
    let suffix = match output.bitrate {
        Some(b) => {
            let n = u64_to_text(b);
            concat2("@", n.as_str())
        },
        None => String::new(),
    };
    match output.width {
        Some(w) => {
            let h = match output.height {
                Some(h) => h,
                None => -2,
            };
            let wt = i64_to_text(w);
            let ht = i64_to_text(h);
            let mut r = concat2(tag, " (");
            r.append(wt.as_str());
            r.append("x");
            r.append(ht.as_str());
            r.append(suffix.as_str());
            r.append(")");
            r
        },
        None => concat2(tag, suffix.as_str()),
    }
}

/// The tags of a chain of profiles separated by ` -> `.
pub open spec fn chain_label_spec(chain: Seq<AnyProfile>) -> Seq<char>
    decreases chain.len(),
{
    if chain.len() == 0 {
        Seq::empty()
    } else if chain.len() == 1 {
        chain[0].tag_spec()
    } else {
        chain_label_spec(chain.drop_last()) + " -> "@ + chain.last().tag_spec()
    }
}

/// Describes a chain of profiles by their tags.
pub fn chain_label(chain: &Vec<AnyProfile>) -> (r: String)
    ensures
        r@ == chain_label_spec(chain@),
{
    let mut r = String::new();
    let mut i: usize = 0;
    while i < chain.len()
        invariant
            i <= chain.len(),
            r@ == chain_label_spec(chain@.take(i as int)),
        decreases chain.len() - i,
    {
        assert(chain@.take(i + 1).drop_last() =~= chain@.take(i as int));
        if i > 0 {
            r.append(" -> ");
        } else {
            assert(chain@.take(0).len() == 0);
        }
        r.append(chain[i].tag());
        i = i + 1;
    }
    assert(chain@.take(i as int) =~= chain@);
    r
}

/// When a stream was last restarted by a seek, and at which chunk.
#[derive(Debug, Clone, Copy)]
pub struct StreamStat {
    pub hard_seeked_at: u32,
    pub last_hard_seek: u64,
}

impl StreamStat {
    /// No seek yet; the time of the last seek counts as `now`.
    pub fn new(now: u64) -> (r: Self)
        ensures
            r.hard_seeked_at == 0,
            r.last_hard_seek == now,
    {
        StreamStat { hard_seeked_at: 0, last_hard_seek: now }
    }

    /// Records a hard seek to `chunk` at `now`.
    pub fn record_hard_seek(&mut self, chunk: u32, now: u64)
        ensures
            final(self).hard_seeked_at == chunk,
            final(self).last_hard_seek == now,
    {
        self.hard_seeked_at = chunk;
        self.last_hard_seek = now;
    }
}

/// What to do with a chunk request.
#[derive(Debug, Clone, Copy, PartialEq, Eq, Structural)]
pub enum ChunkAction {
    /// The chunk is not written yet; continue ffmpeg, and restart it at the chunk when `hard_seek`.
    NotReady { hard_seek: bool },
    /// The chunk is written; serve it, continuing ffmpeg first when `cont`.
    Serve { cont: bool },
}

/// A seek restarts ffmpeg when it goes back before the stream's first chunk, when it goes
/// far ahead within the grace period of the last restart and beyond where that restart
/// went, or when ffmpeg would take too long to get there.
pub open spec fn hard_seek_spec(
    chunk: u32,
    start_num: u32,
    current: u32,
    now: u64,
    stat: StreamStat,
    eta_too_long: bool,
) -> bool {
    ||| chunk < start_num
    ||| (chunk > current + SEEK_AHEAD_CHUNKS && now < stat.last_hard_seek + SEEK_GRACE_MS && chunk
        > stat.hard_seeked_at)
    ||| eta_too_long
}

/// Decides what to do with a request for `chunk`, given whether it is written, where the
/// stream starts, where ffmpeg is, the last restart, and whether the wait is too long.
pub fn plan_chunk_request(
    chunk: u32,
    done: bool,
    start_num: u32,
    current: u32,
    now: u64,
    stat: &StreamStat,
    eta_too_long: bool,
) -> (r: ChunkAction)
    requires
        current + SEEK_AHEAD_CHUNKS <= u32::MAX,
        stat.last_hard_seek + SEEK_GRACE_MS <= u64::MAX,
        chunk + 2 <= u32::MAX,
    ensures
        !done ==> r == (ChunkAction::NotReady {
            hard_seek: hard_seek_spec(chunk, start_num, current, now, *stat, eta_too_long),
        }),
        done ==> r == (ChunkAction::Serve { cont: chunk + 2 >= current }),
{
    if !done {
        let hard_seek = chunk < start_num || (chunk > current + SEEK_AHEAD_CHUNKS && now
            < stat.last_hard_seek + SEEK_GRACE_MS && chunk > stat.hard_seeked_at) || eta_too_long;
        ChunkAction::NotReady { hard_seek }
    } else {
        ChunkAction::Serve { cont: chunk + 2 >= current }
    }
}

/// Whether a player seeking to `chunk` should reload the stream: never before the stream
/// started; always when seeking back before its first chunk; when seeking far ahead soon
/// after the last restart; otherwise when the wait is too long.
pub fn should_hard_seek(
    has_started: bool,
    chunk: u32,
    start_num: u32,
    current: u32,
    now: u64,
    stat: &StreamStat,
    eta_too_long: bool,
) -> (r: bool)
    requires
        current + SEEK_AHEAD_CHUNKS <= u32::MAX,
        stat.last_hard_seek + SEEK_GRACE_MS <= u64::MAX,
    ensures
        r == (has_started && (chunk < start_num || (chunk > current + SEEK_AHEAD_CHUNKS && now
            < stat.last_hard_seek + SEEK_GRACE_MS) || eta_too_long)),
{
    if !has_started {
        return false;
    }
    if chunk < start_num {
        return true;
    }
    if chunk > current + SEEK_AHEAD_CHUNKS && now < stat.last_hard_seek + SEEK_GRACE_MS {
        return true;
    }
    eta_too_long
}

/// What a request for an initialisation segment does before answering.
#[derive(Debug, Clone, Copy, PartialEq, Eq, Structural)]
pub struct InitAction {
    /// Restart ffmpeg at the requested chunk.
    pub restart: bool,
    /// Continue ffmpeg.
    pub cont: bool,
}

/// A request for the initialisation segment of a chunk that is not written yet continues
/// ffmpeg, restarting it at that chunk unless it already starts there.
pub fn plan_chunk_init(chunk: u32, done: bool, start_num: u32) -> (r: InitAction)
    ensures
        r == (InitAction { restart: !done && start_num != chunk, cont: !done }),
{
    InitAction { restart: !done && start_num != chunk, cont: !done }
}

/// What garbage collection does with a session.
#[derive(Debug, Clone, Copy, PartialEq, Eq, Structural)]
pub enum GcAction {
    /// Kill the process, keep its log and delete the session.
    Reap,
    /// Stop the process until it is needed again.
    Pause,
    /// Leave the session alone.
    Keep,
}

/// What garbage collection does with session `s` at `now`, given ffmpeg's progress report
/// and whether its process exited: reap it when it is past its hard timeout; else pause
/// it when it runs, is not paused and ffmpeg is more than `MAX_CHUNKS_AHEAD` chunks past
/// the last request; else keep it.
pub open spec fn gc_spec(s: SessionView, now: u64, progress: Map<Seq<char>, Seq<char>>, exited: bool) -> GcAction {
    if now > s.hard_timeout {
        GcAction::Reap
    } else if current_chunk_spec(s, progress) > s.last_chunk + MAX_CHUNKS_AHEAD && !s.paused && !exited {
        GcAction::Pause
    } else {
        GcAction::Keep
    }
}

/// Sessions past their hard timeout are reaped; running sessions that are too far ahead
/// of their requests are paused.
pub fn gc_action(session: &Session, now: u64, progress: &ProgressMap, exited: bool) -> (r: GcAction)
    requires
        chunk_in_range(session@, progress.as_map()),
        session@.last_chunk + MAX_CHUNKS_AHEAD <= u32::MAX,
    ensures
        r == gc_spec(session@, now, progress.as_map(), exited),
{
    if session.is_hard_timeout(now) {
        GcAction::Reap
    } else if session.is_timeout(progress) && !session.paused() && !exited {
        GcAction::Pause
    } else {
        GcAction::Keep
    }
}

/// A request for chunk `c` at `now` keeps its session: until `HARD_TIMEOUT_MS` milliseconds
/// later garbage collection does not reap it, and it pauses the stream only once ffmpeg is
/// more than `MAX_CHUNKS_AHEAD` chunks past `c`.
pub proof fn lemma_request_keeps_session(
    s: SessionView,
    c: u32,
    now: u64,
    later: u64,
    progress: Map<Seq<char>, Seq<char>>,
    exited: bool,
)
    requires
        now + HARD_TIMEOUT_MS < u64::MAX,
        later <= now + HARD_TIMEOUT_MS,
    ensures
        gc_spec(reset_timeout_spec(s, c, now), later, progress, exited) != GcAction::Reap,
        gc_spec(reset_timeout_spec(s, c, now), later, progress, exited) == GcAction::Pause <==> (
        current_chunk_spec(reset_timeout_spec(s, c, now), progress) > c + MAX_CHUNKS_AHEAD && !s.paused
            && !exited),
        gc_spec(reset_timeout_spec(s, c, now), (now + HARD_TIMEOUT_MS + 1) as u64, progress, exited)
            == GcAction::Reap,
{
}

/// The process that continuing the stream of `s` signals: a running process that is paused.
pub open spec fn cont_pid(s: SessionView) -> Option<u32> {
    if s.child_pid is Some && s.paused {
        s.child_pid
    } else {
        None
    }
}

/// The stream stats after a hard seek to `chunk` at `now`.
pub open spec fn seeked(chunk: u32, now: u64) -> StreamStat {
    StreamStat { hard_seeked_at: chunk, last_hard_seek: now }
}

/// What the session manager does with a request for `chunk` before answering it.
#[derive(Debug, Clone, Copy)]
pub struct ChunkStep {
    /// What the request does.
    pub action: ChunkAction,
    /// The process to continue, if one runs and is paused.
    pub resume: Option<u32>,
}

/// Applies the decision for a request for `chunk` to the session and its stream stats: a
/// chunk that is not written yet continues ffmpeg and, on a hard seek, restarts the stream
/// at the chunk and records the seek; a written chunk continues ffmpeg when it is close to
/// what ffmpeg is working on. The caller then kills and respawns ffmpeg on a hard seek, and
/// signals the process in `resume`.
pub fn begin_chunk_request(
    session: &mut Session,
    stats: &mut StreamStat,
    chunk: u32,
    done: bool,
    current: u32,
    now: u64,
    eta_too_long: bool,
) -> (r: ChunkStep)
    requires
        current + SEEK_AHEAD_CHUNKS <= u32::MAX,
        old(stats).last_hard_seek + SEEK_GRACE_MS <= u64::MAX,
        chunk + 2 <= u32::MAX,
    ensures
        !done ==> {
            let hard_seek = hard_seek_spec(chunk, old(session)@.ctx.output.start_num, current, now, *old(stats), eta_too_long);
            &&& r.action == (ChunkAction::NotReady { hard_seek })
            &&& r.resume == cont_pid(old(session)@)
            &&& hard_seek ==> final(session)@ == reset_spec(cont_spec(old(session)@), chunk) && *final(stats) == seeked(chunk, now)
            &&& !hard_seek ==> final(session)@ == cont_spec(old(session)@) && *final(stats) == *old(stats)
        },
        done ==> {
            let cont = chunk + 2 >= current;
            &&& r.action == (ChunkAction::Serve { cont })
            &&& *final(stats) == *old(stats)
            &&& cont ==> final(session)@ == cont_spec(old(session)@) && r.resume == cont_pid(old(session)@)
            &&& !cont ==> final(session)@ == old(session)@ && r.resume is None
        },
{
    let action = plan_chunk_request(chunk, done, session.start_num(), current, now, stats, eta_too_long);
    match action {
        ChunkAction::NotReady { hard_seek } => {
            let resume = session.cont();
            if hard_seek {
                session.reset_to(chunk);
                stats.record_hard_seek(chunk, now);
            }
            ChunkStep { action, resume }
        },
        ChunkAction::Serve { cont } => {
            let resume = if cont {
                session.cont()
            } else {
                None
            };
            ChunkStep { action, resume }
        },
    }
}

/// Answers a request for the written chunk `chunk`: records it as the last request, lets the
/// session live for another `HARD_TIMEOUT_MS` milliseconds, keeps the number of the next
/// segment when patching gave one (`patched`), and returns the chunk's path.
pub fn finish_chunk_request(session: &mut Session, chunk: u32, patched: Option<u32>, now: u64) -> (r: String)
    requires
        now + HARD_TIMEOUT_MS <= u64::MAX,
    ensures
        r@ == old(session)@.ctx.output.outdir + "/"@ + dec(chunk as nat) + ".m4s"@,
        final(session)@ == reset_timeout_spec(
            SessionView { real_segment: patched.unwrap_or(old(session)@.real_segment), ..old(session)@ },
            chunk,
            now,
        ),
{
    let path = session.chunk_to_path(chunk);
    match patched {
        Some(n) => session.set_real_segment(n),
        None => {},
    }
    session.reset_timeout(chunk, now);
    path
}

/// The session after a failed ffmpeg run moved on to the next profile of its chain, starting
/// again from the first chunk of the stream; unchanged when ffmpeg did not fail.
pub open spec fn failover_spec(s: SessionView) -> SessionView {
    if s.exit_status == Some(false) && s.current + 1 < s.chain.len() {
        reset_spec(SessionView { current: s.current + 1, ..s }, s.ctx.output.start_num)
    } else {
        s
    }
}

/// What the session manager does with a request for the initialisation segment of `chunk`
/// before answering it.
#[derive(Debug)]
pub struct InitStep {
    /// Whether to restart ffmpeg at the chunk and whether to continue it.
    pub action: InitAction,
    /// The process to continue, if one runs and is paused.
    pub resume: Option<u32>,
    /// The tag of the profile moved on to after a failed run.
    pub next_profile: Option<String>,
}

/// Applies a request for the initialisation segment of `chunk` to the session: after a failed
/// run it moves on to the next profile (failing with `ProfileChainExhausted` when none is
/// left); then, when the chunk is not written yet, it restarts the stream at the chunk
/// (recording the seek) unless the stream already starts there, or else continues ffmpeg.
pub fn begin_init_request(
    session: &mut Session,
    stats: &mut StreamStat,
    chunk: u32,
    done: bool,
    now: u64,
) -> (r: Result<InitStep, NightfallError>)
    ensures
        old(session)@.exit_status == Some(false) && old(session)@.current + 1 >= old(session)@.chain.len() ==> {
            &&& r matches Err(NightfallError::ProfileChainExhausted)
            &&& final(session)@ == old(session)@
            &&& *final(stats) == *old(stats)
        },
        !(old(session)@.exit_status == Some(false) && old(session)@.current + 1 >= old(session)@.chain.len()) ==> {
            let s1 = failover_spec(old(session)@);
            let restart = !done && s1.ctx.output.start_num != chunk;
            &&& r matches Ok(step)
            &&& step.action == (InitAction { restart, cont: !done })
            &&& (step.next_profile is Some <==> old(session)@.exit_status == Some(false))
            &&& step.next_profile matches Some(t) ==> t@ == s1.chain[s1.current as int].tag_spec()
            &&& restart ==> final(session)@ == reset_spec(s1, chunk) && *final(stats) == seeked(chunk, now)
                && step.resume is None
            &&& !restart ==> *final(stats) == *old(stats) && step.resume == (if !done { cont_pid(s1) } else { None })
            &&& !restart && !done ==> final(session)@ == cont_spec(s1)
            &&& done ==> final(session)@ == s1
        },
{
    let next_profile = match session.switch_profile_after_failure() {
        Ok(t) => t,
        Err(e) => {
            return Err(e);
        },
    };
    let action = plan_chunk_init(chunk, done, session.start_num());
    let mut resume: Option<u32> = None;
    if action.restart {
        session.reset_to(chunk);
        stats.record_hard_seek(chunk, now);
    } else if action.cont {
        resume = session.cont();
    }
    Ok(InitStep { action, resume, next_profile })
}

/// Answers a request for an initialisation segment: its path when the requested chunk is
/// written, else `ChunkNotDone`.
pub fn finish_init_request(session: &Session, done: bool) -> (r: Result<String, NightfallError>)
    ensures
        done ==> (r matches Ok(p) && p@ == session@.ctx.output.outdir + "/"@ + dec(
            session@.ctx.output.start_num as nat,
        ) + "_init.mp4"@),
        !done ==> r matches Err(NightfallError::ChunkNotDone),
{
    if done {
        Ok(session.init_seg())
    } else {
        Err(NightfallError::ChunkNotDone)
    }
}

} // verus!
