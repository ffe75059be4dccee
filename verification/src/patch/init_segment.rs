//! Initialisation segments, which may carry media segments of their own that have to be
//! moved into the segment file.
use vstd::prelude::*;

use super::segment::{
    copy_range, empty_segment, gen_styp_spec, normalize_dts_spec, opt_bytes, opt_seq, set_segno_spec,
    set_styp_spec, write_spec, Segment, SegmentView,
};
use super::{
    box_at, ftyp_size_ok, header_bytes, moof_error, read_moof, push_header, read_box_at, FTYP,
    MDAT, MOOF, MOOV, SIDX, STYP,
};
use crate::error::NightfallError;

verus! {

/// The mathematical value of an initialisation segment.
pub struct InitSegmentView {
    pub ftyp: Option<Seq<u8>>,
    pub moov: Seq<u8>,
    pub segments: Seq<SegmentView>,
}

/// An initialisation segment: its `ftyp` box, the payload of its `moov` box (followed by
/// the boxes of other types, which are kept as they are), and the media segments packed into it.
pub struct InitSegment {
    pub ftyp: Option<Vec<u8>>,
    pub moov: Vec<u8>,
    pub segments: Vec<Segment>,
}

/// The views of a list of segments.
pub open spec fn segment_views(s: Seq<Segment>) -> Seq<SegmentView> {
    s.map_values(|x: Segment| x@)
}

impl View for InitSegment {
    type V = InitSegmentView;

    open spec fn view(&self) -> InitSegmentView {
        InitSegmentView { ftyp: opt_bytes(self.ftyp), moov: self.moov@, segments: segment_views(self.segments@) }
    }
}

/// An initialisation segment without boxes.
pub open spec fn empty_init() -> InitSegmentView {
    InitSegmentView { ftyp: None, moov: Seq::empty(), segments: Seq::empty() }
}

/// Reads an initialisation segment from `pos` on; `cur` is the media segment being read.
/// An `mdat` box ends a media segment, which gets the `ftyp` box when it has no `styp` box;
/// a media segment without `mdat` at the end of the data is dropped. A `moov` box replaces
/// what was kept of earlier boxes of other types.
#[verifier::opaque]
pub open spec fn parse_init(b: Seq<u8>, pos: int, acc: InitSegmentView, cur: SegmentView) -> Result<
    InitSegmentView,
    Seq<char>,
>
    decreases b.len() - pos,
{
    if pos >= b.len() {
        Ok(acc)
    } else {
        match box_at(b, pos, b.len() as int) {
            Err(m) => Err(m),
            Ok((k, h, l)) => {
                let bx = b.subrange(pos, pos + l);
                if k == SIDX {
                    parse_init(b, pos + l, acc, SegmentView { sidx: Some(bx), ..cur })
                } else if k == MOOF {
                    match moof_error(bx, h) {
                        Some(m) => Err(m),
                        None => parse_init(b, pos + l, acc, SegmentView { moof: Some(bx), ..cur }),
                    }
                } else if k == MDAT {
                    let done = SegmentView { mdat: Some(bx), ..cur };
                    let done = if done.styp is None { SegmentView { styp: acc.ftyp, ..done } } else { done };
                    parse_init(
                        b,
                        pos + l,
                        InitSegmentView { segments: acc.segments.push(done), ..acc },
                        empty_segment(),
                    )
                } else if k == FTYP || k == STYP {
                    if !ftyp_size_ok(h, l) {
                        Err("ftyp size too small or not aligned"@)
                    } else if k == FTYP {
                        parse_init(b, pos + l, InitSegmentView { ftyp: Some(bx), ..acc }, cur)
                    } else {
                        parse_init(b, pos + l, acc, SegmentView { styp: Some(bx), ..cur })
                    }
                } else if k == MOOV {
                    parse_init(b, pos + l, InitSegmentView { moov: b.subrange(pos + h, pos + l), ..acc }, cur)
                } else {
                    parse_init(
                        b,
                        pos + l,
                        InitSegmentView {
                            moov: acc.moov + header_bytes(k, (l - h + 8) as nat) + b.subrange(pos + h, pos + l),
                            ..acc
                        },
                        cur,
                    )
                }
            },
        }
    }
}

/// A media segment packed into an initialisation segment, made into a segment of its own
/// with the sequence number `seq`.
pub open spec fn moved_segment(s: SegmentView, seq: nat) -> Seq<u8> {
    write_spec(set_segno_spec(normalize_dts_spec(set_styp_spec(gen_styp_spec(s))), seq))
}

/// The bytes of the media segments `segs` moved out of an initialisation segment and
/// numbered from `seq` on.
pub open spec fn moved(segs: Seq<SegmentView>, seq: nat) -> Seq<u8>
    decreases segs.len(),
{
    if segs.len() == 0 {
        Seq::empty()
    } else {
        moved(segs.drop_last(), seq) + moved_segment(segs.last(), (seq + segs.len() - 1) as nat)
    }
}

/// Moved segments keep their order: the bytes of the first `j` moved segments begin the
/// bytes of all of them, and the `k`-th of them is numbered `seq + k`.
pub proof fn lemma_moved_in_order(segs: Seq<SegmentView>, seq: nat, j: int)
    requires
        0 <= j < segs.len(),
    ensures
        (moved(segs.take(j), seq) + moved_segment(segs[j], (seq + j) as nat)).is_prefix_of(moved(segs, seq)),
    decreases segs.len(),
{
    let init = segs.drop_last();
    if j == segs.len() - 1 {
        assert(init =~= segs.take(j));
        let c = moved(segs, seq);
        assert(c =~= c.subrange(0, c.len() as int));
    } else {
        lemma_moved_in_order(init, seq, j);
        assert(init.take(j) =~= segs.take(j));
        assert(init[j] == segs[j]);
        let a = moved(segs.take(j), seq) + moved_segment(segs[j], (seq + j) as nat);
        let b = moved(init, seq);
        let c = moved(segs, seq);
        assert(c == b + moved_segment(segs.last(), (seq + segs.len() - 1) as nat));
        assert(a =~= c.subrange(0, a.len() as int)) by {
            assert forall|i: int| 0 <= i < a.len() implies a[i] == c.subrange(0, a.len() as int)[i] by {
                assert(a[i] == b.subrange(0, a.len() as int)[i]);
                assert(b[i] == c[i]);
            }
        }
    }
}

/// The bytes of an initialisation segment without its media segments: its `ftyp` box and a
/// `moov` box that holds what was kept.
pub open spec fn dump_spec(v: InitSegmentView) -> Seq<u8> {
    opt_seq(v.ftyp) + header_bytes(MOOV, v.moov.len() + 8) + v.moov
}

impl InitSegment {
    /// Reads an initialisation segment from `data`.
    pub fn from_reader(data: &[u8]) -> (r: Result<Self, NightfallError>)
        ensures
            match parse_init(data@, 0, empty_init(), empty_segment()) {
                Ok(v) => r matches Ok(s) && s@ == v && v.segments.len() <= data@.len() && v.moov.len() <= data@.len(),
                Err(m) => r matches Err(NightfallError::SegmentPatchError(e)) && e@ == m,
            },
    {
        let len = data.len();
        let mut init = InitSegment { ftyp: None, moov: Vec::new(), segments: Vec::new() };
        let mut current_segment = Segment::new();
        let mut current: usize = 0;
        assert(init@.segments =~= Seq::<SegmentView>::empty());
        assert(init@.moov =~= Seq::<u8>::empty());
        assert(init@ == empty_init());
        while current < len
            invariant
                len == data@.len(),
                current <= len,
                init@.segments.len() <= current,
                init@.moov.len() <= current,
                parse_init(data@, 0, empty_init(), empty_segment()) == parse_init(
                    data@,
                    current as int,
                    init@,
                    current_segment@,
                ),
            decreases len - current,
        {
            match read_init_box(data, current, &mut init, &mut current_segment) {
                Err(e) => {
                    return Err(e);
                },
                Ok(next) => {
                    current = next;
                },
            }
        }
        proof {
            reveal(parse_init);
        }
        Ok(init)
    }

    /// Method will check if this init segment contains any real segments.
    pub fn contains_segments(&self) -> (r: bool)
        ensures
            r == (self@.segments.len() > 0),
    {
        self.segments.len() > 0
    }

    /// The bytes of the initialisation segment without its media segments.
    pub fn normalize_and_dump(self) -> (r: Vec<u8>)
        requires
            self@.moov.len() + 8 <= u64::MAX,
        ensures
            r@ == dump_spec(self@),
    {
        let ghost v = self@;
        let mut out: Vec<u8> = Vec::new();
        match self.ftyp {
            Some(mut f) => out.append(&mut f),
            None => {},
        }
        let mut moov = self.moov;
        push_header(&mut out, MOOV, moov.len() as u64 + 8);
        out.append(&mut moov);
        assert(out@ =~= dump_spec(v));
        out
    }
}

/// Reads the box at `current` into `init` and `cur`, as one step of `parse_init`.
fn read_init_box(data: &[u8], current: usize, init: &mut InitSegment, cur: &mut Segment) -> (r: Result<usize, NightfallError>)
    requires
        current < data@.len(),
        old(init)@.segments.len() <= current,
        old(init)@.moov.len() <= current,
    ensures
        match r {
            Ok(next) => {
                &&& current < next <= data@.len()
                &&& final(init)@.segments.len() <= next
                &&& final(init)@.moov.len() <= next
                &&& parse_init(data@, current as int, old(init)@, old(cur)@) == parse_init(
                    data@,
                    next as int,
                    final(init)@,
                    final(cur)@,
                )
            },
            Err(e) => parse_init(data@, current as int, old(init)@, old(cur)@) matches Err(m) && e
                matches NightfallError::SegmentPatchError(t) && t@ == m,
        },
{
    let len = data.len();
    proof {
        reveal(parse_init);
    }
    match read_box_at(data, current, len) {
        Err(m) => Err(NightfallError::SegmentPatchError(m)),
        Ok((k, h, l)) => {
            let ghost before = init@;
            let bx = copy_range(data, current, current + l);
            if k == SIDX {
                cur.sidx = Some(bx);
            } else if k == MOOF {
                let moof_error = read_moof(bx.as_slice(), h);
                match cur.add_moof(bx, moof_error) {
                    Err(e) => {
                        return Err(e);
                    },
                    Ok(()) => {},
                }
            } else if k == MDAT {
                let mut done = Segment::new();
                std::mem::swap(&mut done, cur);
                done.mdat = Some(bx);
                if done.styp.is_none() {
                    done.styp = copy_box(&init.ftyp);
                }
                init.segments.push(done);
                proof {
                    assert(init@.segments =~= before.segments.push(init.segments@.last()@));
                }
            } else if k == FTYP || k == STYP {
                if !(l - h + 8 >= 16 && (l - h + 8) % 4 == 0) {
                    return Err(NightfallError::SegmentPatchError(String::from_str("ftyp size too small or not aligned")));
                }
                if k == FTYP {
                    init.ftyp = Some(bx);
                } else {
                    cur.styp = Some(bx);
                }
            } else if k == MOOV {
                init.moov = copy_range(data, current + h, current + l);
            } else {
                push_header(&mut init.moov, k, (l - h + 8) as u64);
                let mut payload = copy_range(data, current + h, current + l);
                init.moov.append(&mut payload);
            }
            Ok(current + l)
        },
    }
}

/// A copy of an optional box.
fn copy_box(b: &Option<Vec<u8>>) -> (r: Option<Vec<u8>>)
    ensures
        opt_bytes(r) == opt_bytes(*b),
{
    match b {
        Some(v) => Some(copy_range(v.as_slice(), 0, v.len())),
        None => None,
    }
}

/// Moves the media segments out of the initialisation segment `segment`, numbered from
/// `seq` on: the bytes of a segment file that holds them, the bytes of the initialisation
/// segment without them, and the number of the next segment.
fn move_segments(segment: InitSegment, seq: u32) -> (r: (Vec<u8>, Vec<u8>, u32))
    requires
        segment@.moov.len() + 8 <= u64::MAX,
        seq + segment@.segments.len() <= u32::MAX,
    ensures
        r.0@ == moved(segment@.segments, seq as nat),
        r.1@ == dump_spec(segment@),
        r.2 == seq + segment@.segments.len(),
{
    let mut segment = segment;
    let ghost v = segment@;
    let mut out: Vec<u8> = Vec::new();
    let mut n: u32 = 0;
    let mut queue: Vec<Segment> = Vec::new();
    std::mem::swap(&mut queue, &mut segment.segments);
    let total = queue.len();
    let ghost all = segment_views(queue@);
    assert(all == v.segments);
    assert(out@ =~= moved(all.take(0), seq as nat));
    while n < total as u32
        invariant
            total == all.len(),
            seq + total <= u32::MAX,
            n <= total,
            queue@.len() == total - n,
            forall|k: int| 0 <= k < queue@.len() ==> #[trigger] queue@[k]@ == all[n + k],
            out@ == moved(all.take(n as int), seq as nat),
        decreases total - n,
    {
        let s = queue.remove(0);
        assert(s@ == all[n as int]);
        s.gen_styp().set_styp().normalize_dts().set_segno(seq + n).write(&mut out);
        proof {
            assert(all.take(n + 1).drop_last() =~= all.take(n as int));
        }
        n = n + 1;
    }
    assert(all.take(n as int) =~= all);
    let rest = segment.normalize_and_dump();
    (out, rest, seq + n)
}

/// Moves the media segments packed into an initialisation segment out of it: returns the
/// bytes of a segment file that holds them, numbered from `seq` on, the bytes of the
/// initialisation segment without them, and the number of the next segment.
pub fn patch_init_segment(init: &[u8], seq: u32) -> (r: Result<(Vec<u8>, Vec<u8>, u32), NightfallError>)
    requires
        init@.len() + 8 <= u64::MAX,
        parse_init(init@, 0, empty_init(), empty_segment()) matches Ok(v) ==> seq + v.segments.len() <= u32::MAX,
    ensures
        match parse_init(init@, 0, empty_init(), empty_segment()) {
            Ok(v) => r matches Ok((segments, rest, next)) && segments@ == moved(v.segments, seq as nat)
                && rest@ == dump_spec(v) && next == seq + v.segments.len(),
            Err(m) => r matches Err(NightfallError::SegmentPatchError(e)) && e@ == m,
        },
{
    match InitSegment::from_reader(init) {
        Ok(s) => Ok(move_segments(s, seq)),
        Err(e) => Err(e),
    }
}

/// `patch_init_segment` where the numbers of the moved segments fit in 32 bits; `None` when
/// the last of them would not.
pub fn try_patch_init_segment(init: &[u8], seq: u32) -> (r: Option<Result<(Vec<u8>, Vec<u8>, u32), NightfallError>>)
    requires
        init@.len() + 8 <= u64::MAX,
    ensures
        match parse_init(init@, 0, empty_init(), empty_segment()) {
            Ok(v) => if seq + v.segments.len() > u32::MAX {
                r is None
            } else {
                r matches Some(Ok((segments, rest, next))) && segments@ == moved(v.segments, seq as nat)
                    && rest@ == dump_spec(v) && next == seq + v.segments.len()
            },
            Err(m) => r matches Some(Err(NightfallError::SegmentPatchError(e))) && e@ == m,
        },
{
    match InitSegment::from_reader(init) {
        Ok(s) => {
            if s.segments.len() > (u32::MAX - seq) as usize {
                None
            } else {
                Some(Ok(move_segments(s, seq)))
            }
        },
        Err(e) => Some(Err(e)),
    }
}

} // verus!
