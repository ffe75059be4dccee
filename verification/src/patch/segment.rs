//! One media segment: its `styp`, `sidx`, `moof` and `mdat` boxes.
use vstd::prelude::*;

use super::{
    be32, be64, box_at, default_ftyp, default_ftyp_box, find_child, find_child_box, ftyp_size_ok,
    bytes32, hdr_len, header_len_of, is_truncated_other_box, truncated_other_box, moof_error, read_moof, put32, put64, read32, read64, read_box_at,
    write32, write64, MDAT, MFHD, MOOF, SIDX, STYP, TFDT, TRAF,
};
use super::init_segment::segment_views;
use crate::error::NightfallError;

verus! {

/// The bytes of an optional box.
pub open spec fn opt_bytes(b: Option<Vec<u8>>) -> Option<Seq<u8>> {
    match b {
        Some(v) => Some(v@),
        None => None,
    }
}

/// The bytes of an optional box, nothing when it is absent.
pub open spec fn opt_seq(b: Option<Seq<u8>>) -> Seq<u8> {
    match b {
        Some(v) => v,
        None => Seq::empty(),
    }
}

/// The mathematical value of a segment: the bytes of each of its boxes.
pub struct SegmentView {
    pub styp: Option<Seq<u8>>,
    pub sidx: Option<Seq<u8>>,
    pub moof: Option<Seq<u8>>,
    pub mdat: Option<Seq<u8>>,
}

/// A segment without boxes.
pub open spec fn empty_segment() -> SegmentView {
    SegmentView { styp: None, sidx: None, moof: None, mdat: None }
}

/// A segment, each box kept as the bytes it was read as.
#[derive(Clone, Debug, PartialEq)]
pub struct Segment {
    /// styp box is needed if the segment is written to a separate file.
    pub styp: Option<Vec<u8>>,
    /// segment index box contains the index of the segment.
    pub sidx: Option<Vec<u8>>,
    /// Moof box contains metadata about the segment like the PTS and DTS.
    pub moof: Option<Vec<u8>>,
    /// Contains audio-visual data.
    pub mdat: Option<Vec<u8>>,
}

impl View for Segment {
    type V = SegmentView;

    open spec fn view(&self) -> SegmentView {
        SegmentView {
            styp: opt_bytes(self.styp),
            sidx: opt_bytes(self.sidx),
            moof: opt_bytes(self.moof),
            mdat: opt_bytes(self.mdat),
        }
    }
}

/// Reads the boxes of one segment from `pos` on: up to and including its `mdat` box, or to
/// the end of the data. Boxes of other types are skipped, and one that runs past the end of
/// the data ends the segment there; `moof` boxes must be accepted by mp4 and `styp` boxes
/// must have a valid size.
pub open spec fn parse_segment(b: Seq<u8>, pos: int, acc: SegmentView) -> Result<(SegmentView, int), Seq<char>>
    decreases b.len() - pos,
{
    if pos >= b.len() {
        Ok((acc, b.len() as int))
    } else {
        match box_at(b, pos, b.len() as int) {
            Err(m) => if truncated_other_box(b, pos) {
                Ok((acc, b.len() as int))
            } else {
                Err(m)
            },
            Ok((k, h, l)) => {
                let bx = b.subrange(pos, pos + l);
                if k == SIDX {
                    parse_segment(b, pos + l, SegmentView { sidx: Some(bx), ..acc })
                } else if k == MOOF {
                    match moof_error(bx, h) {
                        Some(m) => Err(m),
                        None => parse_segment(b, pos + l, SegmentView { moof: Some(bx), ..acc }),
                    }
                } else if k == MDAT {
                    Ok((SegmentView { mdat: Some(bx), ..acc }, pos + l))
                } else if k == STYP {
                    if !ftyp_size_ok(h, l) {
                        Err("ftyp size too small or not aligned"@)
                    } else {
                        parse_segment(b, pos + l, SegmentView { styp: Some(bx), ..acc })
                    }
                } else {
                    parse_segment(b, pos + l, acc)
                }
            },
        }
    }
}

/// A segment read from `pos` on ends after `pos` and within the data.
pub proof fn lemma_parse_segment_advances(b: Seq<u8>, pos: int, acc: SegmentView)
    requires
        0 <= pos < b.len(),
    ensures
        parse_segment(b, pos, acc) matches Ok((_, p)) ==> pos < p <= b.len(),
    decreases b.len() - pos,
{
    match box_at(b, pos, b.len() as int) {
        Err(_) => {},
        Ok((k, h, l)) => {
            let bx = b.subrange(pos, pos + l);
            if pos + l < b.len() {
                lemma_parse_segment_advances(b, pos + l, SegmentView { sidx: Some(bx), ..acc });
                lemma_parse_segment_advances(b, pos + l, SegmentView { moof: Some(bx), ..acc });
                lemma_parse_segment_advances(b, pos + l, SegmentView { styp: Some(bx), ..acc });
                lemma_parse_segment_advances(b, pos + l, acc);
            }
        },
    }
}

/// Whether a segment holds a `styp` box and nothing else.
pub open spec fn is_empty_spec(s: SegmentView) -> bool {
    s.styp is Some && s.sidx is None && s.moof is None && s.mdat is None
}

/// The `styp` box that is made for a segment without one.
pub open spec fn default_styp() -> Seq<u8> {
    put32(default_ftyp(), 4, STYP as nat)
}

/// A `styp` box when there is none.
pub open spec fn gen_styp_spec(s: SegmentView) -> SegmentView {
    if s.styp is None {
        SegmentView { styp: Some(default_styp()), ..s }
    } else {
        s
    }
}

/// A box renamed to `styp`.
pub open spec fn as_styp(b: Seq<u8>) -> Seq<u8> {
    if b.len() >= 8 {
        put32(b, 4, STYP as nat)
    } else {
        b
    }
}

/// The `styp`/`ftyp` box of the segment renamed to `styp`.
pub open spec fn set_styp_spec(s: SegmentView) -> SegmentView {
    match s.styp {
        Some(b) => SegmentView { styp: Some(as_styp(b)), ..s },
        None => s,
    }
}

/// The `moof` box `m` with the sequence number of its movie fragment header set to `seq`.
pub open spec fn moof_with_segno(m: Seq<u8>, seq: nat) -> Seq<u8> {
    match find_child(m, hdr_len(m) as int, m.len() as int, MFHD) {
        Some((p, h, l)) => if l >= h + 8 {
            put32(m, p + h + 4, seq)
        } else {
            m
        },
        None => m,
    }
}

/// The segment with its sequence number set to `seq`.
pub open spec fn set_segno_spec(s: SegmentView, seq: nat) -> SegmentView {
    match s.moof {
        Some(m) => SegmentView { moof: Some(moof_with_segno(m, seq)), ..s },
        None => s,
    }
}

/// The earliest presentation time of a `sidx` box: 32 bits for version 0, else 64 bits.
pub open spec fn sidx_ept(s: Seq<u8>) -> Option<nat> {
    let h = hdr_len(s);
    if s.len() < h + 16 {
        None
    } else if s[h as int] == 0 {
        Some(be32(s, h + 12int))
    } else if s.len() >= h + 20 {
        Some(be64(s, h + 12int))
    } else {
        None
    }
}

/// The `moof` box `m` with the decode time of its first track fragment set to `t`
/// (truncated to 32 bits for a version 0 `tfdt` box).
pub open spec fn moof_with_dts(m: Seq<u8>, t: nat) -> Seq<u8> {
    match find_child(m, hdr_len(m) as int, m.len() as int, TRAF) {
        Some((tp, th, tl)) => match find_child(m, tp + th, tp + tl, TFDT) {
            Some((p, h, l)) => if l < h + 8 {
                m
            } else if m[p + h] == 1 {
                if l >= h + 12 {
                    put64(m, p + h + 4, t)
                } else {
                    m
                }
            } else {
                put32(m, p + h + 4, t % 4294967296)
            },
            None => m,
        },
        None => m,
    }
}

/// The segment with its decode time set to its earliest presentation time.
pub open spec fn normalize_dts_spec(s: SegmentView) -> SegmentView {
    match (s.moof, s.sidx) {
        (Some(m), Some(x)) => match sidx_ept(x) {
            Some(t) => SegmentView { moof: Some(moof_with_dts(m, t)), ..s },
            None => s,
        },
        _ => s,
    }
}

/// The bytes of a segment: its `styp`, `sidx`, `moof` and `mdat` boxes in this order.
pub open spec fn write_spec(s: SegmentView) -> Seq<u8> {
    opt_seq(s.styp) + opt_seq(s.sidx) + opt_seq(s.moof) + opt_seq(s.mdat)
}

/// The error for data that is not a valid segment.
pub open spec fn patch_error(r: Result<(Segment, usize), NightfallError>, m: Seq<char>) -> bool {
    r matches Err(NightfallError::SegmentPatchError(e)) && e@ == m
}

/// A copy of `b[from..to]`.
pub fn copy_range(b: &[u8], from: usize, to: usize) -> (r: Vec<u8>)
    requires
        from <= to <= b@.len(),
    ensures
        r@ == b@.subrange(from as int, to as int),
{
    vstd::slice::slice_to_vec(vstd::slice::slice_subrange(b, from, to))
}

/// Reads `moof` children to find the `mfhd` box and writes the sequence number.
fn patch_segno(m: &mut Vec<u8>, seq: u32)
    ensures
        final(m)@ == moof_with_segno(old(m)@, seq as nat),
{
    let h = header_len_of(m);
    let len = m.len();
    match find_child_box(m.as_slice(), h, len, MFHD) {
        Some((p, ch, l)) => {
            proof {
                lemma_find_child_box(old(m)@, h as int, len as int, MFHD);
            }
            if l >= ch + 8 {
                write32(m, p + ch + 4, seq as u64);
            }
        },
        None => {},
    }
}

/// A box found among children lies within their range.
proof fn lemma_find_child_box(b: Seq<u8>, pos: int, end: int, kind: u32)
    requires
        0 <= pos,
        end <= b.len(),
    ensures
        find_child(b, pos, end, kind) matches Some((p, h, l)) ==> pos <= p && p + l <= end && box_at(
            b,
            p,
            end,
        ) == Ok::<(u32, nat, nat), Seq<char>>((kind, h, l)) && h <= l && (h == 8 || h == 16),
    decreases end - pos,
{
    if pos < end {
        match box_at(b, pos, end) {
            Err(_) => {},
            Ok((k, h, l)) => {
                if k != kind {
                    lemma_find_child_box(b, pos + l, end, kind);
                }
            },
        }
    }
}

/// Writes the decode time `t` into the first track fragment of `m`.
fn patch_dts(m: &mut Vec<u8>, t: u64)
    ensures
        final(m)@ == moof_with_dts(old(m)@, t as nat),
{
    let h = header_len_of(m);
    let len = m.len();
    match find_child_box(m.as_slice(), h, len, TRAF) {
        Some((tp, th, tl)) => {
            proof {
                lemma_find_child_box(old(m)@, h as int, len as int, TRAF);
            }
            match find_child_box(m.as_slice(), tp + th, tp + tl, TFDT) {
                Some((p, ch, l)) => {
                    proof {
                        lemma_find_child_box(old(m)@, (tp + th) as int, (tp + tl) as int, TFDT);
                    }
                    if l < ch + 8 {
                    } else if m[p + ch] == 1 {
                        if l >= ch + 12 {
                            write64(m, p + ch + 4, t);
                        }
                    } else {
                        write32(m, p + ch + 4, t % 4294967296);
                    }
                },
                None => {},
            }
        },
        None => {},
    }
}

/// Reads the earliest presentation time of a `sidx` box.
fn read_ept(s: &Vec<u8>) -> (r: Option<u64>)
    ensures
        match r {
            Some(t) => sidx_ept(s@) == Some(t as nat),
            None => sidx_ept(s@) is None,
        },
{
    let h = header_len_of(s);
    if s.len() < h + 16 {
        None
    } else if s[h] == 0 {
        Some(read32(s.as_slice(), h + 12))
    } else if s.len() >= h + 20 {
        Some(read64(s.as_slice(), h + 12))
    } else {
        None
    }
}

impl Segment {
    /// A segment without boxes.
    pub fn new() -> (r: Self)
        ensures
            r@ == empty_segment(),
    {
        Segment { styp: None, sidx: None, moof: None, mdat: None }
    }

    /// Reads the boxes of one segment from `start` on: up to and including its `mdat` box,
    /// or to the end of `data`. Returns the segment and where the next one starts.
    pub fn from_reader(data: &[u8], start: usize) -> (r: Result<(Self, usize), NightfallError>)
        ensures
            match parse_segment(data@, start as int, empty_segment()) {
                Ok((s, p)) => r matches Ok((seg, q)) && seg@ == s && q == p,
                Err(m) => patch_error(r, m),
            },
    {
        let len = data.len();
        let mut segment = Segment::new();
        let mut current = start;
        while current < len
            invariant
                len == data@.len(),
                parse_segment(data@, start as int, empty_segment()) == parse_segment(
                    data@,
                    current as int,
                    segment@,
                ),
            decreases len - current,
        {
            match read_box_at(data, current, len) {
                Err(m) => {
                    if is_truncated_other_box(data, current) {
                        return Ok((segment, len));
                    }
                    return Err(NightfallError::SegmentPatchError(m));
                },
                Ok((k, h, l)) => {
                    let bx = copy_range(data, current, current + l);
                    if k == SIDX {
                        segment.sidx = Some(bx);
                    } else if k == MOOF {
                        let moof_error = read_moof(bx.as_slice(), h);
                        match segment.add_moof(bx, moof_error) {
                            Err(e) => {
                                return Err(e);
                            },
                            Ok(()) => {},
                        }
                    } else if k == MDAT {
                        segment.mdat = Some(bx);
                        return Ok((segment, current + l));
                    } else if k == STYP {
                        if !(l - h + 8 >= 16 && (l - h + 8) % 4 == 0) {
                            return Err(
                                NightfallError::SegmentPatchError(
                                    String::from_str("ftyp size too small or not aligned"),
                                ),
                            );
                        }
                        segment.styp = Some(bx);
                    }
                    current = current + l;
                },
            }
        }
        Ok((segment, len))
    }

    /// Takes `moof` as the segment's `moof` box when mp4 read it without error, else fails
    /// with the error mp4 reported and leaves the segment as it was.
    pub fn add_moof(&mut self, moof: Vec<u8>, moof_error: Option<String>) -> (r: Result<(), NightfallError>)
        ensures
            match moof_error {
                Some(m) => final(self)@ == old(self)@ && (r matches Err(NightfallError::SegmentPatchError(e))
                    && e@ == m@),
                None => final(self)@ == (SegmentView { moof: Some(moof@), ..old(self)@ }) && r is Ok,
            },
    {
        match moof_error {
            Some(m) => Err(NightfallError::SegmentPatchError(m)),
            None => {
                self.moof = Some(moof);
                Ok(())
            },
        }
    }

    /// Sometimes ffmpeg will output a bare initial segment, one with only a `styp` box.
    pub fn is_empty_segment(&self) -> (r: bool)
        ensures
            r == is_empty_spec(self@),
    {
        self.styp.is_some() && self.sidx.is_none() && self.moof.is_none() && self.mdat.is_none()
    }

    /// Creates a `styp` box for this segment if it has none.
    pub fn gen_styp(self) -> (r: Self)
        ensures
            r@ == gen_styp_spec(self@),
    {
        let mut s = self;
        if s.styp.is_none() {
            let mut styp = default_ftyp_box();
            write32(&mut styp, 4, STYP as u64);
            s.styp = Some(styp);
        }
        s
    }

    /// Renames the `styp`/`ftyp` box of the segment to `styp`.
    pub fn set_styp(self) -> (r: Self)
        ensures
            r@ == set_styp_spec(self@),
    {
        let mut s = self;
        match s.styp {
            Some(mut b) => {
                if b.len() >= 8 {
                    write32(&mut b, 4, STYP as u64);
                }
                s.styp = Some(b);
            },
            None => {},
        }
        s
    }

    /// Sets the sequence number of the segment's movie fragment.
    pub fn set_segno(self, seq: u32) -> (r: Self)
        ensures
            r@ == set_segno_spec(self@, seq as nat),
    {
        let mut s = self;
        match s.moof {
            Some(mut m) => {
                patch_segno(&mut m, seq);
                s.moof = Some(m);
            },
            None => {},
        }
        s
    }

    /// Sets the decode time of the segment's first track fragment to its earliest
    /// presentation time.
    pub fn normalize_dts(self) -> (r: Self)
        ensures
            r@ == normalize_dts_spec(self@),
    {
        let mut s = self;
        let t = match &s.sidx {
            Some(x) => read_ept(x),
            None => None,
        };
        match t {
            Some(t) => {
                match s.moof {
                    Some(mut m) => {
                        patch_dts(&mut m, t);
                        s.moof = Some(m);
                    },
                    None => {},
                }
            },
            None => {},
        }
        s
    }

    /// Appends the bytes of the segment to `out`.
    pub fn write(self, out: &mut Vec<u8>)
        ensures
            final(out)@ == old(out)@ + write_spec(self@),
    {
        let ghost v = self@;
        match self.styp {
            Some(mut b) => out.append(&mut b),
            None => {},
        }
        match self.sidx {
            Some(mut b) => out.append(&mut b),
            None => {},
        }
        match self.moof {
            Some(mut b) => out.append(&mut b),
            None => {},
        }
        match self.mdat {
            Some(mut b) => out.append(&mut b),
            None => {},
        }
        assert(final(out)@ =~= old(out)@ + write_spec(v));
    }
}


/// The sequence number of a `moof` box, read from its movie fragment header.
pub open spec fn moof_segno(m: Seq<u8>) -> Option<nat> {
    match find_child(m, hdr_len(m) as int, m.len() as int, MFHD) {
        Some((p, h, l)) => if l >= h + 8 {
            Some(be32(m, p + h + 4))
        } else {
            None
        },
        None => None,
    }
}

/// Writing behind the header of the box that a search finds does not change what it finds.
proof fn lemma_find_child_unchanged(b: Seq<u8>, b2: Seq<u8>, pos: int, end: int, kind: u32, lo: int)
    requires
        0 <= pos,
        end <= b.len(),
        b2.len() == b.len(),
        find_child(b, pos, end, kind) matches Some((p, h, l)) && p + h <= lo,
        forall|i: int| 0 <= i < lo ==> b2[i] == b[i],
    ensures
        find_child(b2, pos, end, kind) == find_child(b, pos, end, kind),
    decreases end - pos,
{
    if pos < end {
        match box_at(b, pos, end) {
            Err(_) => {},
            Ok((k, h, l)) => {
                if k != kind {
                    lemma_find_child_box(b, pos + l, end, kind);
                }
                assert(pos + h <= lo);
                assert(box_at(b2, pos, end) == box_at(b, pos, end));
                if k != kind {
                    lemma_find_child_unchanged(b, b2, pos + l, end, kind, lo);
                }
            },
        }
    }
}

/// The big endian form of a 32 bit number reads back as the number.
proof fn lemma_be32_put32(b: Seq<u8>, i: int, x: nat)
    requires
        0 <= i,
        i + 4 <= b.len(),
        x < 4294967296,
    ensures
        be32(put32(b, i, x), i) == x,
        put32(b, i, x).len() == b.len(),
        forall|j: int| 0 <= j < b.len() && !(i <= j < i + 4) ==> put32(b, i, x)[j] == b[j],
{
    let b2 = put32(b, i, x);
    assert(b2[i] == (x / 16777216 % 256) as u8);
    assert(b2[i + 1] == (x / 65536 % 256) as u8);
    assert(b2[i + 2] == (x / 256 % 256) as u8);
    assert(b2[i + 3] == (x % 256) as u8);
    assert((x / 16777216 % 256) * 16777216 + (x / 65536 % 256) * 65536 + (x / 256 % 256) * 256 + x % 256
        == x) by (nonlinear_arith)
        requires
            x < 4294967296,
    ;
}

/// The sequence number written into a `moof` box is the one read back from it.
pub proof fn lemma_segno_reads_back(m: Seq<u8>, seq: nat)
    requires
        seq < 4294967296,
        moof_segno(m) is Some,
    ensures
        moof_segno(moof_with_segno(m, seq)) == Some(seq),
{
    let start = hdr_len(m) as int;
    match find_child(m, start, m.len() as int, MFHD) {
        Some((p, h, l)) => {
            lemma_find_child_box(m, start, m.len() as int, MFHD);
            let m2 = put32(m, p + h + 4, seq);
            lemma_be32_put32(m, p + h + 4, seq);
            assert(hdr_len(m2) == hdr_len(m)) by {
                if m.len() >= 4 {
                    assert(be32(m2, 0) == be32(m, 0));
                }
            }
            lemma_find_child_unchanged(m, m2, start, m.len() as int, MFHD, p + h + 4);
        },
        None => {},
    }
}

/// The segment numbering is what `set_segno` asks for whenever the segment has a readable
/// movie fragment header.
pub proof fn lemma_set_segno(s: SegmentView, seq: nat)
    requires
        seq < 4294967296,
        s.moof matches Some(m) && moof_segno(m) is Some,
    ensures
        set_segno_spec(s, seq).moof matches Some(m2) && moof_segno(m2) == Some(seq),
        set_segno_spec(s, seq).styp == s.styp,
        set_segno_spec(s, seq).sidx == s.sidx,
        set_segno_spec(s, seq).mdat == s.mdat,
{
    lemma_segno_reads_back(s.moof->0, seq);
}

/// A segment always has a `styp` box after `gen_styp`, which leaves one that is there
/// alone, and doing it twice is doing it once.
pub proof fn lemma_gen_styp(s: SegmentView)
    ensures
        gen_styp_spec(s).styp is Some,
        s.styp is Some ==> gen_styp_spec(s) == s,
        gen_styp_spec(gen_styp_spec(s)) == gen_styp_spec(s),
        gen_styp_spec(s).moof == s.moof && gen_styp_spec(s).mdat == s.mdat && gen_styp_spec(s).sidx == s.sidx,
{
}

/// Reads the segments of `b` from `pos` on, one after the other, to the end of the data.
pub open spec fn parse_all(b: Seq<u8>, pos: int) -> Result<Seq<SegmentView>, Seq<char>>
    decreases b.len() - pos,
{
    if pos < 0 || pos >= b.len() {
        Ok(Seq::empty())
    } else {
        match parse_segment(b, pos, empty_segment()) {
            Err(m) => Err(m),
            Ok((s, p)) => {
                proof {
                    lemma_parse_segment_advances(b, pos, empty_segment());
                }
                match parse_all(b, p) {
                    Ok(rest) => Ok(seq![s] + rest),
                    Err(m) => Err(m),
                }
            },
        }
    }
}

/// The bytes of the segments `segs`, each with a `styp` box and numbered from `seq` on.
pub open spec fn patched(segs: Seq<SegmentView>, seq: nat) -> Seq<u8>
    decreases segs.len(),
{
    if segs.len() == 0 {
        Seq::empty()
    } else {
        patched(segs.drop_last(), seq) + write_spec(
            set_segno_spec(gen_styp_spec(segs.last()), (seq + segs.len() - 1) as nat),
        )
    }
}

/// Patched segments keep their order: the bytes of the first `j` patched segments begin
/// the bytes of all of them.
pub proof fn lemma_patched_prefix(segs: Seq<SegmentView>, seq: nat, j: int)
    requires
        0 <= j <= segs.len(),
    ensures
        patched(segs.take(j), seq).is_prefix_of(patched(segs, seq)),
    decreases segs.len(),
{
    if j == segs.len() {
        assert(segs.take(j) =~= segs);
        assert(patched(segs, seq) =~= patched(segs, seq).subrange(0, patched(segs, seq).len() as int));
    } else {
        let init = segs.drop_last();
        lemma_patched_prefix(init, seq, j);
        assert(init.take(j) =~= segs.take(j));
        let a = patched(segs.take(j), seq);
        let b = patched(init, seq);
        let c = patched(segs, seq);
        assert(c == b + write_spec(set_segno_spec(gen_styp_spec(segs.last()), (seq + segs.len() - 1) as nat)));
        assert(a =~= c.subrange(0, a.len() as int)) by {
            assert forall|i: int| 0 <= i < a.len() implies a[i] == c.subrange(0, a.len() as int)[i] by {
                assert(a[i] == b.subrange(0, a.len() as int)[i]);
                assert(b[i] == c[i]);
            }
        }
    }
}

/// In a patched segment file the segments come in their original order, the `k`-th of them
/// with a `styp` box and numbered `seq + k` whenever it has a readable movie fragment header.
pub proof fn lemma_patched_numbers_consecutively(segs: Seq<SegmentView>, seq: nat, k: int)
    requires
        0 <= k < segs.len(),
        seq + segs.len() <= 4294967296,
    ensures
        ({
            let w = set_segno_spec(gen_styp_spec(segs[k]), (seq + k) as nat);
            &&& (patched(segs.take(k), seq) + write_spec(w)).is_prefix_of(patched(segs, seq))
            &&& w.styp is Some
            &&& w.sidx == segs[k].sidx && w.mdat == segs[k].mdat
            &&& (segs[k].moof matches Some(m) && moof_segno(m) is Some) ==> (w.moof matches Some(m2)
                && moof_segno(m2) == Some((seq + k) as nat))
        }),
{
    let first = segs.take(k + 1);
    lemma_patched_prefix(segs, seq, k + 1);
    assert(first.drop_last() =~= segs.take(k));
    assert(first.last() == segs[k]);
    lemma_gen_styp(segs[k]);
    if segs[k].moof matches Some(m) && moof_segno(m) is Some {
        lemma_set_segno(gen_styp_spec(segs[k]), (seq + k) as nat);
    }
}

/// Reads all segments of a segment file, one after the other.
pub fn parse_segments(data: &[u8]) -> (r: Result<Vec<Segment>, NightfallError>)
    ensures
        match parse_all(data@, 0) {
            Err(m) => r matches Err(NightfallError::SegmentPatchError(e)) && e@ == m,
            Ok(segs) => r matches Ok(v) && segment_views(v@) == segs,
        },
{
    let len = data.len();
    let mut segments: Vec<Segment> = Vec::new();
    let mut current: usize = 0;
    assert(segment_views(segments@) =~= Seq::<SegmentView>::empty());
    assert(parse_all(data@, 0) == (match parse_all(data@, 0) {
        Ok(rest) => Ok(Seq::<SegmentView>::empty() + rest),
        Err(m) => Err::<Seq<SegmentView>, Seq<char>>(m),
    })) by {
        match parse_all(data@, 0) {
            Ok(rest) => {
                assert(Seq::<SegmentView>::empty() + rest =~= rest);
            },
            Err(_) => {},
        }
    }
    while current < len
        invariant
            len == data@.len(),
            current <= len,
            parse_all(data@, 0) == (match parse_all(data@, current as int) {
                Ok(rest) => Ok(segment_views(segments@) + rest),
                Err(m) => Err::<Seq<SegmentView>, Seq<char>>(m),
            }),
        decreases len - current,
    {
        proof {
            lemma_parse_segment_advances(data@, current as int, empty_segment());
        }
        match Segment::from_reader(data, current) {
            Err(e) => {
                return Err(e);
            },
            Ok((seg, next)) => {
                let ghost old_views = segment_views(segments@);
                let ghost sv = seg@;
                segments.push(seg);
                proof {
                    assert(segment_views(segments@) =~= old_views.push(sv));
                    match parse_all(data@, next as int) {
                        Ok(rest) => {
                            assert(old_views + (seq![sv] + rest) =~= old_views.push(sv) + rest);
                        },
                        Err(_) => {},
                    }
                }
                current = next;
            },
        }
    }
    assert(segment_views(segments@) + Seq::<SegmentView>::empty() =~= segment_views(segments@));
    Ok(segments)
}

/// Gives each of the segments `queue` a `styp` box and numbers them from `seq` on: the bytes
/// of the segment file and the number of the next segment.
fn number_segments(queue: Vec<Segment>, seq: u32) -> (r: (Vec<u8>, u32))
    requires
        seq + queue@.len() <= u32::MAX,
    ensures
        r.0@ == patched(segment_views(queue@), seq as nat),
        r.1 == seq + queue@.len(),
{
    let mut queue = queue;
    let ghost all = segment_views(queue@);
    let total = queue.len();
    let mut out: Vec<u8> = Vec::new();
    let mut n: u32 = 0;
    assert(out@ =~= patched(all.take(0), seq as nat));
    while n < total as u32
        invariant
            total == all.len(),
            seq + total <= u32::MAX,
            n <= total,
            queue@.len() == total - n,
            forall|k: int| 0 <= k < queue@.len() ==> #[trigger] queue@[k]@ == all[n + k],
            out@ == patched(all.take(n as int), seq as nat),
        decreases total - n,
    {
        let s = queue.remove(0);
        assert(s@ == all[n as int]);
        s.gen_styp().set_segno(seq + n).write(&mut out);
        proof {
            assert(all.take(n + 1).drop_last() =~= all.take(n as int));
        }
        n = n + 1;
    }
    assert(all.take(n as int) =~= all);
    (out, seq + n)
}

/// Whether the segments of a file are one bare `styp` box: the data of such a partial
/// segment is in the initialisation segment.
pub open spec fn is_partial(segs: Seq<SegmentView>) -> bool {
    segs.len() == 1 && is_empty_spec(segs[0])
}

/// Reads the segments of a segment file and numbers them from `seq` on, giving each a `styp`
/// box. Returns the new bytes of the file and the number of the next segment. A file that
/// holds nothing but a bare `styp` box is partial: its data is in the initialisation segment,
/// and the error carries the segment that was read.
pub fn patch_segment(data: &[u8], seq: u32) -> (r: Result<(Vec<u8>, u32), NightfallError>)
    requires
        match parse_all(data@, 0) {
            Ok(segs) => !is_partial(segs) ==> seq + segs.len() <= u32::MAX,
            Err(_) => true,
        },
    ensures
        match parse_all(data@, 0) {
            Err(m) => r matches Err(NightfallError::SegmentPatchError(e)) && e@ == m,
            Ok(segs) => if is_partial(segs) {
                r matches Err(NightfallError::PartialSegment(s)) && s@ == segs[0]
            } else {
                r matches Ok((out, next)) && out@ == patched(segs, seq as nat) && next == seq + segs.len()
            },
        },
{
    let mut queue = match parse_segments(data) {
        Ok(v) => v,
        Err(e) => {
            return Err(e);
        },
    };
    if queue.len() == 1 && queue[0].is_empty_segment() {
        let s = queue.remove(0);
        return Err(NightfallError::PartialSegment(s));
    }
    Ok(number_segments(queue, seq))
}

/// `patch_segment` where the numbers of the segments fit in 32 bits; `None` when the last of
/// them would not.
pub fn try_patch_segment(data: &[u8], seq: u32) -> (r: Option<Result<(Vec<u8>, u32), NightfallError>>)
    ensures
        match parse_all(data@, 0) {
            Err(m) => r matches Some(Err(NightfallError::SegmentPatchError(e))) && e@ == m,
            Ok(segs) => if is_partial(segs) {
                r matches Some(Err(NightfallError::PartialSegment(s))) && s@ == segs[0]
            } else if seq + segs.len() > u32::MAX {
                r is None
            } else {
                r matches Some(Ok((out, next))) && out@ == patched(segs, seq as nat) && next == seq + segs.len()
            },
        },
{
    let mut queue = match parse_segments(data) {
        Ok(v) => v,
        Err(e) => {
            return Some(Err(e));
        },
    };
    if queue.len() == 1 && queue[0].is_empty_segment() {
        let s = queue.remove(0);
        return Some(Err(NightfallError::PartialSegment(s)));
    }
    if queue.len() > (u32::MAX - seq) as usize {
        return None;
    }
    Some(Ok(number_segments(queue, seq)))
}

/// The big endian form of a 32 bit number reads back as the number.
proof fn lemma_be32_bytes32(x: nat)
    requires
        x < 4294967296,
    ensures
        be32(bytes32(x), 0) == x,
{
    let b = bytes32(x);
    assert(b[0] == (x / 16777216 % 256) as u8);
    assert(b[1] == (x / 65536 % 256) as u8);
    assert(b[2] == (x / 256 % 256) as u8);
    assert(b[3] == (x % 256) as u8);
    assert((x / 16777216 % 256) * 16777216 + (x / 65536 % 256) * 65536 + (x / 256 % 256) * 256 + x % 256
        == x) by (nonlinear_arith)
        requires
            x < 4294967296,
    ;
}

/// A version 0 `sidx` box (32 bit times) with no references: reference id, timescale and
/// earliest presentation time `ept`.
pub open spec fn sidx_v0_box(reference_id: nat, timescale: nat, ept: nat) -> Seq<u8> {
    bytes32(32) + bytes32(SIDX as nat) + seq![0u8, 0, 0, 0] + bytes32(reference_id) + bytes32(timescale)
        + bytes32(ept) + bytes32(0) + bytes32(0)
}

/// A version 1 `sidx` box (64 bit times, as ffmpeg writes it) with no references: reference
/// id, timescale and earliest presentation time `ept`.
pub open spec fn sidx_v1_box(reference_id: nat, timescale: nat, ept: nat) -> Seq<u8> {
    bytes32(40) + bytes32(SIDX as nat) + seq![1u8, 0, 0, 0] + bytes32(reference_id) + bytes32(timescale)
        + bytes32(ept / 4294967296) + bytes32(ept % 4294967296) + bytes32(0) + bytes32(0) + bytes32(0)
}

/// The 32 bit big endian number at `i` of `s`, whose four bytes there are those of `x`.
proof fn lemma_be32_of(s: Seq<u8>, i: int, x: nat)
    requires
        0 <= i,
        i + 4 <= s.len(),
        x < 4294967296,
        s.subrange(i, i + 4) == bytes32(x),
    ensures
        be32(s, i) == x,
{
    lemma_be32_bytes32(x);
    assert(s[i] == s.subrange(i, i + 4)[0]);
    assert(s[i + 1] == s.subrange(i, i + 4)[1]);
    assert(s[i + 2] == s.subrange(i, i + 4)[2]);
    assert(s[i + 3] == s.subrange(i, i + 4)[3]);
}

/// A number below 2^64 is its high 32 bits times 2^32 plus its low 32 bits.
proof fn lemma_split64(ept: nat)
    requires
        ept < 18446744073709551616,
    ensures
        ept / 4294967296 < 4294967296,
        ept % 4294967296 < 4294967296,
        (ept / 4294967296) * 4294967296 + ept % 4294967296 == ept,
{
    assert(ept / 4294967296 < 4294967296 && (ept / 4294967296) * 4294967296 + ept % 4294967296 == ept)
        by (nonlinear_arith)
        requires
            ept < 18446744073709551616,
    ;
}

/// The earliest presentation time read from a version 1 `sidx` box, as ffmpeg writes it, is
/// the whole 64 bit number it was written with.
#[verifier::rlimit(50)]
pub proof fn lemma_sidx_v1_ept(reference_id: nat, timescale: nat, ept: nat)
    requires
        reference_id < 4294967296,
        timescale < 4294967296,
        ept < 18446744073709551616,
    ensures
        sidx_ept(sidx_v1_box(reference_id, timescale, ept)) == Some(ept),
{
    lemma_split64(ept);
    let hi = ept / 4294967296;
    let lo = ept % 4294967296;
    let a = bytes32(40) + bytes32(SIDX as nat) + seq![1u8, 0, 0, 0] + bytes32(reference_id) + bytes32(timescale);
    let b = a + bytes32(hi) + bytes32(lo);
    let z = bytes32(0);
    let b1 = sidx_v1_box(reference_id, timescale, ept);
    assert(b1 == b + z + z + z);
    assert(a.len() == 20);
    assert(b1.len() == 40);
    assert(b1.subrange(0, 4) =~= bytes32(40));
    lemma_be32_of(b1, 0, 40);
    assert(hdr_len(b1) == 8);
    assert(b1[8] == 1u8);
    assert(b1.subrange(20, 24) =~= bytes32(hi));
    assert(b1.subrange(24, 28) =~= bytes32(lo));
    lemma_be32_of(b1, 20, hi);
    lemma_be32_of(b1, 24, lo);
}

/// The earliest presentation time read from a version 0 `sidx` box is the 32 bit number it
/// was written with.
#[verifier::rlimit(50)]
pub proof fn lemma_sidx_v0_ept(reference_id: nat, timescale: nat, ept: nat)
    requires
        reference_id < 4294967296,
        timescale < 4294967296,
        ept < 4294967296,
    ensures
        sidx_ept(sidx_v0_box(reference_id, timescale, ept)) == Some(ept),
{
    let a = bytes32(32) + bytes32(SIDX as nat) + seq![0u8, 0, 0, 0] + bytes32(reference_id) + bytes32(timescale);
    let z = bytes32(0);
    let b0 = sidx_v0_box(reference_id, timescale, ept);
    assert(b0 == a + bytes32(ept) + z + z);
    assert(a.len() == 20);
    assert(b0.len() == 32);
    assert(b0.subrange(0, 4) =~= bytes32(32));
    lemma_be32_of(b0, 0, 32);
    assert(hdr_len(b0) == 8);
    assert(b0[8] == 0u8);
    assert(b0.subrange(20, 24) =~= bytes32(ept));
    lemma_be32_of(b0, 20, ept);
}

/// The version byte of the `tfdt` box of the first track fragment of the `moof` box `m`.
pub open spec fn tfdt_version(m: Seq<u8>) -> Option<u8> {
    match find_child(m, hdr_len(m) as int, m.len() as int, TRAF) {
        Some((tp, th, tl)) => match find_child(m, tp + th, tp + tl, TFDT) {
            Some((p, h, l)) => if l < h + 8 {
                None
            } else {
                Some(m[p + h])
            },
            None => None,
        },
        None => None,
    }
}

/// The decode time of the first track fragment of the `moof` box `m`, read from its `tfdt`
/// box: 64 bits for version 1, else 32 bits.
pub open spec fn moof_dts(m: Seq<u8>) -> Option<nat> {
    match find_child(m, hdr_len(m) as int, m.len() as int, TRAF) {
        Some((tp, th, tl)) => match find_child(m, tp + th, tp + tl, TFDT) {
            Some((p, h, l)) => if l < h + 8 {
                None
            } else if m[p + h] == 1 {
                if l >= h + 12 {
                    Some(be64(m, p + h + 4))
                } else {
                    None
                }
            } else {
                Some(be32(m, p + h + 4))
            },
            None => None,
        },
        None => None,
    }
}

/// The header length of a box is not changed by writing behind its first four bytes.
proof fn lemma_hdr_len_kept(m: Seq<u8>, m2: Seq<u8>)
    requires
        m2.len() == m.len(),
        forall|i: int| 0 <= i < 8 && i < m.len() ==> m2[i] == m[i],
    ensures
        hdr_len(m2) == hdr_len(m),
{
    if m.len() >= 4 {
        assert(be32(m2, 0) == be32(m, 0));
    }
}

/// Where the `tfdt` box of the first track fragment of `m` is: the start of its payload and
/// its payload length.
pub open spec fn tfdt_at(m: Seq<u8>) -> Option<(int, int)> {
    match find_child(m, hdr_len(m) as int, m.len() as int, TRAF) {
        Some((tp, th, tl)) => match find_child(m, tp + th, tp + tl, TFDT) {
            Some((p, h, l)) => Some((p + h, l - h)),
            None => None,
        },
        None => None,
    }
}

/// The `tfdt` box is found at the same place after writing behind the start of its payload,
/// and lies within the box.
proof fn lemma_tfdt_at_kept(m: Seq<u8>, m2: Seq<u8>, q: int)
    requires
        tfdt_at(m) matches Some((a, n)) && a <= q,
        m2.len() == m.len(),
        forall|i: int| 0 <= i < q ==> m2[i] == m[i],
    ensures
        tfdt_at(m2) == tfdt_at(m),
        tfdt_at(m) matches Some((a, n)) && 8 <= a && 0 <= n && a + n <= m.len(),
        hdr_len(m2) == hdr_len(m),
{
    let start = hdr_len(m) as int;
    lemma_find_child_box(m, start, m.len() as int, TRAF);
    let (tp, th, tl) = find_child(m, start, m.len() as int, TRAF)->0;
    lemma_find_child_box(m, tp + th, tp + tl, TFDT);
    let (p, h, l) = find_child(m, tp + th, tp + tl, TFDT)->0;
    lemma_hdr_len_kept(m, m2);
    lemma_find_child_unchanged(m, m2, start, m.len() as int, TRAF, q);
    lemma_find_child_unchanged(m, m2, tp + th, tp + tl, TFDT, q);
}

/// How `moof_dts`, `tfdt_version` and `moof_with_dts` read and write at the `tfdt` payload.
proof fn lemma_tfdt_fields(m: Seq<u8>, t: nat)
    requires
        tfdt_at(m) is Some,
    ensures
        ({
            let (a, n) = tfdt_at(m)->0;
            &&& tfdt_version(m) == (if n < 8 { None } else { Some(m[a]) })
            &&& moof_dts(m) == (if n < 8 {
                None
            } else if m[a] == 1 {
                if n >= 12 {
                    Some(be64(m, a + 4))
                } else {
                    None
                }
            } else {
                Some(be32(m, a + 4))
            })
            &&& moof_with_dts(m, t) == (if n < 8 {
                m
            } else if m[a] == 1 {
                if n >= 12 {
                    put64(m, a + 4, t)
                } else {
                    m
                }
            } else {
                put32(m, a + 4, t % 4294967296)
            })
        }),
{
}

/// Writing a 64 bit decode time into a version 1 `tfdt` payload at `a` reads back.
proof fn lemma_dts_v1(m: Seq<u8>, a: int, n: int, t: nat)
    requires
        tfdt_at(m) == Some((a, n)),
        n >= 12,
        t < 18446744073709551616,
    ensures
        tfdt_at(put64(m, a + 4, t)) == tfdt_at(m),
        put64(m, a + 4, t)[a] == m[a],
        be64(put64(m, a + 4, t), a + 4) == t,
{
    lemma_tfdt_at_kept(m, m, a);
    lemma_split64(t);
    let q = a + 4;
    let hi = t / 4294967296 % 4294967296;
    let lo = t % 4294967296;
    assert(hi == t / 4294967296);
    let m1 = put32(m, q, hi);
    let m2 = put32(m1, q + 4, lo);
    assert(be32(m2, q) == hi && m2.len() == m.len() && forall|i: int| 0 <= i < q ==> m2[i] == m[i]) by {
        lemma_be32_put32(m, q, hi);
        lemma_be32_put32(m1, q + 4, lo);
        assert(be32(m2, q) == be32(m1, q));
    }
    assert(be32(m2, q + 4) == lo) by {
        lemma_be32_put32(m1, q + 4, lo);
    }
    assert(m2 == put64(m, q, t));
    lemma_tfdt_at_kept(m, m2, q);
}

/// Writing a 32 bit decode time into a version 0 `tfdt` payload at `a` reads back.
proof fn lemma_dts_v0(m: Seq<u8>, a: int, n: int, t: nat)
    requires
        tfdt_at(m) == Some((a, n)),
        n >= 8,
        t < 4294967296,
    ensures
        tfdt_at(put32(m, a + 4, t)) == tfdt_at(m),
        put32(m, a + 4, t)[a] == m[a],
        be32(put32(m, a + 4, t), a + 4) == t,
{
    lemma_tfdt_at_kept(m, m, a);
    lemma_be32_put32(m, a + 4, t);
    lemma_tfdt_at_kept(m, put32(m, a + 4, t), a + 4);
}

/// The decode time written into a `moof` box is the one read back from it: the whole number
/// for a version 1 `tfdt` box, its low 32 bits for a version 0 one.
pub proof fn lemma_dts_reads_back(m: Seq<u8>, t: nat)
    requires
        t < 18446744073709551616,
        moof_dts(m) is Some,
    ensures
        tfdt_version(moof_with_dts(m, t)) == tfdt_version(m),
        tfdt_version(m) == Some(1u8) ==> moof_dts(moof_with_dts(m, t)) == Some(t),
        tfdt_version(m) != Some(1u8) ==> moof_dts(moof_with_dts(m, t)) == Some(t % 4294967296),
{
    assert(tfdt_at(m) is Some);
    lemma_tfdt_fields(m, t);
    let (a, n) = tfdt_at(m)->0;
    let m2 = moof_with_dts(m, t);
    if m[a] == 1 {
        lemma_dts_v1(m, a, n, t);
    } else {
        assert(t % 4294967296 < 4294967296);
        lemma_dts_v0(m, a, n, t % 4294967296);
    }
    lemma_tfdt_fields(m2, t);
}

/// The earliest presentation time of a `sidx` box fits in 64 bits.
proof fn lemma_sidx_ept_bound(x: Seq<u8>)
    requires
        sidx_ept(x) is Some,
    ensures
        sidx_ept(x)->0 < 18446744073709551616,
{
    let h = hdr_len(x);
    if x[h as int] != 0 {
        let a = be32(x, h + 12int);
        let b = be32(x, h + 16int);
        assert(a < 4294967296 && b < 4294967296);
        assert(a * 4294967296 + b < 18446744073709551616) by (nonlinear_arith)
            requires
                a < 4294967296,
                b < 4294967296,
        ;
    }
}

/// After `normalize_dts` a segment's decode time, read back from its `moof` box, is the
/// earliest presentation time of its `sidx` box (whole for a version 1 `tfdt` box, and
/// whenever it fits in 32 bits).
pub proof fn lemma_normalize_dts_sets_ept(s: SegmentView)
    requires
        s.moof matches Some(m) && moof_dts(m) is Some,
        s.sidx matches Some(x) && sidx_ept(x) is Some,
    ensures
        ({
            let m = s.moof->0;
            let e = sidx_ept(s.sidx->0)->0;
            &&& normalize_dts_spec(s).moof matches Some(m2)
            &&& (tfdt_version(m) == Some(1u8) || e < 4294967296) ==> moof_dts(m2) == Some(e)
            &&& normalize_dts_spec(s).sidx == s.sidx && normalize_dts_spec(s).mdat == s.mdat
                && normalize_dts_spec(s).styp == s.styp
        }),
{
    let m = s.moof->0;
    let e = sidx_ept(s.sidx->0)->0;
    lemma_sidx_ept_bound(s.sidx->0);
    lemma_dts_reads_back(m, e);
    if e < 4294967296 {
        assert(e % 4294967296 == e);
    }
}

} // verus!
