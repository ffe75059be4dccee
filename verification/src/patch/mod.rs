//! Patching of fragmented MP4 (fMP4) segments, so that segments of restarted ffmpeg
//! processes continue each other: box layout, reading and rewriting of the few fields
//! that are patched.
use vstd::prelude::*;

pub mod init_segment;
pub mod segment;

verus! {

/// The four character codes of the boxes that patching looks at.
pub const FTYP: u32 = 0x66747970;
pub const MOOV: u32 = 0x6d6f6f76;
pub const MOOF: u32 = 0x6d6f6f66;
pub const MDAT: u32 = 0x6d646174;
pub const SIDX: u32 = 0x73696478;
pub const STYP: u32 = 0x73747970;
pub const MFHD: u32 = 0x6d666864;
pub const TRAF: u32 = 0x74726166;
pub const TFDT: u32 = 0x74666474;

/// The big endian 32 bit number at `i`.
pub open spec fn be32(b: Seq<u8>, i: int) -> nat {
    (b[i] as nat) * 16777216 + (b[i + 1] as nat) * 65536 + (b[i + 2] as nat) * 256 + (b[i + 3] as nat)
}

/// The big endian 64 bit number at `i`.
pub open spec fn be64(b: Seq<u8>, i: int) -> nat {
    be32(b, i) * 4294967296 + be32(b, i + 4)
}

/// `b` with the big endian 32 bit form of `x` written at `i`.
pub open spec fn put32(b: Seq<u8>, i: int, x: nat) -> Seq<u8> {
    b.update(i, (x / 16777216 % 256) as u8).update(i + 1, (x / 65536 % 256) as u8).update(
        i + 2,
        (x / 256 % 256) as u8,
    ).update(i + 3, (x % 256) as u8)
}

/// `b` with the big endian 64 bit form of `x` written at `i`.
pub open spec fn put64(b: Seq<u8>, i: int, x: nat) -> Seq<u8> {
    put32(put32(b, i, x / 4294967296 % 4294967296), i + 4, x % 4294967296)
}

/// The big endian 32 bit form of `x`.
pub open spec fn bytes32(x: nat) -> Seq<u8> {
    seq![(x / 16777216 % 256) as u8, (x / 65536 % 256) as u8, (x / 256 % 256) as u8, (x % 256) as u8]
}

/// The box that starts at `pos` and ends before `end`: its type, the length of its header
/// and its whole length. A size field of 1 means a 64 bit size follows the type; a box
/// must hold at least its header and fit before `end`.
pub open spec fn box_at(b: Seq<u8>, pos: int, end: int) -> Result<(u32, nat, nat), Seq<char>> {
    if pos + 8 > end {
        Err("failed to fill whole buffer"@)
    } else {
        let size = be32(b, pos);
        let kind = be32(b, pos + 4) as u32;
        if size == 1 {
            if pos + 16 > end {
                Err("failed to fill whole buffer"@)
            } else if be64(b, pos + 8) < 16 {
                Err("64-bit box size too small"@)
            } else if pos + be64(b, pos + 8) > end {
                Err("failed to fill whole buffer"@)
            } else {
                Ok((kind, 16nat, be64(b, pos + 8)))
            }
        } else if size < 8 {
            Err("box size too small"@)
        } else if pos + size > end {
            Err("failed to fill whole buffer"@)
        } else {
            Ok((kind, 8nat, size))
        }
    }
}

/// Whether a box of another type than `sidx`, `moof`, `mdat` and `styp` starts at `pos`
/// with a well formed header and a length that runs past the end of the data: a segment
/// reader skips such a box by seeking past it, which ends the data.
pub open spec fn truncated_other_box(b: Seq<u8>, pos: int) -> bool {
    &&& 0 <= pos
    &&& pos + 8 <= b.len()
    &&& {
        let kind = be32(b, pos + 4);
        kind != SIDX as nat && kind != MOOF as nat && kind != MDAT as nat && kind != STYP as nat
    }
    &&& if be32(b, pos) == 1 {
        pos + 16 <= b.len() && be64(b, pos + 8) >= 16 && pos + be64(b, pos + 8) > b.len()
    } else {
        be32(b, pos) >= 8 && pos + be32(b, pos) > b.len()
    }
}

/// Checks `truncated_other_box`.
pub fn is_truncated_other_box(b: &[u8], pos: usize) -> (r: bool)
    ensures
        r == truncated_other_box(b@, pos as int),
{
    let len = b.len();
    if pos > len || len - pos < 8 {
        return false;
    }
    let kind = read32(b, pos + 4);
    if kind == SIDX as u64 || kind == MOOF as u64 || kind == MDAT as u64 || kind == STYP as u64 {
        return false;
    }
    let size = read32(b, pos);
    if size == 1 {
        if len - pos < 16 {
            return false;
        }
        let large = read64(b, pos + 8);
        large >= 16 && large > (len - pos) as u64
    } else {
        size >= 8 && size > (len - pos) as u64
    }
}

/// The first child box of type `kind` among the boxes from `pos` to `end`: its start,
/// header length and length. The search stops at the first malformed box.
pub open spec fn find_child(b: Seq<u8>, pos: int, end: int, kind: u32) -> Option<(int, nat, nat)>
    decreases end - pos,
{
    if pos >= end {
        None
    } else {
        match box_at(b, pos, end) {
            Err(_) => None,
            Ok((k, h, l)) => if k == kind {
                Some((pos, h, l))
            } else {
                find_child(b, pos + l, end, kind)
            },
        }
    }
}

/// Reads the big endian 32 bit number at `i`.
pub fn read32(b: &[u8], i: usize) -> (r: u64)
    requires
        i + 4 <= b@.len(),
    ensures
        r == be32(b@, i as int),
{
    (b[i] as u64) * 16777216 + (b[i + 1] as u64) * 65536 + (b[i + 2] as u64) * 256 + (b[i + 3] as u64)
}

/// Reads the big endian 64 bit number at `i`.
pub fn read64(b: &[u8], i: usize) -> (r: u64)
    requires
        i + 8 <= b@.len(),
    ensures
        r == be64(b@, i as int),
{
    let len = b.len();
    assert(i + 8 <= len);
    let hi = read32(b, i);
    let lo = read32(b, i + 4);
    hi * 4294967296 + lo
}

/// Writes the big endian 32 bit form of `x` at `i`.
pub fn write32(b: &mut Vec<u8>, i: usize, x: u64)
    requires
        i + 4 <= old(b)@.len(),
    ensures
        final(b)@ == put32(old(b)@, i as int, x as nat),
{
    let len = b.len();
    assert(i + 4 <= len);
    b.set(i, (x / 16777216 % 256) as u8);
    b.set(i + 1, (x / 65536 % 256) as u8);
    b.set(i + 2, (x / 256 % 256) as u8);
    b.set(i + 3, (x % 256) as u8);
}

/// Writes the big endian 64 bit form of `x` at `i`.
pub fn write64(b: &mut Vec<u8>, i: usize, x: u64)
    requires
        i + 8 <= old(b)@.len(),
    ensures
        final(b)@ == put64(old(b)@, i as int, x as nat),
{
    let len = b.len();
    assert(i + 8 <= len);
    write32(b, i, x / 4294967296 % 4294967296);
    write32(b, i + 4, x % 4294967296);
}

/// Appends the big endian 32 bit form of `x`.
pub fn push32(b: &mut Vec<u8>, x: u64)
    ensures
        final(b)@ == old(b)@ + bytes32(x as nat),
{
    b.push((x / 16777216 % 256) as u8);
    b.push((x / 65536 % 256) as u8);
    b.push((x / 256 % 256) as u8);
    b.push((x % 256) as u8);
    assert(b@ =~= old(b)@ + bytes32(x as nat));
}

/// Reads the box that starts at `pos` and ends before `end`.
pub fn read_box_at(b: &[u8], pos: usize, end: usize) -> (r: Result<(u32, usize, usize), String>)
    requires
        end <= b@.len(),
    ensures
        match r {
            Ok((k, h, l)) => box_at(b@, pos as int, end as int) == Ok::<(u32, nat, nat), Seq<char>>(
                (k, h as nat, l as nat),
            ),
            Err(m) => box_at(b@, pos as int, end as int) == Err::<(u32, nat, nat), Seq<char>>(m@),
        },
{
    if pos > end || end - pos < 8 {
        return Err(String::from_str("failed to fill whole buffer"));
    }
    let size = read32(b, pos);
    let kind = read32(b, pos + 4) as u32;
    if size == 1 {
        if end - pos < 16 {
            return Err(String::from_str("failed to fill whole buffer"));
        }
        let large = read64(b, pos + 8);
        if large < 16 {
            return Err(String::from_str("64-bit box size too small"));
        }
        if large > (end - pos) as u64 {
            return Err(String::from_str("failed to fill whole buffer"));
        }
        Ok((kind, 16, large as usize))
    } else if size < 8 {
        Err(String::from_str("box size too small"))
    } else if size > (end - pos) as u64 {
        Err(String::from_str("failed to fill whole buffer"))
    } else {
        Ok((kind, 8, size as usize))
    }
}

/// Finds the first child box of type `kind` among the boxes from `pos` to `end`.
pub fn find_child_box(b: &[u8], pos: usize, end: usize, kind: u32) -> (r: Option<(usize, usize, usize)>)
    requires
        end <= b@.len(),
    ensures
        match r {
            Some((p, h, l)) => find_child(b@, pos as int, end as int, kind) == Some((p as int, h as nat, l as nat)),
            None => find_child(b@, pos as int, end as int, kind) is None,
        },
    decreases end - pos,
{
    if pos >= end {
        return None;
    }
    match read_box_at(b, pos, end) {
        Err(_) => None,
        Ok((k, h, l)) => {
            if k == kind {
                Some((pos, h, l))
            } else {
                find_child_box(b, pos + l, end, kind)
            }
        },
    }
}


/// The length of the header of a stored box.
pub open spec fn hdr_len(b: Seq<u8>) -> nat {
    if b.len() >= 4 && be32(b, 0) == 1 {
        16
    } else {
        8
    }
}

/// The header that mp4 writes for a box of type `kind` whose size field (the payload
/// length plus 8) is `size`: a 32 bit size and the type, or, above 32 bits, the marker 1,
/// the type and the 64 bit size.
pub open spec fn header_bytes(kind: u32, size: nat) -> Seq<u8> {
    if size > u32::MAX {
        bytes32(1) + bytes32(kind as nat) + bytes32(size / 4294967296 % 4294967296) + bytes32(
            size % 4294967296,
        )
    } else {
        bytes32(size) + bytes32(kind as nat)
    }
}

/// Whether mp4 accepts an `ftyp`/`styp` box with header length `h` and length `l`: its size
/// field must be at least 16 and a multiple of 4.
pub open spec fn ftyp_size_ok(h: nat, l: nat) -> bool {
    l - h + 8 >= 16 && (l - h + 8) % 4 == 0
}

/// Whether mp4's walk over the children of a box, from `pos` to `end`, and over the
/// children of the `traf` boxes among them (`depth` levels down), always moves forward:
/// mp4 goes from a child to the position its declared length gives, so a child whose size
/// field is 0 (or whose 64 bit size is 0) would make it read that child again forever.
/// The walk ends where a header no longer fits in the data or a 64 bit size is below 16,
/// since mp4 stops there with an error.
pub open spec fn sized_children(b: Seq<u8>, pos: int, end: int, depth: nat) -> bool
    decreases depth, b.len() - pos,
{
    if pos >= end || pos < 0 || pos + 8 > b.len() {
        true
    } else {
        let s = be32(b, pos);
        if s == 0 {
            false
        } else if s == 1 && pos + 16 > b.len() {
            true
        } else if s == 1 && be64(b, pos + 8) == 0 {
            false
        } else if s == 1 && be64(b, pos + 8) < 16 {
            true
        } else {
            let n = if s == 1 { be64(b, pos + 8) } else { s };
            let h = if s == 1 { 16int } else { 8int };
            let next = if pos + n > b.len() { b.len() as int } else { pos + n };
            let inner = if depth > 0 && be32(b, pos + 4) == TRAF as nat {
                sized_children(b, pos + h, next, (depth - 1) as nat)
            } else {
                true
            };
            inner && sized_children(b, next, end, depth)
        }
    }
}

/// Checks `sized_children`.
pub fn children_sized(b: &[u8], pos: usize, end: usize, depth: u64) -> (r: bool)
    requires
        end <= b@.len(),
    ensures
        r == sized_children(b@, pos as int, end as int, depth as nat),
    decreases depth, b@.len() - pos,
{
    if pos >= end {
        return true;
    }
    let len = b.len();
    if len - pos < 8 {
        return true;
    }
    let s = read32(b, pos);
    if s == 0 {
        return false;
    }
    let mut n: u64 = s;
    let mut h: usize = 8;
    if s == 1 {
        if len - pos < 16 {
            return true;
        }
        let large = read64(b, pos + 8);
        if large == 0 {
            return false;
        }
        if large < 16 {
            return true;
        }
        n = large;
        h = 16;
    }
    let next: usize = if n > (len - pos) as u64 { len } else { pos + n as usize };
    if depth > 0 && read32(b, pos + 4) == TRAF as u64 {
        if !children_sized(b, pos + h, next, depth - 1) {
            return false;
        }
    }
    children_sized(b, next, end, depth)
}

/// The error of reading the `moof` box `bx`, whose header is `h` bytes long: a refusal when
/// one of its children (or of their `traf` children) has a size of 0, else what mp4 reports.
pub open spec fn moof_error(bx: Seq<u8>, h: nat) -> Option<Seq<char>> {
    if !sized_children(bx, h as int, bx.len() as int, 1) {
        Some("moof box contains a box of size zero"@)
    } else {
        mp4_moof_error(bx, h as u64, (bx.len() - h + 8) as u64)
    }
}

/// Reads the `moof` box `bx`, whose header is `h` bytes long, and returns the error found.
pub fn read_moof(bx: &[u8], h: usize) -> (r: Option<String>)
    requires
        h == 8 || h == 16,
        h <= bx@.len(),
    ensures
        match r {
            Some(m) => moof_error(bx@, h as nat) == Some(m@),
            None => moof_error(bx@, h as nat) is None,
        },
{
    if !children_sized(bx, h, bx.len(), 1) {
        return Some(String::from_str("moof box contains a box of size zero"));
    }
    moof_read_error(bx, h as u64, (bx.len() - h + 8) as u64)
}

/// What mp4 reports when it reads the `moof` box `box_bytes`, whose header is
/// `header_len` bytes long and whose size field is `size`; `None` when it reads it.
pub uninterp spec fn mp4_moof_error(box_bytes: Seq<u8>, header_len: u64, size: u64) -> Option<Seq<char>>;

/// Reads a `moof` box with mp4's `MoofBox::read_box` and returns the error it reports.
///
/// The contract ties the result to the name `mp4_moof_error` of the box, its header length
/// and its size field; what mp4 accepts is mp4's (a `mfhd` child is required, no child may be
/// larger than the box, the children must parse) and is not restated here. The box must be
/// whole (its size field is its length less the header, plus 8), and no child that mp4 steps
/// over may have a size of 0: on such a child mp4's read never returns.
#[verifier::external_body]
pub fn moof_read_error(box_bytes: &[u8], header_len: u64, size: u64) -> (r: Option<String>)
    requires
        header_len == 8 || header_len == 16,
        header_len <= box_bytes@.len(),
        size + header_len == box_bytes@.len() + 8,
        sized_children(box_bytes@, header_len as int, box_bytes@.len() as int, 1),
    ensures
        match r {
            Some(m) => mp4_moof_error(box_bytes@, header_len, size) == Some(m@),
            None => mp4_moof_error(box_bytes@, header_len, size) is None,
        },
{
    let mut reader = std::io::Cursor::new(box_bytes);
    reader.set_position(header_len);
    match <mp4::MoofBox as mp4::ReadBox<&mut std::io::Cursor<&[u8]>>>::read_box(&mut reader, size) {
        Ok(_) => None,
        Err(e) => Some(e.to_string()),
    }
}

/// The bytes of a default `ftyp` box as mp4 writes it: size 16, type `ftyp`, a zero major
/// brand, a zero minor version and no compatible brands.
pub open spec fn default_ftyp() -> Seq<u8> {
    seq![0u8, 0, 0, 16, 0x66, 0x74, 0x79, 0x70, 0, 0, 0, 0, 0, 0, 0, 0]
}

/// Writes `FtypBox::default()` with mp4's `write_box`.
///
/// The contract states the 16 bytes that mp4's source writes for it: the header from
/// `BoxHeader::write` (size 16, type `ftyp`), the major brand `FourCC::default()` (zero),
/// the minor version 0 and no brands. Writing to a `Vec` does not fail.
#[verifier::external_body]
pub fn default_ftyp_box() -> (r: Vec<u8>)
    ensures
        r@ == default_ftyp(),
{
    let mut out: Vec<u8> = Vec::new();
    match mp4::WriteBox::write_box(&mp4::FtypBox::default(), &mut out) {
        Ok(_) => out,
        Err(_) => out,
    }
}

/// Appends the header of a box of type `kind` whose size field is `size`.
pub fn push_header(out: &mut Vec<u8>, kind: u32, size: u64)
    ensures
        final(out)@ == old(out)@ + header_bytes(kind, size as nat),
{
    if size > 4294967295 {
        push32(out, 1);
        push32(out, kind as u64);
        push32(out, size / 4294967296 % 4294967296);
        push32(out, size % 4294967296);
        assert(final(out)@ =~= old(out)@ + header_bytes(kind, size as nat));
    } else {
        push32(out, size);
        push32(out, kind as u64);
        assert(final(out)@ =~= old(out)@ + header_bytes(kind, size as nat));
    }
}

/// The length of the header of a stored box.
pub fn header_len_of(b: &Vec<u8>) -> (r: usize)
    ensures
        r == hdr_len(b@),
{
    if b.len() >= 4 && read32(b.as_slice(), 0) == 1 {
        16
    } else {
        8
    }
}

} // verus!
