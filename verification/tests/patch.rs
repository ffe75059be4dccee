use nightfall::error::NightfallError;
use nightfall::patch::init_segment::{patch_init_segment, try_patch_init_segment, InitSegment};
use nightfall::patch::segment::{parse_segments, patch_segment, try_patch_segment, Segment};

fn be32(x: u32) -> Vec<u8> {
    x.to_be_bytes().to_vec()
}

fn boxed(kind: &[u8; 4], payload: &[u8]) -> Vec<u8> {
    let mut v = be32(payload.len() as u32 + 8);
    v.extend_from_slice(kind);
    v.extend_from_slice(payload);
    v
}

fn styp() -> Vec<u8> {
    let mut p = b"msdh".to_vec();
    p.extend(be32(0));
    boxed(b"styp", &p)
}

fn ftyp() -> Vec<u8> {
    let mut p = b"isom".to_vec();
    p.extend(be32(512));
    p.extend_from_slice(b"iso6");
    boxed(b"ftyp", &p)
}

fn sidx(ept: u32) -> Vec<u8> {
    let mut p = vec![0, 0, 0, 0];
    p.extend(be32(1));
    p.extend(be32(90000));
    p.extend(be32(ept));
    p.extend(be32(0));
    p.extend([0, 0, 0, 0]);
    boxed(b"sidx", &p)
}

fn moof(seq: u32, base: u64) -> Vec<u8> {
    let mut mfhd = vec![0, 0, 0, 0];
    mfhd.extend(be32(seq));
    let mut tfhd = vec![0, 0, 0, 0];
    tfhd.extend(be32(1));
    let mut tfdt = vec![1, 0, 0, 0];
    tfdt.extend(base.to_be_bytes());
    let mut traf = boxed(b"tfhd", &tfhd);
    traf.extend(boxed(b"tfdt", &tfdt));
    let mut m = boxed(b"mfhd", &mfhd);
    m.extend(boxed(b"traf", &traf));
    boxed(b"moof", &m)
}

fn mdat(data: &[u8]) -> Vec<u8> {
    boxed(b"mdat", data)
}

fn segment(seq: u32, base: u64, ept: u32, data: &[u8]) -> Vec<u8> {
    let mut v = styp();
    v.extend(sidx(ept));
    v.extend(moof(seq, base));
    v.extend(mdat(data));
    v
}

#[test]
fn segments_are_numbered_from_the_given_number() {
    let mut file = segment(0, 100, 7, b"abcd");
    file.extend(segment(0, 200, 9, b"efgh"));
    let (out, next) = patch_segment(&file, 41).unwrap();
    assert_eq!(next, 43);
    let mut want = segment(41, 100, 7, b"abcd");
    want.extend(segment(42, 200, 9, b"efgh"));
    assert_eq!(out, want);
}

#[test]
fn segments_without_styp_get_one() {
    let mut file = moof(3, 0);
    file.extend(mdat(b"x"));
    let (out, next) = patch_segment(&file, 5).unwrap();
    assert_eq!(next, 6);
    let mut want = vec![0, 0, 0, 16, b's', b't', b'y', b'p', 0, 0, 0, 0, 0, 0, 0, 0];
    want.extend(moof(5, 0));
    want.extend(mdat(b"x"));
    assert_eq!(out, want);
}

#[test]
fn bare_styp_is_a_partial_segment() {
    let bare = Segment { styp: Some(styp()), sidx: None, moof: None, mdat: None };
    assert_eq!(patch_segment(&styp(), 0), Err(NightfallError::PartialSegment(bare)));
    let (out, next) = patch_segment(&[], 9).unwrap();
    assert!(out.is_empty());
    assert_eq!(next, 9);
}

#[test]
fn malformed_data_is_refused() {
    assert_eq!(
        patch_segment(&[0, 0, 0, 20, b'm', b'd', b'a', b't'], 0),
        Err(NightfallError::SegmentPatchError("failed to fill whole buffer".into()))
    );
    assert_eq!(
        patch_segment(&[0, 0, 0, 4, b'm', b'd', b'a', b't'], 0),
        Err(NightfallError::SegmentPatchError("box size too small".into()))
    );
    let mut bad_styp = boxed(b"styp", b"abcd");
    bad_styp.extend(mdat(b""));
    assert_eq!(
        patch_segment(&bad_styp, 0),
        Err(NightfallError::SegmentPatchError("ftyp size too small or not aligned".into()))
    );
}

#[test]
fn moof_without_header_is_refused_by_mp4() {
    let traf = boxed(b"traf", &boxed(b"tfhd", &[0, 0, 0, 0, 0, 0, 0, 1]));
    let mut file = boxed(b"moof", &traf);
    file.extend(mdat(b""));
    match patch_segment(&file, 0) {
        Err(NightfallError::SegmentPatchError(m)) => assert!(m.contains("not found"), "{}", m),
        other => panic!("expected a refusal, got {:?}", other),
    }
}

#[test]
fn segment_builders() {
    let (seg, next) = Segment::from_reader(&segment(1, 0, 77, b"zz"), 0).unwrap();
    assert_eq!(next, segment(1, 0, 77, b"zz").len());
    assert!(!seg.is_empty_segment());
    let seg = seg.normalize_dts().set_segno(9);
    let mut out = Vec::new();
    seg.write(&mut out);
    assert_eq!(out, segment(9, 77, 77, b"zz"));

    let (only, _) = Segment::from_reader(&styp(), 0).unwrap();
    assert!(only.is_empty_segment());
    let renamed = Segment { styp: Some(ftyp()), sidx: None, moof: None, mdat: None }.set_styp();
    assert_eq!(&renamed.styp.as_ref().unwrap()[4..8], b"styp");
    assert_eq!(renamed.gen_styp().styp.unwrap()[8..], ftyp()[8..]);
}

#[test]
fn init_segments_give_up_their_media_segments() {
    let moov_payload = b"trak-data".to_vec();
    let mut init = ftyp();
    init.extend(boxed(b"free", b"zz"));
    init.extend(boxed(b"moov", &moov_payload));
    init.extend(boxed(b"uuid", b"meta"));
    init.extend(sidx(500));
    init.extend(moof(0, 0));
    init.extend(mdat(b"media"));
    init.extend(moof(0, 0));

    let parsed = InitSegment::from_reader(&init).unwrap();
    assert!(parsed.contains_segments());

    let (segments, rest, next) = patch_init_segment(&init, 12).unwrap();
    assert_eq!(next, 13);
    let mut styp_from_ftyp = ftyp();
    styp_from_ftyp[4..8].copy_from_slice(b"styp");
    let mut want = styp_from_ftyp;
    want.extend(sidx(500));
    want.extend(moof(12, 500));
    want.extend(mdat(b"media"));
    assert_eq!(segments, want);

    let mut kept = moov_payload.clone();
    kept.extend(boxed(b"uuid", b"meta"));
    let mut want_rest = ftyp();
    want_rest.extend(boxed(b"moov", &kept));
    assert_eq!(rest, want_rest);
}

#[test]
fn init_segment_without_media() {
    let mut init = ftyp();
    init.extend(boxed(b"moov", b"m"));
    let parsed = InitSegment::from_reader(&init).unwrap();
    assert!(!parsed.contains_segments());
    assert_eq!(parsed.normalize_and_dump(), init);
    let (segments, rest, next) = patch_init_segment(&init, 4).unwrap();
    assert!(segments.is_empty());
    assert_eq!(rest, init);
    assert_eq!(next, 4);
}

#[test]
fn moof_is_kept_only_when_mp4_read_it() {
    let mut seg = Segment::new();
    assert_eq!(seg.add_moof(moof(1, 0), None), Ok(()));
    assert_eq!(seg.moof, Some(moof(1, 0)));
    let mut other = Segment::new();
    assert_eq!(
        other.add_moof(moof(2, 0), Some("mfhd not found".into())),
        Err(NightfallError::SegmentPatchError("mfhd not found".into()))
    );
    assert_eq!(other.moof, None);
}

#[test]
fn three_segments_keep_their_order_and_count_up() {
    let mut file = segment(7, 0, 1, b"a");
    file.extend(segment(7, 0, 2, b"bb"));
    file.extend(segment(7, 0, 3, b"ccc"));
    let (out, next) = patch_segment(&file, 100).unwrap();
    assert_eq!(next, 103);
    let mut want = segment(100, 0, 1, b"a");
    want.extend(segment(101, 0, 2, b"bb"));
    want.extend(segment(102, 0, 3, b"ccc"));
    assert_eq!(out, want);
}

#[test]
fn moof_with_a_zero_sized_child_is_refused() {
    let mut child = be32(0);
    child.extend_from_slice(b"free");
    let mut file = boxed(b"moof", &child);
    file.extend(mdat(b""));
    assert_eq!(
        patch_segment(&file, 0),
        Err(NightfallError::SegmentPatchError("moof box contains a box of size zero".into()))
    );
    let mut tfhd = be32(0);
    tfhd.extend_from_slice(b"tfhd");
    let mut inner = boxed(b"mfhd", &[0, 0, 0, 0, 0, 0, 0, 1]);
    inner.extend(boxed(b"traf", &tfhd));
    let mut nested = boxed(b"moof", &inner);
    nested.extend(mdat(b""));
    assert_eq!(
        patch_segment(&nested, 0),
        Err(NightfallError::SegmentPatchError("moof box contains a box of size zero".into()))
    );
}

#[test]
fn segment_files_are_read_whole() {
    let mut file = segment(0, 0, 1, b"a");
    file.extend(segment(0, 0, 2, b"b"));
    let segs = parse_segments(&file).unwrap();
    assert_eq!(segs.len(), 2);
    assert_eq!(segs[1].mdat, Some(mdat(b"b")));
    let (out, next) = patch_segment(&file, u32::MAX - 2).unwrap();
    assert_eq!(next, u32::MAX);
    assert_eq!(out.len(), file.len());
}

#[test]
fn truncated_unknown_box_ends_the_segment() {
    let mut file = segment(0, 0, 1, b"a");
    let mut free = be32(100);
    free.extend_from_slice(b"free");
    free.extend_from_slice(b"xx");
    file.extend(free);
    let (seg, next) = Segment::from_reader(&file, segment(0, 0, 1, b"a").len()).unwrap();
    assert_eq!(next, file.len());
    assert_eq!(seg, Segment::new());
    let (out, n) = patch_segment(&file, 3).unwrap();
    assert_eq!(n, 5);
    let mut want = segment(3, 0, 1, b"a");
    want.extend(vec![0, 0, 0, 16, b's', b't', b'y', b'p', 0, 0, 0, 0, 0, 0, 0, 0]);
    assert_eq!(out, want);
    let mut cut_mdat = be32(100);
    cut_mdat.extend_from_slice(b"mdat");
    assert_eq!(
        patch_segment(&cut_mdat, 0),
        Err(NightfallError::SegmentPatchError("failed to fill whole buffer".into()))
    );
}

#[test]
fn bare_styp_at_the_last_number_is_partial() {
    let bare = Segment { styp: Some(styp()), sidx: None, moof: None, mdat: None };
    assert_eq!(patch_segment(&styp(), u32::MAX), Err(NightfallError::PartialSegment(bare.clone())));
    assert_eq!(try_patch_segment(&styp(), u32::MAX), Some(Err(NightfallError::PartialSegment(bare))));
    assert_eq!(try_patch_segment(&segment(0, 0, 1, b"a"), u32::MAX), None);
    assert!(try_patch_segment(&segment(0, 0, 1, b"a"), u32::MAX - 1).is_some());
    let mut init = ftyp();
    init.extend(boxed(b"moov", b"m"));
    init.extend(moof(0, 0));
    init.extend(mdat(b"z"));
    assert_eq!(try_patch_init_segment(&init, u32::MAX), None);
    let (_, _, next) = try_patch_init_segment(&init, 7).unwrap().unwrap();
    assert_eq!(next, 8);
}
