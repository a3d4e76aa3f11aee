use scrcap::format::{PixFmt, SampleFmt};

const PIX_FMTS: [(PixFmt, i32); 6] = [
    (PixFmt::Argb, 25),
    (PixFmt::Rgba, 26),
    (PixFmt::Abgr, 27),
    (PixFmt::Bgra, 28),
    (PixFmt::Rgb0, 119),
    (PixFmt::Bgr0, 121),
];

const SAMPLE_FMTS: [(SampleFmt, i32, bool, usize); 10] = [
    (SampleFmt::U8, 0, false, 1),
    (SampleFmt::S16, 1, false, 2),
    (SampleFmt::S32, 2, false, 4),
    (SampleFmt::F32, 3, false, 4),
    (SampleFmt::F64, 4, false, 8),
    (SampleFmt::U8P, 5, true, 1),
    (SampleFmt::S16P, 6, true, 2),
    (SampleFmt::S32P, 7, true, 4),
    (SampleFmt::F32P, 8, true, 4),
    (SampleFmt::F64P, 9, true, 8),
];

#[test]
fn pix_fmt_ids_go_both_ways() {
    for (fmt, id) in PIX_FMTS {
        assert_eq!(fmt.as_ffmpeg_id(), id);
        assert_eq!(PixFmt::from_ffmpeg_id(id), Some(fmt));
        assert_eq!(fmt.bytes_per_pixel(), 4);
    }
}

#[test]
fn other_pix_fmt_ids_are_unknown() {
    for id in [-1, 0, 24, 29, 118, 120, 122, i32::MAX] {
        assert_eq!(PixFmt::from_ffmpeg_id(id), None);
    }
}

#[test]
fn sample_fmt_ids_go_both_ways() {
    for (fmt, id, planar, bytes) in SAMPLE_FMTS {
        assert_eq!(fmt.as_ffmpeg_id(), id);
        assert_eq!(SampleFmt::from_ffmpeg_id(id), Some(fmt));
        assert_eq!(fmt.is_planar(), planar);
        assert_eq!(fmt.bytes_per_sample(), bytes);
    }
}

#[test]
fn other_sample_fmt_ids_are_unknown() {
    for id in [-1, 10, 11, i32::MIN, i32::MAX] {
        assert_eq!(SampleFmt::from_ffmpeg_id(id), None);
    }
}
