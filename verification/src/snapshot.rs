//! The DOOM frame snapshot: the checks a captured frame must pass, and the compared
//! P6 PPM together with the PNG rendering of the same frame.

use crate::frame::{
    bgra_to_rgb, count_distinct_colors, distinct_colors, DEGENERATE_COLOR_LIMIT, DOOM_FRAME_H,
    DOOM_FRAME_W,
};
use crate::frame::{color_key, law_rgb_is_each_pixel_reversed, pixel_count};
use crate::png_image::{frame_to_png, png_of_rgb, png_rgb8_encoding};
use crate::ppm::{
    frame_to_ppm, law_pinned_header, law_ppm_body_is_the_pixels_in_rgb, ppm_bytes, ppm_header,
};
use vstd::prelude::*;

verus! {

/// Why a captured frame yields no snapshot.
#[derive(Clone, Copy, Debug, PartialEq, Eq)]
pub enum SnapshotError {
    /// `onGameInit` reported dimensions other than the pinned frame's.
    UnexpectedFrameSize { width: u32, height: u32 },
    /// The frame holds too few distinct colours to be a real rendered frame.
    DegenerateFrame { distinct: usize },
    /// The PNG encoder refused the frame.
    PngEncoding,
}

/// What the snapshot of a captured frame is: the PPM and the PNG, or the reason there is none.
pub open spec fn snapshot_of(frame: Seq<u8>, w: u32, h: u32) -> Result<
    (Seq<u8>, Seq<u8>),
    SnapshotError,
> {
    if w != DOOM_FRAME_W || h != DOOM_FRAME_H {
        Err(SnapshotError::UnexpectedFrameSize { width: w, height: h })
    } else if distinct_colors(frame).len() <= DEGENERATE_COLOR_LIMIT {
        Err(SnapshotError::DegenerateFrame { distinct: distinct_colors(frame).len() as usize })
    } else {
        match png_of_rgb(bgra_to_rgb(frame), w, h) {
            Some(png) => Ok((ppm_bytes(frame, w, h), png)),
            None => Err(SnapshotError::PngEncoding),
        }
    }
}

/// Turn the captured framebuffer into the snapshot files: the compared P6 PPM and a
/// PNG of the same frame for human inspection. The frame must have the pinned
/// dimensions and more distinct colours than a degenerate (blank or near-blank)
/// capture has.
pub fn capture_doom_frame(frame: &[u8], w: u32, h: u32) -> (res: Result<
    (Vec<u8>, Vec<u8>),
    SnapshotError,
>)
    ensures
        res matches Ok((ppm, png)) ==> snapshot_of(frame@, w, h) == Ok::<
            (Seq<u8>, Seq<u8>),
            SnapshotError,
        >((ppm@, png@)),
        res matches Err(e) ==> snapshot_of(frame@, w, h) == Err::<(Seq<u8>, Seq<u8>), SnapshotError>(
            e,
        ),
        res matches Ok((ppm, png)) ==> {
            &&& w == 640 && h == 400
            &&& frame@.len() / 4 == w * h
            &&& ppm@.len() == 15 + 3 * w * h
            &&& ppm@.take(15) == pinned_ppm_header()
            &&& forall|k: int, c: int|
                0 <= k < w * h && 0 <= c < 3 ==> #[trigger] ppm@[15 + 3 * k + c] == frame@[4 * k
                    + 2 - c]
            &&& png@ == png_rgb8_encoding(ppm@.skip(15), w, h)
        },
        (w != 640 || h != 400) <==> res == Err::<(Vec<u8>, Vec<u8>), SnapshotError>(
            SnapshotError::UnexpectedFrameSize { width: w, height: h },
        ),
        (w == 640 && h == 400 && distinct_colors(frame@).len() <= 50) ==> res == Err::<
            (Vec<u8>, Vec<u8>),
            SnapshotError,
        >(SnapshotError::DegenerateFrame { distinct: distinct_colors(frame@).len() as usize }),
        (w == 640 && h == 400 && distinct_colors(frame@).len() > 50) ==> (res is Ok <==> frame@.len()
            / 4 == 256000),
{
    proof {
        law_snapshot_is_the_frame_in_rgb(frame@, w, h);
        law_snapshot_outcomes(frame@, w, h);
    }
    if w != DOOM_FRAME_W || h != DOOM_FRAME_H {
        return Err(SnapshotError::UnexpectedFrameSize { width: w, height: h });
    }
    let distinct = count_distinct_colors(frame);
    if distinct <= DEGENERATE_COLOR_LIMIT {
        return Err(SnapshotError::DegenerateFrame { distinct });
    }
    let ppm = frame_to_ppm(frame, w, h);
    let png = frame_to_png(frame, w, h)?;
    Ok((ppm, png))
}


/// The bytes `P6\n640 400\n255\n` that open every snapshot's PPM.
pub open spec fn pinned_ppm_header() -> Seq<u8> {
    seq![80u8, 54u8, 10u8, 54u8, 52u8, 48u8, 32u8, 52u8, 48u8, 48u8, 10u8, 50u8, 53u8, 53u8, 10u8]
}

/// A snapshot is only made of a 640 by 400 frame of exactly `w * h` whole pixels, and
/// its PPM is `P6\n640 400\n255\n` followed, for every pixel `k < w * h` and channel `c`,
/// by the frame byte `frame[4k + 2 - c]` (the pixels in `R,G,B` order); the PNG encodes
/// exactly those `R,G,B` bytes.
pub proof fn law_snapshot_is_the_frame_in_rgb(frame: Seq<u8>, w: u32, h: u32)
    ensures
        snapshot_of(frame, w, h) matches Ok((ppm, png)) ==> {
            &&& w == 640 && h == 400
            &&& frame.len() / 4 == w * h
            &&& ppm.len() == 15 + 3 * w * h
            &&& ppm.take(15) == pinned_ppm_header()
            &&& forall|k: int, c: int|
                0 <= k < w * h && 0 <= c < 3 ==> #[trigger] ppm[15 + 3 * k + c] == frame[4 * k
                    + 2 - c]
            &&& png == png_rgb8_encoding(ppm.skip(15), w, h)
        },
{
    if let Ok((ppm, png)) = snapshot_of(frame, w, h) {
        law_pinned_header();
        law_rgb_is_each_pixel_reversed(frame);
        law_ppm_body_is_the_pixels_in_rgb(frame, w, h);
        assert(ppm.skip(15) =~= bgra_to_rgb(frame));
    }
}

/// When a snapshot is made and when it is not: a frame of other dimensions than 640 by
/// 400 is refused with those dimensions; a 640 by 400 frame of at most 50 distinct
/// colours is refused as degenerate with its colour count; a 640 by 400 frame of more
/// than 50 colours and exactly 256000 whole pixels always gives a snapshot; and one of
/// any other pixel count is refused by the PNG encoder.
pub proof fn law_snapshot_outcomes(frame: Seq<u8>, w: u32, h: u32)
    ensures
        (w != 640 || h != 400) ==> snapshot_of(frame, w, h) == Err::<
            (Seq<u8>, Seq<u8>),
            SnapshotError,
        >(SnapshotError::UnexpectedFrameSize { width: w, height: h }),
        (w == 640 && h == 400 && distinct_colors(frame).len() <= 50) ==> snapshot_of(frame, w, h)
            == Err::<(Seq<u8>, Seq<u8>), SnapshotError>(
            SnapshotError::DegenerateFrame { distinct: distinct_colors(frame).len() as usize },
        ),
        (w == 640 && h == 400 && distinct_colors(frame).len() > 50 && frame.len() / 4 == 256000)
            ==> snapshot_of(frame, w, h) is Ok,
        (w == 640 && h == 400 && distinct_colors(frame).len() > 50 && frame.len() / 4 != 256000)
            ==> snapshot_of(frame, w, h) == Err::<(Seq<u8>, Seq<u8>), SnapshotError>(
            SnapshotError::PngEncoding,
        ),
{
    law_rgb_is_each_pixel_reversed(frame);
}

/// The PNG and the compared PPM show the same pixels: the PNG encodes exactly the
/// RGB bytes that follow the PPM's header.
pub proof fn law_png_shows_the_ppm_pixels(frame: Seq<u8>, w: u32, h: u32)
    ensures
        snapshot_of(frame, w, h) matches Ok((ppm, png)) ==> {
            let header = ppm_header(w, h);
            &&& ppm.take(header.len() as int) == header
            &&& png == png_rgb8_encoding(ppm.skip(header.len() as int), w, h)
        },
{
    if let Ok((ppm, png)) = snapshot_of(frame, w, h) {
        let header = ppm_header(w, h);
        assert(ppm.take(header.len() as int) =~= header);
        assert(ppm.skip(header.len() as int) =~= bgra_to_rgb(frame));
    }
}

/// Whether two framebuffers differ at most in their alpha padding bytes.
pub open spec fn same_but_alpha(a: Seq<u8>, b: Seq<u8>) -> bool {
    &&& a.len() == b.len()
    &&& forall|i: int| 0 <= i < a.len() && i % 4 != 3 ==> #[trigger] a[i] == b[i]
}

/// The alpha byte is padding: two frames that differ only in it give the same snapshot,
/// or fail for the same reason.
pub proof fn law_alpha_is_ignored(a: Seq<u8>, b: Seq<u8>, w: u32, h: u32)
    requires
        same_but_alpha(a, b),
    ensures
        snapshot_of(a, w, h) == snapshot_of(b, w, h),
{
    assert forall|i: int| 0 <= i < pixel_count(a) implies #[trigger] color_key(a, i) == color_key(
        b,
        i,
    ) by {
        assert((4 * i) % 4 == 0 && (4 * i + 1) % 4 == 1 && (4 * i + 2) % 4 == 2);
        assert(a[4 * i] == b[4 * i]);
        assert(a[4 * i + 1] == b[4 * i + 1]);
        assert(a[4 * i + 2] == b[4 * i + 2]);
    }
    assert(distinct_colors(a) =~= distinct_colors(b)) by {
        assert forall|k: u32| #[trigger] distinct_colors(a).contains(k) implies distinct_colors(
            b,
        ).contains(k) by {
            let i = choose|i: int| 0 <= i < pixel_count(a) && #[trigger] color_key(a, i) == k;
            assert(color_key(b, i) == k);
        }
        assert forall|k: u32| #[trigger] distinct_colors(b).contains(k) implies distinct_colors(
            a,
        ).contains(k) by {
            let i = choose|i: int| 0 <= i < pixel_count(b) && #[trigger] color_key(b, i) == k;
            assert(color_key(a, i) == k);
        }
    }
    assert(bgra_to_rgb(a) =~= bgra_to_rgb(b)) by {
        assert forall|j: int| 0 <= j < bgra_to_rgb(a).len() implies #[trigger] bgra_to_rgb(a)[j]
            == bgra_to_rgb(b)[j] by {
            let q = j / 3;
            let r = j % 3;
            assert(0 <= r < 3);
            assert((4 * q + 2 - r) % 4 == 2 - r);
            assert(0 <= q < pixel_count(a));
            assert(4 * q + 2 - r < a.len());
        }
    }
}

} // verus!
