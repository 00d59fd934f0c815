//! The compared snapshot format: a binary P6 PPM, `P6\n{w} {h}\n255\n` followed by
//! the frame's RGB bytes.

use crate::frame::{bgra_to_rgb, frame_rgb, law_rgb_is_each_pixel_reversed};
use vstd::prelude::*;

verus! {

/// The ASCII decimal digits of `n`, most significant first, with no leading zeros.
pub open spec fn decimal(n: nat) -> Seq<u8>
    decreases n,
{
    if n < 10 {
        seq![(48 + n) as u8]
    } else {
        decimal(n / 10).push((48 + n % 10) as u8)
    }
}

/// `decimal(n)` is the base-10 spelling of `n`: its last byte is the ASCII digit of
/// `n % 10`, the bytes before it spell `n / 10` when `n >= 10` and there are none
/// otherwise, every byte is an ASCII digit, and only zero starts with `'0'`.
pub proof fn law_decimal_spells_the_number(n: nat)
    ensures
        decimal(n).len() > 0,
        decimal(n).last() == 48 + n % 10,
        n < 10 ==> decimal(n) == seq![(48 + n) as u8],
        n >= 10 ==> decimal(n).drop_last() == decimal(n / 10),
        forall|i: int| 0 <= i < decimal(n).len() ==> 48 <= #[trigger] decimal(n)[i] <= 57,
        decimal(n)[0] == 48 ==> n == 0,
    decreases n,
{
    if n >= 10 {
        law_decimal_spells_the_number(n / 10);
        assert(decimal(n).drop_last() =~= decimal(n / 10));
        assert forall|i: int| 0 <= i < decimal(n).len() implies 48 <= #[trigger] decimal(n)[i]
            <= 57 by {
            if i < decimal(n).len() - 1 {
                assert(decimal(n)[i] == decimal(n / 10)[i]);
            }
        }
        assert(decimal(n)[0] == decimal(n / 10)[0]);
    }
}

/// The header of the pinned 640 by 400 frame is `P6\n640 400\n255\n`.
pub proof fn law_pinned_header()
    ensures
        ppm_header(640, 400) == seq![
            80u8, 54u8, 10u8, 54u8, 52u8, 48u8, 32u8, 52u8, 48u8, 48u8, 10u8, 50u8, 53u8, 53u8, 10u8,
        ],
{
    assert(decimal(6) =~= seq![54u8]);
    assert(decimal(64) =~= seq![54u8, 52u8]);
    assert(decimal(640) =~= seq![54u8, 52u8, 48u8]);
    assert(decimal(4) =~= seq![52u8]);
    assert(decimal(40) =~= seq![52u8, 48u8]);
    assert(decimal(400) =~= seq![52u8, 48u8, 48u8]);
    assert(ppm_header(640, 400) =~= seq![
        80u8, 54u8, 10u8, 54u8, 52u8, 48u8, 32u8, 52u8, 48u8, 48u8, 10u8, 50u8, 53u8, 53u8, 10u8,
    ]);
}

/// The PPM is its header followed, for every whole pixel `k` and channel `c`, by the
/// frame byte `frame[4k + 2 - c]`: the pixels in `R,G,B` order, alpha dropped.
pub proof fn law_ppm_body_is_the_pixels_in_rgb(frame: Seq<u8>, width: u32, height: u32)
    ensures
        ({
            let h = ppm_header(width, height).len() as int;
            let ppm = ppm_bytes(frame, width, height);
            &&& ppm.len() == h + 3 * (frame.len() / 4)
            &&& ppm.take(h) == ppm_header(width, height)
            &&& forall|k: int, c: int|
                0 <= k < frame.len() / 4 && 0 <= c < 3 ==> #[trigger] ppm[h + 3 * k + c]
                    == frame[4 * k + 2 - c]
        }),
{
    law_rgb_is_each_pixel_reversed(frame);
    let h = ppm_header(width, height).len() as int;
    let ppm = ppm_bytes(frame, width, height);
    assert(ppm.take(h) =~= ppm_header(width, height));
    assert forall|k: int, c: int| 0 <= k < frame.len() / 4 && 0 <= c < 3 implies #[trigger] ppm[h
        + 3 * k + c] == frame[4 * k + 2 - c] by {
        assert(ppm[h + 3 * k + c] == bgra_to_rgb(frame)[3 * k + c]);
    }
}

/// The P6 header for a `width` by `height` image with a maximum sample value of 255.
pub open spec fn ppm_header(width: u32, height: u32) -> Seq<u8> {
    seq![80u8, 54u8, 10u8] + decimal(width as nat) + seq![32u8] + decimal(height as nat) + seq![
        10u8,
        50u8,
        53u8,
        53u8,
        10u8,
    ]
}

/// The P6 PPM of a `B,G,R,A` framebuffer: the header, then its RGB bytes.
pub open spec fn ppm_bytes(frame: Seq<u8>, width: u32, height: u32) -> Seq<u8> {
    ppm_header(width, height) + bgra_to_rgb(frame)
}

/// Append the decimal digits of `n` to `out`.
fn push_decimal(out: &mut Vec<u8>, n: u32)
    ensures
        final(out)@ == old(out)@ + decimal(n as nat),
    decreases n,
{
    proof {
        law_decimal_spells_the_number(n as nat);
    }
    if n >= 10 {
        push_decimal(out, n / 10);
    }
    out.push(48u8 + (n % 10) as u8);
    assert(out@ =~= old(out)@ + decimal(n as nat));
}

/// Encode a `B,G,R,A` framebuffer (row-major, alpha padding dropped) as a binary P6 PPM.
pub fn frame_to_ppm(frame: &[u8], w: u32, h: u32) -> (ppm: Vec<u8>)
    ensures
        ppm@ == ppm_bytes(frame@, w, h),
        ppm@.len() == ppm_header(w, h).len() + 3 * (frame@.len() / 4),
        ppm@.take(ppm_header(w, h).len() as int) == ppm_header(w, h),
        forall|k: int, c: int|
            0 <= k < frame@.len() / 4 && 0 <= c < 3 ==> #[trigger] ppm@[ppm_header(w, h).len() + 3
                * k + c] == frame@[4 * k + 2 - c],
{
    proof {
        law_ppm_body_is_the_pixels_in_rgb(frame@, w, h);
    }
    let mut out: Vec<u8> = Vec::new();
    out.push(80u8);
    out.push(54u8);
    out.push(10u8);
    push_decimal(&mut out, w);
    out.push(32u8);
    push_decimal(&mut out, h);
    out.push(10u8);
    out.push(50u8);
    out.push(53u8);
    out.push(53u8);
    out.push(10u8);
    assert(out@ =~= ppm_header(w, h));
    let mut rgb = frame_rgb(frame);
    out.append(&mut rgb);
    out
}

} // verus!
