//! The captured framebuffer: `B,G,R,A` bytes, row-major, the alpha byte padding.
//! Its RGB content with the alpha dropped, and how many distinct colours it holds.

use std::collections::HashSet;
use vstd::prelude::*;
use vstd::std_specs::hash::group_hash_axioms;

verus! {

/// The frame width `onGameInit` reports for the pinned `doom.wasm`.
pub const DOOM_FRAME_W: u32 = 640;

/// The frame height `onGameInit` reports for the pinned `doom.wasm`.
pub const DOOM_FRAME_H: u32 = 400;

/// A real DOOM frame has more distinct colours than this; one with no more is degenerate.
pub const DEGENERATE_COLOR_LIMIT: usize = 50;

/// The number of whole four-byte pixels in a framebuffer; a trailing partial pixel is ignored.
pub open spec fn pixel_count(frame: Seq<u8>) -> nat {
    frame.len() / 4
}

/// The RGB bytes of a `B,G,R,A` framebuffer: each whole pixel becomes `R,G,B`, alpha dropped.
pub open spec fn bgra_to_rgb(frame: Seq<u8>) -> Seq<u8> {
    Seq::new(3 * pixel_count(frame), |j: int| frame[4 * (j / 3) + 2 - j % 3])
}

/// The colour of pixel `i` as one number: blue, green and red in its three low bytes.
pub open spec fn color_key(frame: Seq<u8>, i: int) -> u32 {
    (frame[4 * i] + frame[4 * i + 1] * 256 + frame[4 * i + 2] * 65536) as u32
}

/// The distinct colours among the first `n` pixels.
pub open spec fn colors_of_first(frame: Seq<u8>, n: int) -> Set<u32> {
    Set::new(|k: u32| exists|i: int| 0 <= i < n && #[trigger] color_key(frame, i) == k)
}

/// The distinct colours of the framebuffer's whole pixels, alpha ignored.
pub open spec fn distinct_colors(frame: Seq<u8>) -> Set<u32> {
    colors_of_first(frame, pixel_count(frame) as int)
}

/// Two pixels have the same colour key exactly when their blue, green and red bytes agree.
pub proof fn law_color_key_identifies_color(frame: Seq<u8>, i: int, j: int)
    requires
        0 <= i < pixel_count(frame),
        0 <= j < pixel_count(frame),
    ensures
        color_key(frame, i) == color_key(frame, j) <==> (frame[4 * i] == frame[4 * j]
            && frame[4 * i + 1] == frame[4 * j + 1] && frame[4 * i + 2] == frame[4 * j + 2]),
{
}

/// The RGB bytes hold, for every whole pixel `k` and channel `c` (red, green, blue),
/// the byte `frame[4k + 2 - c]`: red from the third byte, green from the second, blue
/// from the first; there are exactly three bytes per whole pixel.
pub proof fn law_rgb_is_each_pixel_reversed(frame: Seq<u8>)
    ensures
        bgra_to_rgb(frame).len() == 3 * (frame.len() / 4),
        forall|k: int, c: int|
            0 <= k < frame.len() / 4 && 0 <= c < 3 ==> #[trigger] bgra_to_rgb(frame)[3 * k + c]
                == frame[4 * k + 2 - c],
{
    assert forall|k: int, c: int|
        0 <= k < frame.len() / 4 && 0 <= c < 3 implies #[trigger] bgra_to_rgb(frame)[3 * k + c]
        == frame[4 * k + 2 - c] by {
        assert((3 * k + c) / 3 == k && (3 * k + c) % 3 == c) by (nonlinear_arith)
            requires
                0 <= k,
                0 <= c < 3,
        ;
        assert(0 <= 3 * k + c < 3 * (frame.len() / 4)) by (nonlinear_arith)
            requires
                0 <= k < frame.len() / 4,
                0 <= c < 3,
        ;
    }
}

/// The distinct colours are exactly the colours of the whole pixels: the blue, green
/// and red bytes of every pixel `i < frame.len() / 4`, packed as
/// `B + 256 * G + 65536 * R`, are in the set, and every member is such a pixel's colour.
pub proof fn law_distinct_colors_are_the_pixel_colors(frame: Seq<u8>)
    ensures
        forall|i: int|
            0 <= i < frame.len() / 4 ==> #[trigger] distinct_colors(frame).contains(
                (frame[4 * i] + 256 * frame[4 * i + 1] + 65536 * frame[4 * i + 2]) as u32,
            ),
        forall|k: u32| #[trigger]
            distinct_colors(frame).contains(k) ==> exists|i: int|
                0 <= i < frame.len() / 4 && k == (#[trigger] frame[4 * i] + 256 * frame[4 * i + 1] + 65536
                    * frame[4 * i + 2]) as u32,
{
    assert forall|i: int| 0 <= i < frame.len() / 4 implies #[trigger] distinct_colors(
        frame,
    ).contains((frame[4 * i] + 256 * frame[4 * i + 1] + 65536 * frame[4 * i + 2]) as u32) by {
        assert(color_key(frame, i) == (frame[4 * i] + 256 * frame[4 * i + 1] + 65536 * frame[4 * i
            + 2]) as u32);
    }
    assert forall|k: u32| #[trigger] distinct_colors(frame).contains(k) implies exists|i: int|
        0 <= i < frame.len() / 4 && k == (#[trigger] frame[4 * i] + 256 * frame[4 * i + 1] + 65536 * frame[4
            * i + 2]) as u32 by {
        let i = choose|i: int| 0 <= i < pixel_count(frame) && #[trigger] color_key(frame, i) == k;
        assert(0 <= i < frame.len() / 4 && k == (frame[4 * i] + 256 * frame[4 * i + 1] + 65536
            * frame[4 * i + 2]) as u32);
    }
}

/// Convert a `B,G,R,A` framebuffer to its RGB bytes, dropping the alpha padding.
pub fn frame_rgb(frame: &[u8]) -> (rgb: Vec<u8>)
    ensures
        rgb@ == bgra_to_rgb(frame@),
        rgb@.len() == 3 * (frame@.len() / 4),
        forall|k: int, c: int|
            0 <= k < frame@.len() / 4 && 0 <= c < 3 ==> #[trigger] rgb@[3 * k + c] == frame@[4 * k
                + 2 - c],
{
    proof {
        law_rgb_is_each_pixel_reversed(frame@);
    }
    let len = frame.len();
    let n = len / 4;
    let mut rgb: Vec<u8> = Vec::new();
    let mut i: usize = 0;
    while i < n
        invariant
            n == pixel_count(frame@),
            4 * n <= len,
            len == frame@.len(),
            i <= n,
            rgb@.len() == 3 * i,
            forall|j: int| 0 <= j < 3 * i ==> #[trigger] rgb@[j] == bgra_to_rgb(frame@)[j],
        decreases n - i,
    {
        let b = frame[4 * i];
        let g = frame[4 * i + 1];
        let r = frame[4 * i + 2];
        rgb.push(r);
        rgb.push(g);
        rgb.push(b);
        proof {
            let t = 3 * i as int;
            assert(t / 3 == i && t % 3 == 0);
            assert((t + 1) / 3 == i && (t + 1) % 3 == 1);
            assert((t + 2) / 3 == i && (t + 2) % 3 == 2);
        }
        i = i + 1;
    }
    assert(rgb@ =~= bgra_to_rgb(frame@));
    rgb
}

/// Count the distinct colours of a framebuffer's whole pixels, alpha ignored.
pub fn count_distinct_colors(frame: &[u8]) -> (count: usize)
    ensures
        count == distinct_colors(frame@).len(),
        forall|i: int|
            0 <= i < frame@.len() / 4 ==> #[trigger] distinct_colors(frame@).contains(
                (frame@[4 * i] + 256 * frame@[4 * i + 1] + 65536 * frame@[4 * i + 2]) as u32,
            ),
        forall|k: u32| #[trigger]
            distinct_colors(frame@).contains(k) ==> exists|i: int|
                0 <= i < frame@.len() / 4 && k == (#[trigger] frame@[4 * i] + 256 * frame@[4 * i + 1] + 65536
                    * frame@[4 * i + 2]) as u32,
{
    broadcast use group_hash_axioms;

    proof {
        law_distinct_colors_are_the_pixel_colors(frame@);
    }

    let len = frame.len();
    let n = len / 4;
    let mut seen: HashSet<u32> = HashSet::new();
    let mut i: usize = 0;
    assert(seen@ =~= colors_of_first(frame@, 0));
    while i < n
        invariant
            n == pixel_count(frame@),
            4 * n <= len,
            len == frame@.len(),
            i <= n,
            seen@ == colors_of_first(frame@, i as int),
        decreases n - i,
    {
        let key: u32 = frame[4 * i] as u32 + frame[4 * i + 1] as u32 * 256 + frame[4 * i + 2] as u32
            * 65536;
        assert(key == color_key(frame@, i as int));
        seen.insert(key);
        proof {
            assert forall|k: u32| #[trigger]
                colors_of_first(frame@, i + 1).contains(k) == seen@.contains(k) by {
                if colors_of_first(frame@, i + 1).contains(k) {
                    let w = choose|w: int| 0 <= w < i + 1 && #[trigger] color_key(frame@, w) == k;
                    if w < i {
                        assert(colors_of_first(frame@, i as int).contains(k));
                    }
                }
                if seen@.contains(k) && k != key {
                    assert(colors_of_first(frame@, i as int).contains(k));
                    let w = choose|w: int| 0 <= w < i && #[trigger] color_key(frame@, w) == k;
                    assert(0 <= w < i + 1 && color_key(frame@, w) == k);
                }
            }
            assert(seen@ =~= colors_of_first(frame@, i + 1));
        }
        i = i + 1;
    }
    seen.len()
}

} // verus!
