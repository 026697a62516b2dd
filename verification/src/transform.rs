//! The per-pixel effect transforms: sepia, invert, grayscale conversion,
//! channel replication, and the edge-map rendering step. Each executable
//! function carries an exact per-byte contract over the raster buffers.

use crate::raster::LumaRaster;
use crate::raster::Raster;
use vstd::prelude::*;

verus! {

/// Clamps an intensity to the top of the 8-bit range.
pub open spec fn clamp_255(v: int) -> int {
    if v > 255 {
        255
    } else {
        v
    }
}

/// Red output channel of the sepia transform, in 0..=255: the weighted sum
/// `0.393 r + 0.769 g + 0.189 b` computed exactly over thousandths, clamped,
/// truncated to an integer.
pub open spec fn sepia_red(r: u8, g: u8, b: u8) -> int {
    clamp_255((393 * r + 769 * g + 189 * b) / 1000)
}

/// Green output channel of the sepia transform (`0.349 r + 0.686 g + 0.168 b`).
pub open spec fn sepia_green(r: u8, g: u8, b: u8) -> int {
    clamp_255((349 * r + 686 * g + 168 * b) / 1000)
}

/// Blue output channel of the sepia transform (`0.272 r + 0.534 g + 0.131 b`).
pub open spec fn sepia_blue(r: u8, g: u8, b: u8) -> int {
    clamp_255((272 * r + 534 * g + 131 * b) / 1000)
}

/// Pixel `i` of `b` is the sepia tone of pixel `i` of `a`.
pub open spec fn sepia_pixel_ok(a: Seq<u8>, b: Seq<u8>, i: int) -> bool {
    &&& b[3 * i] == sepia_red(a[3 * i], a[3 * i + 1], a[3 * i + 2])
    &&& b[3 * i + 1] == sepia_green(a[3 * i], a[3 * i + 1], a[3 * i + 2])
    &&& b[3 * i + 2] == sepia_blue(a[3 * i], a[3 * i + 1], a[3 * i + 2])
}

/// `b` is the sepia tone of the RGB buffer `a`, pixel by pixel.
pub open spec fn sepia_bytes(a: Seq<u8>, b: Seq<u8>) -> bool {
    &&& b.len() == a.len()
    &&& forall|i: int| 0 <= i && 3 * i < a.len() ==> #[trigger] sepia_pixel_ok(a, b, i)
}

/// Every byte of `b` is the complement (`255 - v`) of the same byte of `a`.
pub open spec fn inverted_bytes(a: Seq<u8>, b: Seq<u8>) -> bool {
    &&& b.len() == a.len()
    &&& forall|i: int| 0 <= i < a.len() ==> b[i] == 255 - a[i]
}

/// Applies the sepia tone: every pixel's channels are replaced by fixed
/// weighted sums of that pixel's red, green and blue, clamped to 255.
/// Dimensions are unchanged and the result is always 3-channel RGB.
pub fn apply_sepia(img: &Raster) -> (out: Raster)
    requires
        img.wf(),
    ensures
        out.wf(),
        out.width == img.width,
        out.height == img.height,
        sepia_bytes(img.pixels@, out.pixels@),
{
    let n: usize = img.pixels.len();
    proof {
        assert(3 * img.width * img.height == 3 * ((img.width as int) * (img.height as int)))
            by (nonlinear_arith);
    }
    let m: usize = n / 3;
    let mut px: Vec<u8> = Vec::with_capacity(n);
    let mut i: usize = 0;
    while i < m
        invariant
            i <= m,
            n == img.pixels@.len(),
            n % 3 == 0,
            m == n / 3,
            px@.len() == 3 * i,
            forall|k: int| 0 <= k < i ==> #[trigger] sepia_pixel_ok(img.pixels@, px@, k),
        decreases m - i,
    {
        let r = img.pixels[3 * i] as u32;
        let g = img.pixels[3 * i + 1] as u32;
        let b = img.pixels[3 * i + 2] as u32;
        let tr: u32 = (393 * r + 769 * g + 189 * b) / 1000;
        let tg: u32 = (349 * r + 686 * g + 168 * b) / 1000;
        let tb: u32 = (272 * r + 534 * g + 131 * b) / 1000;
        let ghost prev = px@;
        px.push(if tr > 255 {
            255
        } else {
            tr as u8
        });
        px.push(if tg > 255 {
            255
        } else {
            tg as u8
        });
        px.push(if tb > 255 {
            255
        } else {
            tb as u8
        });
        proof {
            assert(sepia_pixel_ok(img.pixels@, px@, i as int));
            assert forall|k: int| 0 <= k < i implies #[trigger] sepia_pixel_ok(
                img.pixels@,
                px@,
                k,
            ) by {
                assert(sepia_pixel_ok(img.pixels@, prev, k));
                assert(px@[3 * k] == prev[3 * k]);
                assert(px@[3 * k + 1] == prev[3 * k + 1]);
                assert(px@[3 * k + 2] == prev[3 * k + 2]);
            }
        }
        i = i + 1;
    }
    Raster { width: img.width, height: img.height, pixels: px }
}

/// Inverts the image: every channel of every pixel becomes `255 - value`.
/// Dimensions are unchanged and the result is always 3-channel RGB.
pub fn apply_invert(img: &Raster) -> (out: Raster)
    requires
        img.wf(),
    ensures
        out.wf(),
        out.width == img.width,
        out.height == img.height,
        inverted_bytes(img.pixels@, out.pixels@),
{
    let n: usize = img.pixels.len();
    let mut px: Vec<u8> = Vec::with_capacity(n);
    let mut i: usize = 0;
    while i < n
        invariant
            i <= n,
            n == img.pixels@.len(),
            px@.len() == i,
            forall|k: int| 0 <= k < i ==> px@[k] == 255 - img.pixels@[k],
        decreases n - i,
    {
        let v: u8 = img.pixels[i];
        px.push(255 - v);
        i = i + 1;
    }
    Raster { width: img.width, height: img.height, pixels: px }
}

/// Luma (perceived brightness) of one RGB pixel, in 0..=255: the standard
/// sRGB weights over ten-thousandths, truncated. The weights sum to exactly
/// 10000, so the result never exceeds 255 and needs no clamp.
pub open spec fn luma_px(r: u8, g: u8, b: u8) -> int {
    (2126 * r + 7152 * g + 722 * b) / 10000
}

/// Byte `i` of the luma buffer `b` is the luma of pixel `i` of the RGB
/// buffer `a`.
pub open spec fn luma_pixel_ok(a: Seq<u8>, b: Seq<u8>, i: int) -> bool {
    b[i] == luma_px(a[3 * i], a[3 * i + 1], a[3 * i + 2])
}

/// `b` is the single-channel luma rendering of the RGB buffer `a`.
pub open spec fn luma_bytes(a: Seq<u8>, b: Seq<u8>) -> bool {
    &&& 3 * b.len() == a.len()
    &&& forall|i: int| 0 <= i < b.len() ==> #[trigger] luma_pixel_ok(a, b, i)
}

/// Pixel `i` of the RGB buffer `b` repeats byte `i` of `a` in all three
/// channels.
pub open spec fn replicated_pixel_ok(a: Seq<u8>, b: Seq<u8>, i: int) -> bool {
    &&& b[3 * i] == a[i]
    &&& b[3 * i + 1] == a[i]
    &&& b[3 * i + 2] == a[i]
}

/// `b` renders the single-channel buffer `a` as RGB with equal channels.
pub open spec fn gray_replicated(a: Seq<u8>, b: Seq<u8>) -> bool {
    &&& b.len() == 3 * a.len()
    &&& forall|i: int| 0 <= i < a.len() ==> #[trigger] replicated_pixel_ok(a, b, i)
}

/// Pixel `i` of the RGB buffer `b` repeats the complement of byte `i` of the
/// edge map `a` in all three channels: edges (255) render dark (0).
pub open spec fn edge_pixel_ok(a: Seq<u8>, b: Seq<u8>, i: int) -> bool {
    &&& b[3 * i] == 255 - a[i]
    &&& b[3 * i + 1] == 255 - a[i]
    &&& b[3 * i + 2] == 255 - a[i]
}

/// `b` renders the edge map `a` as RGB, inverted so that edges are dark
/// marks on a light background.
pub open spec fn edge_map_bytes(a: Seq<u8>, b: Seq<u8>) -> bool {
    &&& b.len() == 3 * a.len()
    &&& forall|i: int| 0 <= i < a.len() ==> #[trigger] edge_pixel_ok(a, b, i)
}

/// Converts to single-channel luma with the standard sRGB weights (the
/// grayscale effect). Dimensions are unchanged.
pub fn apply_grayscale(img: &Raster) -> (out: LumaRaster)
    requires
        img.wf(),
    ensures
        out.wf(),
        out.width == img.width,
        out.height == img.height,
        luma_bytes(img.pixels@, out.pixels@),
{
    let n: usize = img.pixels.len();
    proof {
        assert(3 * img.width * img.height == 3 * ((img.width as int) * (img.height as int)))
            by (nonlinear_arith);
    }
    let m: usize = n / 3;
    let mut px: Vec<u8> = Vec::with_capacity(m);
    let mut i: usize = 0;
    while i < m
        invariant
            i <= m,
            n == img.pixels@.len(),
            n % 3 == 0,
            m == n / 3,
            px@.len() == i,
            forall|k: int| 0 <= k < i ==> #[trigger] luma_pixel_ok(img.pixels@, px@, k),
        decreases m - i,
    {
        let r = img.pixels[3 * i] as u32;
        let g = img.pixels[3 * i + 1] as u32;
        let b = img.pixels[3 * i + 2] as u32;
        let v: u32 = (2126 * r + 7152 * g + 722 * b) / 10000;
        let ghost prev = px@;
        px.push(v as u8);
        proof {
            assert(luma_pixel_ok(img.pixels@, px@, i as int));
            assert forall|k: int| 0 <= k < i implies #[trigger] luma_pixel_ok(
                img.pixels@,
                px@,
                k,
            ) by {
                assert(luma_pixel_ok(img.pixels@, prev, k));
                assert(px@[k] == prev[k]);
            }
        }
        i = i + 1;
    }
    LumaRaster { width: img.width, height: img.height, pixels: px }
}

/// Renders a single-channel raster as RGB by repeating each byte in all
/// three channels. Dimensions are unchanged.
pub fn gray_to_rgb(img: &LumaRaster) -> (out: Raster)
    requires
        img.wf(),
    ensures
        out.wf(),
        out.width == img.width,
        out.height == img.height,
        gray_replicated(img.pixels@, out.pixels@),
{
    let n: usize = img.pixels.len();
    proof {
        assert(3 * img.width * img.height == 3 * ((img.width as int) * (img.height as int)))
            by (nonlinear_arith);
    }
    let mut px: Vec<u8> = Vec::new();
    let mut i: usize = 0;
    while i < n
        invariant
            i <= n,
            n == img.pixels@.len(),
            px@.len() == 3 * i,
            forall|k: int| 0 <= k < i ==> #[trigger] replicated_pixel_ok(img.pixels@, px@, k),
        decreases n - i,
    {
        let v: u8 = img.pixels[i];
        let ghost prev = px@;
        px.push(v);
        px.push(v);
        px.push(v);
        proof {
            assert(replicated_pixel_ok(img.pixels@, px@, i as int));
            assert forall|k: int| 0 <= k < i implies #[trigger] replicated_pixel_ok(
                img.pixels@,
                px@,
                k,
            ) by {
                assert(replicated_pixel_ok(img.pixels@, prev, k));
                assert(px@[3 * k] == prev[3 * k]);
                assert(px@[3 * k + 1] == prev[3 * k + 1]);
                assert(px@[3 * k + 2] == prev[3 * k + 2]);
            }
        }
        i = i + 1;
    }
    Raster { width: img.width, height: img.height, pixels: px }
}

/// Renders a binary edge map as RGB: each pixel's value is inverted
/// (`255 - value`) and repeated in all three channels, so detected edges
/// appear as dark marks on a light background. Dimensions are unchanged.
pub fn edge_map_to_rgb(edges: &LumaRaster) -> (out: Raster)
    requires
        edges.wf(),
    ensures
        out.wf(),
        out.width == edges.width,
        out.height == edges.height,
        edge_map_bytes(edges.pixels@, out.pixels@),
{
    let n: usize = edges.pixels.len();
    proof {
        assert(3 * edges.width * edges.height == 3 * ((edges.width as int) * (edges.height as int)))
            by (nonlinear_arith);
    }
    let mut px: Vec<u8> = Vec::new();
    let mut i: usize = 0;
    while i < n
        invariant
            i <= n,
            n == edges.pixels@.len(),
            px@.len() == 3 * i,
            forall|k: int| 0 <= k < i ==> #[trigger] edge_pixel_ok(edges.pixels@, px@, k),
        decreases n - i,
    {
        let v: u8 = 255 - edges.pixels[i];
        let ghost prev = px@;
        px.push(v);
        px.push(v);
        px.push(v);
        proof {
            assert(edge_pixel_ok(edges.pixels@, px@, i as int));
            assert forall|k: int| 0 <= k < i implies #[trigger] edge_pixel_ok(
                edges.pixels@,
                px@,
                k,
            ) by {
                assert(edge_pixel_ok(edges.pixels@, prev, k));
                assert(px@[3 * k] == prev[3 * k]);
                assert(px@[3 * k + 1] == prev[3 * k + 1]);
                assert(px@[3 * k + 2] == prev[3 * k + 2]);
            }
        }
        i = i + 1;
    }
    Raster { width: edges.width, height: edges.height, pixels: px }
}

/// Every pixel of a replicated (grayscale-rendered) RGB buffer has equal
/// red, green and blue channels.
pub proof fn lemma_gray_channels_equal(a: Seq<u8>, b: Seq<u8>, i: int)
    requires
        gray_replicated(a, b),
        0 <= i < a.len(),
    ensures
        b[3 * i] == b[3 * i + 1],
        b[3 * i + 1] == b[3 * i + 2],
{
    assert(replicated_pixel_ok(a, b, i));
}

/// Inverting twice restores the original buffer: inversion is an involution.
pub proof fn lemma_invert_involutive(a: Seq<u8>, b: Seq<u8>, c: Seq<u8>)
    requires
        inverted_bytes(a, b),
        inverted_bytes(b, c),
    ensures
        c == a,
{
    assert(c =~= a);
}

} // verus!
