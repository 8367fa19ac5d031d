use vstd::prelude::*;
use crate::color::{Rgb, spec_pack};
use crate::grid::{ImageGrid, Sample};
use crate::raster::{WIDTH, HEIGHT, in_bounds, cell, set_pixel, add_pixel, clear_buf};

verus! {

/// The marker color that highlights the active scan line.
pub open spec fn spec_marker() -> Rgb {
    Rgb { r: 0xff, g: 0, b: 0 }
}

/// The color channels of one image sample, without its alpha.
pub open spec fn sample_rgb(s: Sample) -> Rgb {
    Rgb { r: s.r, g: s.g, b: s.b }
}

/// What compositing the image leaves in buffer cell (x, y): inside the image
/// extent, the marker color on the active line and the sample's own color
/// everywhere else; outside the image extent, the prior cell value.
pub open spec fn composited_cell(img: ImageGrid, line: int, x: int, y: int, prior: u32) -> u32 {
    if img.contains(x, y) {
        if y == line {
            spec_pack(spec_marker())
        } else {
            spec_pack(sample_rgb(img.spec_at(x, y)))
        }
    } else {
        prior
    }
}

/// Frame compositor: draws every image sample into the raster buffer at its
/// native coordinates, with the active scan line `line` drawn entirely in
/// the marker color. Samples outside the buffer are silently clipped.
pub fn draw_img(buffer: &mut Vec<u32>, img: &ImageGrid, line: usize)
    requires
        old(buffer)@.len() == WIDTH * HEIGHT,
        img.wf(),
    ensures
        final(buffer)@.len() == WIDTH * HEIGHT,
        forall|x: int, y: int|
            in_bounds(x, y) ==> final(buffer)@[cell(x, y)] == composited_cell(
                *img,
                line as int,
                x,
                y,
                old(buffer)@[cell(x, y)],
            ),
{
    let w: usize = img.width();
    let h: usize = img.height();
    let mut j: usize = 0;
    while j < h
        invariant
            buffer@.len() == WIDTH * HEIGHT,
            img.wf(),
            w == img.spec_width(),
            h == img.spec_height(),
            j <= h,
            forall|x: int, y: int|
                in_bounds(x, y) ==> buffer@[cell(x, y)] == (if y < j && img.contains(x, y) {
                    composited_cell(*img, line as int, x, y, old(buffer)@[cell(x, y)])
                } else {
                    old(buffer)@[cell(x, y)]
                }),
        decreases h - j,
    {
        let mut i: usize = 0;
        while i < w
            invariant
                buffer@.len() == WIDTH * HEIGHT,
                img.wf(),
                w == img.spec_width(),
                h == img.spec_height(),
                j < h,
                i <= w,
                forall|x: int, y: int|
                    in_bounds(x, y) ==> buffer@[cell(x, y)] == (if (y < j || (y == j && x < i))
                        && img.contains(x, y) {
                        composited_cell(*img, line as int, x, y, old(buffer)@[cell(x, y)])
                    } else {
                        old(buffer)@[cell(x, y)]
                    }),
            decreases w - i,
        {
            let p = img.get(i, j).unwrap();
            if j == line {
                set_pixel(buffer, i, j, Rgb { r: 0xff, g: 0, b: 0 });
            } else {
                set_pixel(buffer, i, j, Rgb { r: p.r, g: p.g, b: p.b });
            }
            i = i + 1;
        }
        j = j + 1;
    }
}

/// Baseline row of the spectrum bar chart, 400 cells above the bottom edge
/// of the buffer.
pub const BASELINE: usize = HEIGHT - 400;

/// The rows one chart bar of signed height `mag` covers: bars grow upward
/// from the baseline for positive heights and downward for negative ones.
pub open spec fn vbar_hits(mag: int, y: int) -> bool {
    ||| (mag > 0 && BASELINE - mag < y <= BASELINE)
    ||| (mag < 0 && BASELINE <= y < BASELINE - mag)
}

/// The rows the first `m` cells of a bar of signed height `mag` cover.
spec fn vbar_hits_upto(mag: int, m: int, y: int) -> bool {
    ||| (mag > 0 && BASELINE - m < y <= BASELINE)
    ||| (mag < 0 && BASELINE <= y < BASELINE + m)
}

/// Draws one four-cell-wide horizontal span of a bar by additive-OR.
fn draw_span(buffer: &mut Vec<u32>, x0: usize, y: usize, color: Rgb)
    requires
        old(buffer)@.len() == WIDTH * HEIGHT,
        x0 + 3 < WIDTH,
    ensures
        final(buffer)@.len() == WIDTH * HEIGHT,
        forall|x2: int, y2: int|
            in_bounds(x2, y2) ==> final(buffer)@[cell(x2, y2)] == (if x0 <= x2 < x0 + 4 && y2
                == y as int {
                old(buffer)@[cell(x2, y2)] | spec_pack(color)
            } else {
                old(buffer)@[cell(x2, y2)]
            }),
{
    add_pixel(buffer, x0, y, color);
    add_pixel(buffer, x0 + 1, y, color);
    add_pixel(buffer, x0 + 2, y, color);
    add_pixel(buffer, x0 + 3, y, color);
}

/// Draws one chart bar: four columns wide starting at column 4*i, one cell
/// of height for each unit of `mag`, upward for positive and downward for
/// negative heights, composited additively and clipped to the buffer.
fn draw_bar(buffer: &mut Vec<u32>, i: usize, mag: i32, color: Rgb)
    requires
        old(buffer)@.len() == WIDTH * HEIGHT,
        i < WIDTH / 4,
    ensures
        final(buffer)@.len() == WIDTH * HEIGHT,
        forall|x2: int, y2: int|
            in_bounds(x2, y2) ==> final(buffer)@[cell(x2, y2)] == (if 4 * i <= x2 < 4 * i + 4
                && vbar_hits(mag as int, y2) {
                old(buffer)@[cell(x2, y2)] | spec_pack(color)
            } else {
                old(buffer)@[cell(x2, y2)]
            }),
{
    let x0: usize = 4 * i;
    let a: i64 = if mag < 0 {
        -(mag as i64)
    } else {
        mag as i64
    };
    let mut m: i64 = 0;
    while m < a
        invariant
            buffer@.len() == WIDTH * HEIGHT,
            x0 == 4 * i,
            i < WIDTH / 4,
            a == (if mag < 0 {
                -(mag as int)
            } else {
                mag as int
            }),
            0 <= m <= a,
            forall|x2: int, y2: int|
                in_bounds(x2, y2) ==> buffer@[cell(x2, y2)] == (if 4 * i <= x2 < 4 * i + 4
                    && vbar_hits_upto(mag as int, m as int, y2) {
                    old(buffer)@[cell(x2, y2)] | spec_pack(color)
                } else {
                    old(buffer)@[cell(x2, y2)]
                }),
        decreases a - m,
    {
        if mag < 0 {
            let yy: i64 = (BASELINE as i64) + m;
            if yy < (HEIGHT as i64) {
                draw_span(buffer, x0, yy as usize, color);
            }
        } else {
            let yy: i64 = (BASELINE as i64) - m;
            if yy >= 0 {
                draw_span(buffer, x0, yy as usize, color);
            }
        }
        m = m + 1;
    }
}

/// Which buffer cells the spectrum chart covers. Only the non-redundant
/// half of the spectrum is plotted: the DC coefficient at index 0 is
/// skipped, and so is the mirrored upper half, leaving coefficients 1 to
/// len / 2 - 1. Coefficient k occupies columns 4*k .. 4*k+3 and reaches the
/// rows of its signed bar height mags[k].
pub open spec fn spectrum_covers(mags: Seq<i32>, x: int, y: int) -> bool {
    1 <= x / 4 < mags.len() / 2 && vbar_hits(mags[x / 4] as int, y)
}

/// A column x belongs to bar i exactly when x / 4 == i.
proof fn lemma_bar_of_column(x: int, i: int)
    requires
        0 <= x,
        0 <= i,
    ensures
        (4 * i <= x < 4 * i + 4) <==> (x / 4 == i),
{
    assert((4 * i <= x < 4 * i + 4) <==> (x / 4 == i)) by (nonlinear_arith)
        requires
            0 <= x,
            0 <= i,
    ;
}

/// Spectrum renderer: plots the bar heights of the non-redundant half of a
/// spectrum of `mags.len()` coefficients — the DC term at index 0 and the
/// mirrored upper half are skipped, so only coefficients 1 to len / 2 - 1
/// are drawn. Coefficient k gets a four-cell-wide vertical bar at columns
/// 4*k..4*k+3, one cell of height per unit of the signed bar height
/// mags[k], rising from the baseline for positive heights and hanging below
/// it for negative ones. Bars are composited by additive-OR, so the charts
/// of two renders combine instead of overwriting each other, and everything
/// that falls outside the buffer is silently clipped.
pub fn draw_spectrum(buffer: &mut Vec<u32>, mags: &Vec<i32>, color: Rgb)
    requires
        old(buffer)@.len() == WIDTH * HEIGHT,
    ensures
        final(buffer)@.len() == WIDTH * HEIGHT,
        forall|x: int, y: int|
            in_bounds(x, y) ==> final(buffer)@[cell(x, y)] == (if spectrum_covers(mags@, x, y) {
                old(buffer)@[cell(x, y)] | spec_pack(color)
            } else {
                old(buffer)@[cell(x, y)]
            }),
{
    let n: usize = mags.len();
    let half: usize = n / 2;
    let mut k: usize = 1;
    while k < half
        invariant
            buffer@.len() == WIDTH * HEIGHT,
            1 <= k,
            half == n / 2,
            n == mags@.len(),
            half > 1 ==> k <= half,
            forall|x: int, y: int|
                in_bounds(x, y) ==> buffer@[cell(x, y)] == (if 1 <= x / 4 < k && spectrum_covers(
                    mags@,
                    x,
                    y,
                ) {
                    old(buffer)@[cell(x, y)] | spec_pack(color)
                } else {
                    old(buffer)@[cell(x, y)]
                }),
        decreases half - k,
    {
        if k < WIDTH / 4 {
            draw_bar(buffer, k, mags[k], color);
        }
        proof {
            assert forall|x: int, y: int| in_bounds(x, y) implies x / 4 == k as int <==> (4 * (
            k as int) <= x < 4 * (k as int) + 4) by {
                lemma_bar_of_column(x, k as int);
            }
        }
        k = k + 1;
    }
}

/// The color of the bottom-edge profile bar for a sample of green value `v`.
pub open spec fn profile_color(v: u8) -> Rgb {
    Rgb { r: 0, g: v, b: 0 }
}

/// The rows the profile bar of one column covers: a bar `h` cells tall whose
/// lowest cell sits five rows above the bottom edge of the buffer.
pub open spec fn profile_hits(h: int, y: int) -> bool {
    h > 0 && HEIGHT - 5 - h < y <= HEIGHT - 5
}

/// The rows the first `m` cells of a profile bar cover.
spec fn profile_hits_upto(m: int, y: int) -> bool {
    m > 0 && HEIGHT - 5 - m < y <= HEIGHT - 5
}

/// Active-row profile renderer: for each column i of the active scan line, a
/// vertical bar near the bottom edge of the buffer, heights[i] cells tall
/// and drawn in the row's own green intensity, composited additively.
pub fn draw_row_profile(buffer: &mut Vec<u32>, greens: &Vec<u8>, heights: &Vec<usize>)
    requires
        old(buffer)@.len() == WIDTH * HEIGHT,
        greens@.len() == heights@.len(),
    ensures
        final(buffer)@.len() == WIDTH * HEIGHT,
        forall|x: int, y: int|
            in_bounds(x, y) ==> final(buffer)@[cell(x, y)] == (if x < greens@.len()
                && profile_hits(heights@[x] as int, y) {
                old(buffer)@[cell(x, y)] | spec_pack(profile_color(greens@[x]))
            } else {
                old(buffer)@[cell(x, y)]
            }),
{
    let n: usize = greens.len();
    let mut i: usize = 0;
    while i < n
        invariant
            buffer@.len() == WIDTH * HEIGHT,
            i <= n,
            n == greens@.len(),
            greens@.len() == heights@.len(),
            forall|x: int, y: int|
                in_bounds(x, y) ==> buffer@[cell(x, y)] == (if x < i && profile_hits(
                    heights@[x] as int,
                    y,
                ) {
                    old(buffer)@[cell(x, y)] | spec_pack(profile_color(greens@[x]))
                } else {
                    old(buffer)@[cell(x, y)]
                }),
        decreases n - i,
    {
        let hgt: usize = heights[i];
        let g: u8 = greens[i];
        let mut u: usize = 0;
        while u < hgt
            invariant
                buffer@.len() == WIDTH * HEIGHT,
                i < n,
                n == greens@.len(),
                greens@.len() == heights@.len(),
                hgt == heights@[i as int],
                g == greens@[i as int],
                u <= hgt,
                forall|x: int, y: int|
                    in_bounds(x, y) ==> buffer@[cell(x, y)] == (if (x < i && profile_hits(
                        heights@[x] as int,
                        y,
                    )) || (x == i && profile_hits_upto(u as int, y)) {
                        old(buffer)@[cell(x, y)] | spec_pack(profile_color(greens@[x]))
                    } else {
                        old(buffer)@[cell(x, y)]
                    }),
            decreases hgt - u,
        {
            if u <= HEIGHT - 5 {
                add_pixel(buffer, i, HEIGHT - 5 - u, profile_color_exec(g));
            }
            u = u + 1;
        }
        i = i + 1;
    }
}

/// Builds the profile color of a green value.
fn profile_color_exec(v: u8) -> (c: Rgb)
    ensures
        c == profile_color(v),
{
    Rgb { r: 0, g: v, b: 0 }
}

/// What one whole composited frame leaves in buffer cell (x, y): over a
/// cleared buffer, the image with its marked scan line, then the pre-filter
/// and post-filter spectrum charts, then the active row's profile bars, the
/// three overlays composited additively.
pub open spec fn frame_cell(
    img: ImageGrid,
    line: int,
    pre: Seq<i32>,
    color_pre: Rgb,
    post: Seq<i32>,
    color_post: Rgb,
    greens: Seq<u8>,
    heights: Seq<usize>,
    x: int,
    y: int,
) -> u32 {
    let base = composited_cell(img, line, x, y, 0);
    let with_pre = if spectrum_covers(pre, x, y) {
        base | spec_pack(color_pre)
    } else {
        base
    };
    let with_post = if spectrum_covers(post, x, y) {
        with_pre | spec_pack(color_post)
    } else {
        with_pre
    };
    if x < greens.len() && profile_hits(heights[x] as int, y) {
        with_post | spec_pack(profile_color(greens[x]))
    } else {
        with_post
    }
}

/// Frame compositor: one frame tick's drawing, start to finish. The buffer
/// is cleared, the image drawn with its active scan line in the marker
/// color, the two spectrum charts and the active row's profile bars
/// composited additively on top. Every cell of the resulting raster is
/// pinned by `frame_cell`.
pub fn compose_frame(
    buffer: &mut Vec<u32>,
    img: &ImageGrid,
    line: usize,
    pre: &Vec<i32>,
    color_pre: Rgb,
    post: &Vec<i32>,
    color_post: Rgb,
    greens: &Vec<u8>,
    heights: &Vec<usize>,
)
    requires
        old(buffer)@.len() == WIDTH * HEIGHT,
        img.wf(),
        greens@.len() == heights@.len(),
    ensures
        final(buffer)@.len() == WIDTH * HEIGHT,
        forall|x: int, y: int|
            in_bounds(x, y) ==> final(buffer)@[cell(x, y)] == frame_cell(
                *img,
                line as int,
                pre@,
                color_pre,
                post@,
                color_post,
                greens@,
                heights@,
                x,
                y,
            ),
{
    clear_buf(buffer);
    draw_img(buffer, img, line);
    draw_spectrum(buffer, pre, color_pre);
    draw_spectrum(buffer, post, color_post);
    draw_row_profile(buffer, greens, heights);
}

} // verus!
