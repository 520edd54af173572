//! Screen frames: stitching rectangle updates into one RGBA buffer, either
//! written over a blank frame or alpha-blended over a previous one.
use vstd::prelude::*;

use vstd::arithmetic::div_mod::{lemma_fundamental_div_mod, lemma_fundamental_div_mod_converse};
use vstd::arithmetic::mul::lemma_mul_inequality;

use crate::errors::CaptureError;

verus! {

/// A rectangle update from the peer: its place, its size in pixels, and
/// its pixels, four bytes (red, green, blue, alpha) each, row after row.
#[derive(Clone, Debug)]
pub struct Rect {
    pub x: u16,
    pub y: u16,
    pub width: u16,
    pub height: u16,
    pub pixels: Vec<u8>,
}

/// A screen image of `width` by `height` pixels, RGBA, row after row.
#[derive(Clone, Debug)]
pub struct Frame {
    pub width: u16,
    pub height: u16,
    pub pixels: Vec<u8>,
}

/// Bytes in one row of `w` pixels.
pub open spec fn stride(w: int) -> int {
    4 * w
}

/// Whether `r` has the payload its size asks for and lies inside a frame
/// of `w` by `h` pixels.
pub open spec fn rect_fits(r: Rect, w: int, h: int) -> bool {
    &&& r.x + r.width <= w
    &&& r.y + r.height <= h
    &&& r.pixels@.len() == r.height * stride(r.width as int)
}

/// Whether byte `i` of a frame `w` pixels wide lies under `r`.
pub open spec fn covers(r: Rect, w: int, i: int) -> bool {
    &&& r.y <= i / stride(w) < r.y + r.height
    &&& stride(r.x as int) <= i % stride(w) < stride(r.x + r.width)
}

/// The byte of `r`'s payload that lands on byte `i` of the frame.
pub open spec fn source_index(r: Rect, w: int, i: int) -> int {
    (i / stride(w) - r.y) * stride(r.width as int) + (i % stride(w) - stride(r.x as int))
}

/// One colour channel of `overlay` laid over `base` with opacity
/// `alpha / 255`: `base * (1 - alpha) + overlay * alpha`, rounded down.
pub open spec fn blend_spec(base: u8, overlay: u8, alpha: u8) -> u8 {
    ((base * (255 - alpha) + overlay * alpha) / 255) as u8
}

/// Byte `i` of `base` after `r` is written over it (`blend` false) or
/// alpha-blended onto it with the result made opaque (`blend` true).
pub open spec fn painted_byte(base: Seq<u8>, w: int, r: Rect, blend: bool, i: int) -> u8 {
    if covers(r, w, i) {
        let s = source_index(r, w, i);
        if !blend {
            r.pixels@[s]
        } else if s % 4 == 3 {
            255
        } else {
            blend_spec(base[i], r.pixels@[s], r.pixels@[s - s % 4 + 3])
        }
    } else {
        base[i]
    }
}

/// `base` with `r` painted onto it.
pub open spec fn paint(base: Seq<u8>, w: int, r: Rect, blend: bool) -> Seq<u8> {
    Seq::new(base.len(), |i: int| painted_byte(base, w, r, blend, i))
}

/// `base` with the rectangles painted onto it in order, later over earlier.
pub open spec fn paint_all(base: Seq<u8>, w: int, rects: Seq<Rect>, blend: bool) -> Seq<u8>
    decreases rects.len(),
{
    if rects.len() == 0 {
        base
    } else {
        paint(paint_all(base, w, rects.drop_last(), blend), w, rects.last(), blend)
    }
}

/// A frame of `len` bytes, all zero.
pub open spec fn blank(len: int) -> Seq<u8> {
    Seq::new(len as nat, |i: int| 0u8)
}

/// Whether every rectangle fits a frame of `w` by `h` pixels.
pub open spec fn all_fit(rects: Seq<Rect>, w: int, h: int) -> bool {
    forall|k: int| 0 <= k < rects.len() ==> rect_fits(#[trigger] rects[k], w, h)
}

/// Whether `previous`, if given, is a whole frame of `w` by `h` pixels.
pub open spec fn base_fits(previous: Option<&Frame>, w: int, h: int) -> bool {
    match previous {
        None => true,
        Some(p) => p.width == w && p.height == h && p.pixels@.len() == h * stride(w),
    }
}

/// The pixels of the frame assembled from `rects`: over a blank frame, or
/// blended over `previous` when one is given.
pub open spec fn assembled(previous: Option<&Frame>, w: int, h: int, rects: Seq<Rect>) -> Seq<u8> {
    match previous {
        None => paint_all(blank(h * stride(w)), w, rects, false),
        Some(p) => paint_all(p.pixels@, w, rects, true),
    }
}

/// Whether `r` is what assembling `rects` into a frame of `w` by `h`
/// pixels gives: the frame, or the error that the first failed check names.
pub open spec fn assembles(
    r: Result<Frame, CaptureError>,
    w: u16,
    h: u16,
    rects: Seq<Rect>,
    previous: Option<&Frame>,
) -> bool {
    match r {
        Ok(f) => {
            &&& all_fit(rects, w as int, h as int)
            &&& base_fits(previous, w as int, h as int)
            &&& f.width == w
            &&& f.height == h
            &&& f.pixels@ == assembled(previous, w as int, h as int, rects)
        },
        Err(e) => {
            ||| e == CaptureError::MalformedRectangle && !all_fit(rects, w as int, h as int)
            ||| e == CaptureError::FrameSizeMismatch && all_fit(rects, w as int, h as int)
                && !base_fits(previous, w as int, h as int)
            ||| e == CaptureError::FrameTooLarge && all_fit(rects, w as int, h as int)
                && previous is None && h * stride(w as int) > usize::MAX
        },
    }
}

/// In a frame with rows of `stride` bytes, byte `row * stride + col` sits
/// in row `row` at column `col`.
proof fn lemma_cell(row: int, col: int, stride: int)
    requires
        0 <= row,
        0 <= col < stride,
    ensures
        (row * stride + col) / stride == row,
        (row * stride + col) % stride == col,
{
    lemma_fundamental_div_mod_converse(row * stride + col, stride, row, col);
}

/// Where byte `i` under `r` takes its value from: a byte of `r`'s payload
/// in the same colour channel, whose pixel's alpha byte lies in the payload
/// too.
proof fn lemma_source_cell(r: Rect, w: int, h: int, i: int)
    requires
        rect_fits(r, w, h),
        0 <= i,
        w > 0,
        covers(r, w, i),
    ensures
        ({
            let s = source_index(r, w, i);
            &&& 0 <= s < r.pixels@.len()
            &&& s % 4 == i % 4
            &&& s - s % 4 + 3 < r.pixels@.len()
            &&& (s - s % 4 + 3) % 4 == 3
        }),
{
    let sw = stride(w);
    let row = i / sw;
    let col = i % sw;
    let rw = r.width as int;
    let s = source_index(r, w, i);
    lemma_fundamental_div_mod(i, sw);
    assert(i == (row * w) * 4 + col) by (nonlinear_arith)
        requires
            i == sw * row + col,
            sw == 4 * w,
    ;
    assert(s == ((row - r.y) * rw - r.x) * 4 + col) by (nonlinear_arith)
        requires
            s == (row - r.y) * (4 * rw) + (col - 4 * r.x),
    ;
    lemma_fundamental_div_mod(col, 4);
    lemma_fundamental_div_mod_converse(i, 4, row * w + col / 4, col % 4);
    lemma_fundamental_div_mod_converse(s, 4, (row - r.y) * rw - r.x + col / 4, col % 4);
    lemma_mul_inequality(row - r.y + 1, r.height as int, 4 * rw);
    assert((row - r.y + 1) * (4 * rw) == (row - r.y) * (4 * rw) + 4 * rw) by (nonlinear_arith);
    assert(0 <= (row - r.y) * (4 * rw)) by (nonlinear_arith)
        requires
            row - r.y >= 0,
            rw >= 0,
    ;
}

/// The frame in which every byte is the payload byte of whichever of `a`
/// and `b` lies over it.
pub open spec fn tiled(a: Rect, b: Rect, w: int, len: int) -> Seq<u8> {
    Seq::new(
        len as nat,
        |i: int|
            if covers(a, w, i) {
                a.pixels@[source_index(a, w, i)]
            } else {
                b.pixels@[source_index(b, w, i)]
            },
    )
}

/// Two rectangles that together tile a frame of `w` by `h` pixels without
/// overlap (each byte lies under exactly one of them) assemble, in either
/// order, to the frame that holds each payload at its own place.
pub proof fn lemma_two_tiles(a: Rect, b: Rect, w: u16, h: u16)
    requires
        rect_fits(a, w as int, h as int),
        rect_fits(b, w as int, h as int),
        forall|i: int|
            0 <= i < h * stride(w as int) ==> covers(a, w as int, i) != covers(b, w as int, i),
    ensures
        assembled(None, w as int, h as int, seq![a, b]) == tiled(a, b, w as int, h * stride(w as int)),
        assembled(None, w as int, h as int, seq![b, a]) == tiled(a, b, w as int, h * stride(w as int)),
{
    let wi = w as int;
    let len = h * stride(wi);
    let z = blank(len);
    assert(seq![a, b].drop_last() =~= seq![a]);
    assert(seq![b, a].drop_last() =~= seq![b]);
    assert(seq![a].drop_last() =~= Seq::<Rect>::empty());
    assert(seq![b].drop_last() =~= Seq::<Rect>::empty());
    assert(paint_all(z, wi, Seq::<Rect>::empty(), false) == z);
    let pa = paint(z, wi, a, false);
    let pb = paint(z, wi, b, false);
    assert(paint_all(z, wi, seq![a], false) == pa);
    assert(paint_all(z, wi, seq![b], false) == pb);
    assert(paint_all(z, wi, seq![a, b], false) == paint(pa, wi, b, false));
    assert(paint_all(z, wi, seq![b, a], false) == paint(pb, wi, a, false));
    assert(paint(pa, wi, b, false) =~= tiled(a, b, wi, len));
    assert(paint(pb, wi, a, false) =~= tiled(a, b, wi, len));
}

/// Stacking: a rectangle of the frame's top rows and one of all the rows
/// below it, both the frame's full width, assemble to their payloads one
/// after the other.
pub proof fn lemma_stacked_tiles(a: Rect, b: Rect, w: u16, h: u16)
    requires
        rect_fits(a, w as int, h as int),
        rect_fits(b, w as int, h as int),
        a.x == 0 && a.y == 0 && a.width == w,
        b.x == 0 && b.y == a.height && b.width == w && a.height + b.height == h,
    ensures
        assembled(None, w as int, h as int, seq![a, b]) == a.pixels@ + b.pixels@,
{
    let wi = w as int;
    let sw = stride(wi);
    let len = h * sw;
    let top = a.height as int;
    assert(len == top * sw + b.height * sw) by (nonlinear_arith)
        requires
            len == h * sw,
            h == top + b.height,
    ;
    if wi > 0 {
        assert forall|i: int| 0 <= i < len implies covers(a, wi, i) != covers(b, wi, i)
            && tiled(a, b, wi, len)[i] == (a.pixels@ + b.pixels@)[i] by {
            lemma_fundamental_div_mod(i, sw);
            let row = i / sw;
            let col = i % sw;
            if i < top * sw {
                assert(row < top) by (nonlinear_arith)
                    requires
                        i == sw * row + col,
                        0 <= col,
                        i < top * sw,
                        sw > 0,
                ;
                assert(source_index(a, wi, i) == i) by (nonlinear_arith)
                    requires
                        source_index(a, wi, i) == row * sw + col,
                        i == sw * row + col,
                ;
            } else {
                assert(row >= top) by (nonlinear_arith)
                    requires
                        i == sw * row + col,
                        col < sw,
                        i >= top * sw,
                        sw > 0,
                ;
                assert(row < h) by (nonlinear_arith)
                    requires
                        i == sw * row + col,
                        0 <= col,
                        i < h * sw,
                        sw > 0,
                ;
                assert(source_index(b, wi, i) == i - top * sw) by (nonlinear_arith)
                    requires
                        source_index(b, wi, i) == (row - top) * sw + col,
                        i == sw * row + col,
                ;
            }
        }
        lemma_two_tiles(a, b, w, h);
    } else {
        assert(len == 0);
        assert(a.pixels@.len() == 0 && b.pixels@.len() == 0);
        lemma_paint_all_len(blank(len), wi, seq![a, b], false);
    }
    assert(assembled(None, wi, h as int, seq![a, b]) =~= a.pixels@ + b.pixels@);
}

/// Whether every alpha byte of `r`'s payload is `alpha`.
pub open spec fn all_alpha(r: Rect, alpha: u8) -> bool {
    forall|s: int| 0 <= s < r.pixels@.len() && s % 4 == 3 ==> #[trigger] r.pixels@[s] == alpha
}

/// Blending a fully opaque rectangle onto any frame writes it over that
/// frame: the bytes under it become its own, colours and alpha alike, and
/// the rest stay.
pub proof fn lemma_opaque_overlay(base: Seq<u8>, w: u16, h: u16, r: Rect)
    requires
        base.len() == h * stride(w as int),
        rect_fits(r, w as int, h as int),
        all_alpha(r, 255),
    ensures
        paint(base, w as int, r, true) == paint(base, w as int, r, false),
{
    assert forall|i: int| 0 <= i < base.len() implies painted_byte(base, w as int, r, true, i)
        == painted_byte(base, w as int, r, false, i) by {
        if covers(r, w as int, i) {
            if w == 0 {
                assert(stride(w as int) == 0);
            }
            lemma_source_cell(r, w as int, h as int, i);
            let s = source_index(r, w as int, i);
            let o = r.pixels@[s];
            assert(r.pixels@[s - s % 4 + 3] == 255);
            assert((base[i] * (255 - 255) + o * 255) / 255 == o) by (nonlinear_arith);
        }
    }
    assert(paint(base, w as int, r, true) =~= paint(base, w as int, r, false));
}

/// Blending a fully transparent rectangle onto a frame that is opaque
/// under it leaves the frame as it was.
pub proof fn lemma_transparent_overlay(base: Seq<u8>, w: u16, h: u16, r: Rect)
    requires
        base.len() == h * stride(w as int),
        rect_fits(r, w as int, h as int),
        all_alpha(r, 0),
        forall|i: int|
            0 <= i < base.len() && i % 4 == 3 && covers(r, w as int, i) ==> #[trigger] base[i]
                == 255,
    ensures
        paint(base, w as int, r, true) == base,
{
    assert forall|i: int| 0 <= i < base.len() implies painted_byte(base, w as int, r, true, i)
        == base[i] by {
        if covers(r, w as int, i) {
            if w == 0 {
                assert(stride(w as int) == 0);
            }
            lemma_source_cell(r, w as int, h as int, i);
            let s = source_index(r, w as int, i);
            let b = base[i];
            assert(r.pixels@[s - s % 4 + 3] == 0);
            assert((b * (255 - 0) + r.pixels@[s] * 0) / 255 == b) by (nonlinear_arith);
        }
    }
    assert(paint(base, w as int, r, true) =~= base);
}

/// One colour channel of `overlay` blended over `base` with opacity
/// `alpha / 255`.
pub fn blend_channel(base: u8, overlay: u8, alpha: u8) -> (r: u8)
    ensures
        r == blend_spec(base, overlay, alpha),
{
    let b = base as u32;
    let o = overlay as u32;
    let a = alpha as u32;
    assert(b * (255 - a) + o * a <= 255 * 255) by (nonlinear_arith)
        requires
            b <= 255,
            o <= 255,
            a <= 255,
    ;
    ((b * (255 - a) + o * a) / 255) as u8
}

/// Whether byte `i` of the frame comes before byte `col` of row `row` in
/// the order `paint_rect` writes.
spec fn written_before(w: int, i: int, row: int, col: int) -> bool {
    i / stride(w) < row || (i / stride(w) == row && i % stride(w) < col)
}

/// `buf` is `base` with the bytes of `r` written before `(row, col)` painted.
spec fn painted_up_to(
    buf: Seq<u8>,
    base: Seq<u8>,
    w: int,
    r: Rect,
    blend: bool,
    row: int,
    col: int,
) -> bool {
    &&& buf.len() == base.len()
    &&& forall|i: int|
        0 <= i < base.len() ==> #[trigger] buf[i] == if covers(r, w, i) && written_before(
            w,
            i,
            row,
            col,
        ) {
            painted_byte(base, w, r, blend, i)
        } else {
            base[i]
        }
}

/// Paint one rectangle onto a frame of `w` by `h` pixels.
fn paint_rect(buf: &mut Vec<u8>, w: u16, h: u16, r: &Rect, blend: bool)
    requires
        old(buf)@.len() == h * stride(w as int),
        rect_fits(*r, w as int, h as int),
    ensures
        final(buf)@ == paint(old(buf)@, w as int, *r, blend),
{
    let ghost base = buf@;
    let ghost sw = stride(w as int);
    let ghost rect = *r;
    let stride_w: usize = 4 * (w as usize);
    let row_len: usize = 4 * (r.width as usize);
    let mut yy: usize = 0;
    while yy < r.height as usize
        invariant
            base.len() == h * sw,
            sw == stride(w as int),
            rect == *r,
            rect_fits(rect, w as int, h as int),
            stride_w == sw,
            row_len == stride(r.width as int),
            yy <= r.height,
            painted_up_to(buf@, base, w as int, rect, blend, r.y + yy, 0),
        decreases r.height - yy,
    {
        let total: usize = buf.len();
        let payload: usize = r.pixels.len();
        let row: usize = r.y as usize + yy;
        proof {
            lemma_mul_inequality(row as int + 1, h as int, sw);
            lemma_mul_inequality(yy as int + 1, r.height as int, row_len as int);
            assert((row as int + 1) * sw == row * sw + sw) by (nonlinear_arith);
            assert((yy as int + 1) * row_len == yy * row_len + row_len) by (nonlinear_arith);
        }
        let dst_row: usize = row * stride_w + 4 * (r.x as usize);
        let src_row: usize = yy * row_len;
        let mut k: usize = 0;
        while k < row_len
            invariant
                base.len() == h * sw,
                total == base.len(),
                payload == r.pixels@.len(),
                sw == stride(w as int),
                rect == *r,
                rect_fits(rect, w as int, h as int),
                stride_w == sw,
                row_len == stride(r.width as int),
                yy < r.height,
                row == r.y + yy,
                dst_row == row * sw + 4 * r.x,
                src_row == yy * row_len,
                row * sw + sw <= h * sw,
                yy * row_len + row_len <= r.height * row_len,
                k <= row_len,
                painted_up_to(buf@, base, w as int, rect, blend, row as int, 4 * r.x + k),
            decreases row_len - k,
        {
            let d: usize = dst_row + k;
            let s: usize = src_row + k;
            proof {
                lemma_cell(row as int, 4 * r.x + k, sw);
                assert(yy * row_len == (yy * r.width) * 4) by (nonlinear_arith)
                    requires
                        row_len == 4 * r.width,
                ;
                lemma_fundamental_div_mod_converse(
                    s as int,
                    4,
                    yy * r.width + k / 4,
                    (k % 4) as int,
                );
                assert(covers(rect, w as int, d as int));
                assert(source_index(rect, w as int, d as int) == s);
                assert(s % 4 == k % 4);
                assert(buf@[d as int] == base[d as int]);
            }
            let v: u8 = if blend {
                let ch: usize = k % 4;
                if ch == 3 {
                    255
                } else {
                    blend_channel(buf[d], r.pixels[s], r.pixels[s - ch + 3])
                }
            } else {
                r.pixels[s]
            };
            let ghost before = buf@;
            buf.set(d, v);
            proof {
                assert forall|i: int| 0 <= i < base.len() implies #[trigger] buf@[i] == if covers(
                    rect,
                    w as int,
                    i,
                ) && written_before(w as int, i, row as int, 4 * r.x + k + 1) {
                    painted_byte(base, w as int, rect, blend, i)
                } else {
                    base[i]
                } by {
                    if i != d {
                        lemma_fundamental_div_mod(i, sw);
                        assert(sw * (i / sw) == (i / sw) * sw) by (nonlinear_arith);
                        assert(buf@[i] == before[i]);
                    } else {
                        assert(v == painted_byte(base, w as int, rect, blend, i));
                    }
                }
            }
            k += 1;
        }
        proof {
            assert forall|i: int| 0 <= i < base.len() implies #[trigger] buf@[i] == if covers(
                rect,
                w as int,
                i,
            ) && written_before(w as int, i, r.y + yy + 1, 0) {
                painted_byte(base, w as int, rect, blend, i)
            } else {
                base[i]
            } by {}
        }
        yy += 1;
    }
    assert(buf@ =~= paint(base, w as int, rect, blend));
}

/// Painting keeps the frame's length.
proof fn lemma_paint_all_len(base: Seq<u8>, w: int, rects: Seq<Rect>, blend: bool)
    ensures
        paint_all(base, w, rects, blend).len() == base.len(),
    decreases rects.len(),
{
    if rects.len() > 0 {
        lemma_paint_all_len(base, w, rects.drop_last(), blend);
    }
}

/// Bytes in an image of `w` by `h` pixels.
fn image_bytes(w: u16, h: u16) -> (n: u64)
    ensures
        n == h * stride(w as int),
{
    let s: u64 = 4 * (w as u64);
    assert((h as u64) * s <= 65535 * 262140) by (nonlinear_arith)
        requires
            h <= 65535,
            s <= 262140,
    ;
    (h as u64) * s
}

/// Whether `r` has the payload its size asks for and lies inside a frame
/// of `w` by `h` pixels.
fn check_rect(r: &Rect, w: u16, h: u16) -> (ok: bool)
    ensures
        ok == rect_fits(*r, w as int, h as int),
{
    let expected: u64 = image_bytes(r.width, r.height);
    (r.x as u32) + (r.width as u32) <= w as u32 && (r.y as u32) + (r.height as u32) <= h as u32
        && r.pixels.len() as u64 == expected
}

/// Whether every rectangle of `rects` fits a frame of `w` by `h` pixels.
fn check_rects(rects: &Vec<Rect>, w: u16, h: u16) -> (ok: bool)
    ensures
        ok == all_fit(rects@, w as int, h as int),
{
    let mut k: usize = 0;
    while k < rects.len()
        invariant
            k <= rects.len(),
            forall|j: int| 0 <= j < k ==> rect_fits(#[trigger] rects@[j], w as int, h as int),
        decreases rects.len() - k,
    {
        if !check_rect(&rects[k], w, h) {
            return false;
        }
        k += 1;
    }
    true
}

/// Paint every rectangle of `rects`, in order, onto a frame of `w` by `h`
/// pixels.
fn paint_rects(buf: &mut Vec<u8>, w: u16, h: u16, rects: &Vec<Rect>, blend: bool)
    requires
        old(buf)@.len() == h * stride(w as int),
        all_fit(rects@, w as int, h as int),
    ensures
        final(buf)@ == paint_all(old(buf)@, w as int, rects@, blend),
{
    let ghost base = buf@;
    let mut k: usize = 0;
    while k < rects.len()
        invariant
            k <= rects.len(),
            all_fit(rects@, w as int, h as int),
            base.len() == h * stride(w as int),
            buf@ == paint_all(base, w as int, rects@.take(k as int), blend),
        decreases rects.len() - k,
    {
        proof {
            assert(rects@.take(k as int + 1).drop_last() =~= rects@.take(k as int));
            assert(rect_fits(rects@[k as int], w as int, h as int));
            lemma_paint_all_len(base, w as int, rects@.take(k as int), blend);
        }
        paint_rect(buf, w, h, &rects[k], blend);
        k += 1;
    }
    assert(rects@.take(rects.len() as int) =~= rects@);
}

/// Assemble the frame of a capture from its rectangles, in the order they
/// came. Without a previous frame the rectangles are written over a blank
/// frame and what none covers stays zero; with one they are alpha-blended
/// over it. A rectangle that does not fit the frame fails the whole frame,
/// as does a previous frame of another size.
pub fn assemble(width: u16, height: u16, rects: &Vec<Rect>, previous: Option<&Frame>) -> (r: Result<
    Frame,
    CaptureError,
>)
    ensures
        assembles(r, width, height, rects@, previous),
{
    if !check_rects(rects, width, height) {
        return Err(CaptureError::MalformedRectangle);
    }
    let mut buf: Vec<u8> = match previous {
        Some(p) => {
            let expected: u64 = image_bytes(width, height);
            if p.width != width || p.height != height || p.pixels.len() as u64 != expected {
                return Err(CaptureError::FrameSizeMismatch);
            }
            p.pixels.clone()
        },
        None => {
            let len: u64 = image_bytes(width, height);
            if len > usize::MAX as u64 {
                return Err(CaptureError::FrameTooLarge);
            }
            let blank_frame: Vec<u8> = vec![0u8; len as usize];
            assert(blank_frame@ =~= blank(height * stride(width as int)));
            blank_frame
        },
    };
    paint_rects(&mut buf, width, height, rects, previous.is_some());
    Ok(Frame { width, height, pixels: buf })
}

} // verus!
