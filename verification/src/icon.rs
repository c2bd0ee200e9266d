//! The tray image: decoding the base icon, drawing the badge, composing the
//! two and encoding the result as PNG, through the image crate.

use vstd::prelude::*;
use image::RgbaImage;
use crate::tray::{glyph_pixels, glyph_writes, row_writes, GlyphPlacement, PixelWrite, BADGE_GAP};

verus! {

/// An RGBA image of the image crate, held in a private field; its size and
/// its pixels are the names below.
#[verifier::external_body]
pub struct IconImage {
    img: RgbaImage,
}

/// The pixels of an RGBA image, by (x, y) for each coordinate inside it.
pub uninterp spec fn image_pixels(img: IconImage) -> Map<(u32, u32), (u8, u8, u8, u8)>;

/// The width and height of an RGBA image.
pub uninterp spec fn image_size(img: IconImage) -> (u32, u32);

/// A blank (all zero, fully transparent) image of the given size.
pub open spec fn blank(w: u32, h: u32) -> Map<(u32, u32), (u8, u8, u8, u8)> {
    Map::new(|p: (u32, u32)| p.0 < w && p.1 < h, |p: (u32, u32)| (0u8, 0u8, 0u8, 0u8))
}

/// `image::RgbaImage::new`: a zero-filled image of the given size. It panics
/// when the buffer length (width × height × 4) overflows `usize`, so that is
/// required.
#[verifier::external_body]
fn new_image(width: u32, height: u32) -> (img: IconImage)
    requires
        width * height * 4 <= usize::MAX,
    ensures
        image_size(img) == (width, height),
        image_pixels(img) == blank(width, height),
{
    IconImage { img: RgbaImage::new(width, height) }
}

/// `ImageBuffer::put_pixel`: sets one pixel; it panics outside the image, so
/// that is excluded.
#[verifier::external_body]
fn put_pixel(img: &mut IconImage, x: u32, y: u32, px: (u8, u8, u8, u8))
    requires
        x < image_size(*old(img)).0,
        y < image_size(*old(img)).1,
    ensures
        image_size(*final(img)) == image_size(*old(img)),
        image_pixels(*final(img)) == image_pixels(*old(img)).insert((x, y), px),
{
    img.img.put_pixel(x, y, image::Rgba([px.0, px.1, px.2, px.3]));
}

/// `ImageBuffer::dimensions`.
#[verifier::external_body]
fn dimensions(img: &IconImage) -> (size: (u32, u32))
    ensures
        size == image_size(*img),
{
    img.img.dimensions()
}

/// What `image::load_from_memory` followed by `to_rgba8` gives for `bytes`:
/// the size and pixels of the decoded image, or the error's text.
pub uninterp spec fn image_decode(bytes: Seq<u8>) -> Result<((u32, u32), Map<(u32, u32), (u8, u8, u8, u8)>), Seq<char>>;

/// `image::load_from_memory` (format guessed from the bytes), converted to
/// RGBA. The outcome is named `image_decode`.
#[verifier::external_body]
fn decode_image(bytes: &[u8]) -> (r: Result<IconImage, String>)
    ensures
        match r {
            Ok(img) => image_decode(bytes@) == Ok::<((u32, u32), Map<(u32, u32), (u8, u8, u8, u8)>), Seq<char>>(
                (image_size(img), image_pixels(img)),
            ),
            Err(e) => image_decode(bytes@) == Err::<((u32, u32), Map<(u32, u32), (u8, u8, u8, u8)>), Seq<char>>(e@),
        },
{
    match image::load_from_memory(bytes) {
        Ok(d) => Ok(IconImage { img: d.to_rgba8() }),
        Err(e) => Err(e.to_string()),
    }
}

/// What `image::imageops::overlay` makes of the bottom image's pixels when the
/// top image is blended onto it at (`x`, `y`).
pub uninterp spec fn image_overlay(
    bottom_size: (u32, u32),
    bottom: Map<(u32, u32), (u8, u8, u8, u8)>,
    top_size: (u32, u32),
    top: Map<(u32, u32), (u8, u8, u8, u8)>,
    x: i64,
    y: i64,
) -> Map<(u32, u32), (u8, u8, u8, u8)>;

/// `image::imageops::overlay`: blends `top` onto `bottom` at (`x`, `y`). The
/// bottom image keeps its size; its pixels are named `image_overlay`.
#[verifier::external_body]
fn overlay(bottom: &mut IconImage, top: &IconImage, x: i64, y: i64)
    ensures
        image_size(*final(bottom)) == image_size(*old(bottom)),
        image_pixels(*final(bottom)) == image_overlay(
            image_size(*old(bottom)),
            image_pixels(*old(bottom)),
            image_size(*top),
            image_pixels(*top),
            x,
            y,
        ),
{
    image::imageops::overlay(&mut bottom.img, &top.img, x, y);
}

/// What `ImageBuffer::write_to` with the PNG format writes for an RGBA image of
/// this size and these pixels, or the error's text.
pub uninterp spec fn png_encode(size: (u32, u32), pixels: Map<(u32, u32), (u8, u8, u8, u8)>) -> Result<Seq<u8>, Seq<char>>;

/// `ImageBuffer::write_to` into an in-memory buffer, as PNG. The outcome is
/// named `png_encode`; it depends on the image's size and pixels only.
#[verifier::external_body]
fn encode_png(img: &IconImage) -> (r: Result<Vec<u8>, String>)
    ensures
        match r {
            Ok(v) => png_encode(image_size(*img), image_pixels(*img)) == Ok::<Seq<u8>, Seq<char>>(v@),
            Err(e) => png_encode(image_size(*img), image_pixels(*img)) == Err::<Seq<u8>, Seq<char>>(e@),
        },
{
    let mut buf = std::io::Cursor::new(Vec::new());
    img.img.write_to(&mut buf, image::ImageFormat::Png).map_err(|e| e.to_string())?;
    Ok(buf.into_inner())
}

/// The size of an image.
pub fn icon_size(img: &IconImage) -> (size: (u32, u32))
    ensures
        size == image_size(*img),
{
    dimensions(img)
}

/// Decodes the base tray icon; a failure is reported with its cause.
pub fn decode_icon(bytes: &[u8]) -> (r: Result<IconImage, String>)
    ensures
        match image_decode(bytes@) {
            Ok(d) => r matches Ok(img) && d == (image_size(img), image_pixels(img)),
            Err(e) => r matches Err(m) && m@ == "Failed to load base icon: "@ + e,
        },
{
    match decode_image(bytes) {
        Ok(img) => Ok(img),
        Err(e) => {
            let mut m = String::from_str("Failed to load base icon: ");
            m.append(e.as_str());
            Err(m)
        },
    }
}

/// One character's coverage bitmap and where its top-left corner goes in the badge.
pub struct GlyphBitmap {
    pub x: usize,
    pub y: usize,
    pub width: usize,
    pub height: usize,
    pub coverage: Vec<u8>,
}

/// Where a glyph is drawn in a badge of the given size.
pub open spec fn glyph_placement(g: GlyphBitmap, w: u32, h: u32) -> GlyphPlacement {
    GlyphPlacement { x: g.x, y: g.y, width: g.width, height: g.height, image_w: w, image_h: h }
}

/// The glyph's sizes leave no index or coordinate past `usize`.
pub open spec fn glyph_fits(g: GlyphBitmap) -> bool {
    g.width * g.height <= usize::MAX && g.x + g.width <= usize::MAX && g.y + g.height <= usize::MAX
}

/// `m` with each of `writes` applied in order, in the badge colour.
pub open spec fn paint(
    m: Map<(u32, u32), (u8, u8, u8, u8)>,
    writes: Seq<PixelWrite>,
    color: (u8, u8, u8),
) -> Map<(u32, u32), (u8, u8, u8, u8)>
    decreases writes.len(),
{
    if writes.len() == 0 {
        m
    } else {
        let w = writes.last();
        paint(m, writes.drop_last(), color).insert((w.x, w.y), (color.0, color.1, color.2, w.alpha))
    }
}

/// `m` with the glyphs drawn onto it, one after another.
pub open spec fn paint_glyphs(
    m: Map<(u32, u32), (u8, u8, u8, u8)>,
    glyphs: Seq<GlyphBitmap>,
    w: u32,
    h: u32,
    color: (u8, u8, u8),
) -> Map<(u32, u32), (u8, u8, u8, u8)>
    decreases glyphs.len(),
{
    if glyphs.len() == 0 {
        m
    } else {
        let g = glyphs.last();
        paint(
            paint_glyphs(m, glyphs.drop_last(), w, h, color),
            glyph_writes(g.coverage@, glyph_placement(g, w, h), g.height as int),
            color,
        )
    }
}

/// Draws the badge: a blank image of the given size with each glyph's
/// coverage painted in `color`.
pub fn draw_badge(width: u32, height: u32, glyphs: &Vec<GlyphBitmap>, color: (u8, u8, u8)) -> (img: IconImage)
    requires
        width * height * 4 <= usize::MAX,
        forall|i: int| 0 <= i < glyphs@.len() ==> glyph_fits(#[trigger] glyphs@[i]),
    ensures
        image_size(img) == (width, height),
        image_pixels(img) == paint_glyphs(blank(width, height), glyphs@, width, height, color),
{
    let mut img = new_image(width, height);
    let mut i: usize = 0;
    while i < glyphs.len()
        invariant
            i <= glyphs@.len(),
            forall|j: int| 0 <= j < glyphs@.len() ==> glyph_fits(#[trigger] glyphs@[j]),
            image_size(img) == (width, height),
            image_pixels(img) == paint_glyphs(blank(width, height), glyphs@.take(i as int), width, height, color),
        decreases glyphs.len() - i,
    {
        let g = &glyphs[i];
        assert(glyph_fits(glyphs@[i as int]));
        let placement = GlyphPlacement { x: g.x, y: g.y, width: g.width, height: g.height, image_w: width, image_h: height };
        let writes = glyph_pixels(&g.coverage, &placement);
        proof {
            crate::tray::law_glyph_pixels_inside(g.coverage@, placement, g.height as int);
        }
        let ghost start = image_pixels(img);
        let mut k: usize = 0;
        while k < writes.len()
            invariant
                k <= writes@.len(),
                image_size(img) == (width, height),
                forall|q: int| 0 <= q < writes@.len() ==> (#[trigger] writes@[q]).x < width && writes@[q].y < height,
                image_pixels(img) == paint(start, writes@.take(k as int), color),
            decreases writes.len() - k,
        {
            let wr = &writes[k];
            assert(writes@[k as int].x < width);
            put_pixel(&mut img, wr.x, wr.y, (color.0, color.1, color.2, wr.alpha));
            proof {
                let t = writes@.take(k + 1);
                assert(t.drop_last() =~= writes@.take(k as int));
                assert(t.last() == writes@[k as int]);
            }
            k = k + 1;
        }
        proof {
            assert(writes@.take(k as int) =~= writes@);
            let gs = glyphs@.take(i + 1);
            assert(gs.drop_last() =~= glyphs@.take(i as int));
            assert(gs.last() == glyphs@[i as int]);
        }
        i = i + 1;
    }
    assert(glyphs@.take(i as int) =~= glyphs@);
    img
}

/// The coverage that glyph `g` gives the badge pixel (`x`, `y`): the cell of
/// its bitmap over that pixel, or 0 where the bitmap does not reach.
pub open spec fn glyph_coverage_at(g: GlyphBitmap, x: int, y: int) -> int {
    let px = x - g.x;
    let py = y - g.y;
    if 0 <= px < g.width && 0 <= py < g.height && py * g.width + px < g.coverage@.len() {
        g.coverage@[py * g.width + px] as int
    } else {
        0
    }
}

/// Write `i` of `ws` sets the pixel (`x`, `y`).
spec fn writes_at(ws: Seq<PixelWrite>, i: int, x: int, y: int) -> bool {
    0 <= i < ws.len() && ws[i].x == x && ws[i].y == y
}

/// Write `w` comes from bitmap cell (`px`, `py`): it sets the pixel under the
/// cell, whose coverage is not zero, with that coverage as alpha.
spec fn from_cell(bm: Seq<u8>, g: GlyphPlacement, w: PixelWrite, px: int, py: int) -> bool {
    &&& w.x == g.x + px
    &&& w.y == g.y + py
    &&& py * g.width + px < bm.len()
    &&& bm[py * g.width + px] > 0
    &&& w.alpha == bm[py * g.width + px]
}

/// Bitmap cell (`px`, `py`) has a non-zero coverage and lies over the image.
spec fn cell_on(bm: Seq<u8>, g: GlyphPlacement, px: int, py: int) -> bool {
    &&& 0 <= px < g.width
    &&& 0 <= py
    &&& py * g.width + px < bm.len()
    &&& bm[py * g.width + px] > 0
    &&& g.x + px < g.image_w
    &&& g.y + py < g.image_h
}

proof fn lemma_row_writes_at(bm: Seq<u8>, g: GlyphPlacement, py: int, n: int, x: int, y: int)
    requires
        0 <= py,
        0 <= n <= g.width,
    ensures
        forall|i: int| #[trigger] writes_at(row_writes(bm, g, py, n), i, x, y) ==> 0 <= x - g.x < n && y == g.y + py
            && from_cell(bm, g, row_writes(bm, g, py, n)[i], x - g.x, py),
        y == g.y + py && x - g.x < n && cell_on(bm, g, x - g.x, py) ==> exists|i: int|
            #[trigger] writes_at(row_writes(bm, g, py, n), i, x, y),
    decreases n,
{
    if n > 0 {
        lemma_row_writes_at(bm, g, py, n - 1, x, y);
        let a = row_writes(bm, g, py, n - 1);
        let c = crate::tray::cell_write(bm, g, n - 1, py);
        let r = row_writes(bm, g, py, n);
        assert(r == a + c);
        assert forall|i: int| #[trigger] writes_at(r, i, x, y) implies 0 <= x - g.x < n && y == g.y + py
            && from_cell(bm, g, r[i], x - g.x, py) by {
            if i < a.len() {
                assert(r[i] == a[i]);
                assert(writes_at(a, i, x, y));
            } else {
                assert(r[i] == c[i - a.len()]);
            }
        }
        if y == g.y + py && x - g.x < n && cell_on(bm, g, x - g.x, py) {
            if x - g.x < n - 1 {
                let i = choose|i: int| #[trigger] writes_at(a, i, x, y);
                assert(r[i] == a[i]);
                assert(writes_at(r, i, x, y));
            } else {
                assert(c.len() == 1);
                assert(r[a.len() as int] == c[0]);
                assert(writes_at(r, a.len() as int, x, y));
            }
        }
    }
}

proof fn lemma_glyph_writes_at(bm: Seq<u8>, g: GlyphPlacement, m: int, x: int, y: int)
    requires
        0 <= m,
    ensures
        forall|i: int| #[trigger] writes_at(glyph_writes(bm, g, m), i, x, y) ==> 0 <= y - g.y < m
            && 0 <= x - g.x < g.width && from_cell(bm, g, glyph_writes(bm, g, m)[i], x - g.x, y - g.y),
        y - g.y < m && cell_on(bm, g, x - g.x, y - g.y) ==> exists|i: int|
            #[trigger] writes_at(glyph_writes(bm, g, m), i, x, y),
    decreases m,
{
    if m > 0 {
        lemma_glyph_writes_at(bm, g, m - 1, x, y);
        lemma_row_writes_at(bm, g, m - 1, g.width as int, x, y);
        let a = glyph_writes(bm, g, m - 1);
        let c = row_writes(bm, g, m - 1, g.width as int);
        let r = glyph_writes(bm, g, m);
        assert(r == a + c);
        assert forall|i: int| #[trigger] writes_at(r, i, x, y) implies 0 <= y - g.y < m && 0 <= x - g.x < g.width
            && from_cell(bm, g, r[i], x - g.x, y - g.y) by {
            if i < a.len() {
                assert(r[i] == a[i]);
                assert(writes_at(a, i, x, y));
            } else {
                assert(r[i] == c[i - a.len()]);
                assert(writes_at(c, i - a.len(), x, y));
            }
        }
        if y - g.y < m && cell_on(bm, g, x - g.x, y - g.y) {
            if y - g.y < m - 1 {
                let i = choose|i: int| #[trigger] writes_at(a, i, x, y);
                assert(r[i] == a[i]);
                assert(writes_at(r, i, x, y));
            } else {
                let i = choose|i: int| #[trigger] writes_at(c, i, x, y);
                assert(r[i + a.len()] == c[i]);
                assert(writes_at(r, i + a.len(), x, y));
            }
        }
    }
}

/// Painting writes none of which sets `p` leaves `p` as it was.
proof fn lemma_paint_untouched(
    m: Map<(u32, u32), (u8, u8, u8, u8)>,
    ws: Seq<PixelWrite>,
    color: (u8, u8, u8),
    p: (u32, u32),
)
    requires
        forall|i: int| !#[trigger] writes_at(ws, i, p.0 as int, p.1 as int),
    ensures
        paint(m, ws, color).contains_key(p) == m.contains_key(p),
        paint(m, ws, color)[p] == m[p],
    decreases ws.len(),
{
    if ws.len() > 0 {
        let d = ws.drop_last();
        assert forall|i: int| !#[trigger] writes_at(d, i, p.0 as int, p.1 as int) by {
            if writes_at(d, i, p.0 as int, p.1 as int) {
                assert(ws[i] == d[i]);
                assert(writes_at(ws, i, p.0 as int, p.1 as int));
            }
        }
        lemma_paint_untouched(m, d, color, p);
        assert(!writes_at(ws, ws.len() - 1, p.0 as int, p.1 as int));
    }
}

/// Painting writes that all give `p` the alpha `a`, at least one of which
/// sets `p`, leaves `p` in the colour with alpha `a`.
proof fn lemma_paint_alpha(
    m: Map<(u32, u32), (u8, u8, u8, u8)>,
    ws: Seq<PixelWrite>,
    color: (u8, u8, u8),
    p: (u32, u32),
    a: u8,
)
    requires
        forall|i: int| #[trigger] writes_at(ws, i, p.0 as int, p.1 as int) ==> ws[i].alpha == a,
        exists|i: int| #[trigger] writes_at(ws, i, p.0 as int, p.1 as int),
    ensures
        paint(m, ws, color).contains_key(p),
        paint(m, ws, color)[p] == (color.0, color.1, color.2, a),
    decreases ws.len(),
{
    let last = ws.len() - 1;
    if !writes_at(ws, last, p.0 as int, p.1 as int) {
        let d = ws.drop_last();
        let i = choose|i: int| #[trigger] writes_at(ws, i, p.0 as int, p.1 as int);
        assert(d[i] == ws[i]);
        assert(writes_at(d, i, p.0 as int, p.1 as int));
        assert forall|j: int| #[trigger] writes_at(d, j, p.0 as int, p.1 as int) implies d[j].alpha == a by {
            assert(d[j] == ws[j]);
            assert(writes_at(ws, j, p.0 as int, p.1 as int));
        }
        lemma_paint_alpha(m, d, color, p, a);
    } else {
        assert(ws.last().x == p.0 && ws.last().y == p.1);
    }
}

/// The coverage of the last glyph in `gs` that covers (`x`, `y`), or 0.
spec fn top_coverage(gs: Seq<GlyphBitmap>, x: int, y: int) -> int
    decreases gs.len(),
{
    if gs.len() == 0 {
        0
    } else if glyph_coverage_at(gs.last(), x, y) > 0 {
        glyph_coverage_at(gs.last(), x, y)
    } else {
        top_coverage(gs.drop_last(), x, y)
    }
}

proof fn lemma_paint_glyphs_at(w: u32, h: u32, gs: Seq<GlyphBitmap>, color: (u8, u8, u8), x: u32, y: u32)
    requires
        x < w,
        y < h,
    ensures
        paint_glyphs(blank(w, h), gs, w, h, color).contains_key((x, y)),
        paint_glyphs(blank(w, h), gs, w, h, color)[(x, y)] == if top_coverage(gs, x as int, y as int) > 0 {
            (color.0, color.1, color.2, top_coverage(gs, x as int, y as int) as u8)
        } else {
            (0u8, 0u8, 0u8, 0u8)
        },
    decreases gs.len(),
{
    if gs.len() > 0 {
        let prev = paint_glyphs(blank(w, h), gs.drop_last(), w, h, color);
        lemma_paint_glyphs_at(w, h, gs.drop_last(), color, x, y);
        let g = gs.last();
        let pl = glyph_placement(g, w, h);
        let bm = g.coverage@;
        let ws = glyph_writes(bm, pl, g.height as int);
        lemma_glyph_writes_at(bm, pl, g.height as int, x as int, y as int);
        let cov = glyph_coverage_at(g, x as int, y as int);
        if cov > 0 {
            assert(cell_on(bm, pl, x - g.x, y - g.y));
            assert forall|i: int| #[trigger] writes_at(ws, i, x as int, y as int) implies ws[i].alpha == cov as u8 by {
                assert(from_cell(bm, pl, ws[i], x - g.x, y - g.y));
            }
            lemma_paint_alpha(prev, ws, color, (x, y), cov as u8);
        } else {
            assert forall|i: int| !#[trigger] writes_at(ws, i, x as int, y as int) by {
                if writes_at(ws, i, x as int, y as int) {
                    assert(from_cell(bm, pl, ws[i], x - g.x, y - g.y));
                }
            }
            lemma_paint_untouched(prev, ws, color, (x, y));
        }
    }
}

proof fn lemma_top_coverage(gs: Seq<GlyphBitmap>, x: int, y: int, k: int)
    requires
        0 <= k < gs.len(),
        glyph_coverage_at(gs[k], x, y) > 0,
        forall|j: int| k < j < gs.len() ==> glyph_coverage_at(#[trigger] gs[j], x, y) == 0,
    ensures
        top_coverage(gs, x, y) == glyph_coverage_at(gs[k], x, y),
    decreases gs.len(),
{
    if k < gs.len() - 1 {
        let d = gs.drop_last();
        assert(glyph_coverage_at(gs[gs.len() - 1], x, y) == 0);
        assert forall|j: int| k < j < d.len() implies glyph_coverage_at(#[trigger] d[j], x, y) == 0 by {
            assert(d[j] == gs[j]);
        }
        assert(d[k] == gs[k]);
        lemma_top_coverage(d, x, y, k);
    }
}

proof fn lemma_top_coverage_none(gs: Seq<GlyphBitmap>, x: int, y: int)
    requires
        forall|j: int| 0 <= j < gs.len() ==> glyph_coverage_at(#[trigger] gs[j], x, y) == 0,
    ensures
        top_coverage(gs, x, y) == 0,
    decreases gs.len(),
{
    if gs.len() > 0 {
        let d = gs.drop_last();
        assert(glyph_coverage_at(gs[gs.len() - 1], x, y) == 0);
        assert forall|j: int| 0 <= j < d.len() implies glyph_coverage_at(#[trigger] d[j], x, y) == 0 by {
            assert(d[j] == gs[j]);
        }
        lemma_top_coverage_none(d, x, y);
    }
}

/// Law: in the badge that `draw_badge` draws, a pixel under a glyph's bitmap
/// cell of coverage `c > 0` (and under no later glyph's covered cell) is the
/// badge colour with alpha exactly `c`, so the digits keep their anti-aliased
/// edges; a pixel that no glyph covers stays fully transparent.
pub proof fn law_badge_alpha_is_coverage(
    w: u32,
    h: u32,
    glyphs: Seq<GlyphBitmap>,
    color: (u8, u8, u8),
    x: u32,
    y: u32,
)
    requires
        x < w,
        y < h,
    ensures
        forall|k: int|
            0 <= k < glyphs.len() && glyph_coverage_at(#[trigger] glyphs[k], x as int, y as int) > 0
                && (forall|j: int| k < j < glyphs.len() ==> glyph_coverage_at(#[trigger] glyphs[j], x as int, y as int) == 0)
                ==> paint_glyphs(blank(w, h), glyphs, w, h, color)[(x, y)]
                    == (color.0, color.1, color.2, glyph_coverage_at(glyphs[k], x as int, y as int) as u8),
        (forall|j: int| 0 <= j < glyphs.len() ==> glyph_coverage_at(#[trigger] glyphs[j], x as int, y as int) == 0)
            ==> paint_glyphs(blank(w, h), glyphs, w, h, color)[(x, y)] == (0u8, 0u8, 0u8, 0u8),
{
    lemma_paint_glyphs_at(w, h, glyphs, color, x, y);
    assert forall|k: int|
        0 <= k < glyphs.len() && glyph_coverage_at(#[trigger] glyphs[k], x as int, y as int) > 0
            && (forall|j: int| k < j < glyphs.len() ==> glyph_coverage_at(#[trigger] glyphs[j], x as int, y as int) == 0)
        implies paint_glyphs(blank(w, h), glyphs, w, h, color)[(x, y)]
            == (color.0, color.1, color.2, glyph_coverage_at(glyphs[k], x as int, y as int) as u8) by {
        lemma_top_coverage(glyphs, x as int, y as int, k);
    }
    if forall|j: int| 0 <= j < glyphs.len() ==> glyph_coverage_at(#[trigger] glyphs[j], x as int, y as int) == 0 {
        lemma_top_coverage_none(glyphs, x as int, y as int);
    }
}

/// The width of the tray image for a base icon `base_w` wide and a badge
/// `badge_w` wide (no badge counts as width 0).
pub open spec fn tray_width(base_w: u32, badge_w: u32) -> int {
    if badge_w > 0 { base_w + BADGE_GAP + badge_w } else { base_w as int }
}

/// The badge's width, 0 when there is none.
pub open spec fn badge_width_of(badge: Option<IconImage>) -> u32 {
    match badge {
        Some(b) => image_size(b).0,
        None => 0,
    }
}

/// The tray image fits its pixel buffer.
pub open spec fn tray_fits(base: IconImage, badge: Option<IconImage>) -> bool {
    let w = tray_width(image_size(base).0, badge_width_of(badge));
    &&& w <= u32::MAX
    &&& w * image_size(base).1 * 4 <= usize::MAX
    &&& badge is Some ==> image_size(base).0 + BADGE_GAP <= u32::MAX
}

/// The pixels of the tray image: the base icon over a blank image, then the
/// badge to its right, past the gap.
pub open spec fn tray_pixels(base: IconImage, badge: Option<IconImage>) -> Map<(u32, u32), (u8, u8, u8, u8)> {
    let (bw, bh) = image_size(base);
    let w = tray_width(bw, badge_width_of(badge)) as u32;
    let with_base = image_overlay((w, bh), blank(w, bh), image_size(base), image_pixels(base), 0, 0);
    match badge {
        Some(b) => image_overlay((w, bh), with_base, image_size(b), image_pixels(b), (bw + BADGE_GAP) as i64, 0),
        None => with_base,
    }
}

/// The outcome of encoding the tray image, with an encoding failure reported
/// with its cause.
pub open spec fn tray_png(base: IconImage, badge: Option<IconImage>) -> Result<Seq<u8>, Seq<char>> {
    let (bw, bh) = image_size(base);
    let w = tray_width(bw, badge_width_of(badge)) as u32;
    match png_encode((w, bh), tray_pixels(base, badge)) {
        Ok(bytes) => Ok(bytes),
        Err(e) => Err("Failed to encode PNG: "@ + e),
    }
}

/// Composes the base icon and the badge and encodes the result as PNG.
pub fn compose_icon(base: &IconImage, badge: Option<&IconImage>) -> (r: Result<Vec<u8>, String>)
    requires
        tray_fits(*base, match badge { Some(b) => Some(*b), None => None }),
    ensures
        match tray_png(*base, match badge { Some(b) => Some(*b), None => None }) {
            Ok(bytes) => r matches Ok(v) && v@ == bytes,
            Err(e) => r matches Err(m) && m@ == e,
        },
{
    let ghost ob = match badge { Some(b) => Some(*b), None => None::<IconImage> };
    let (base_w, base_h) = dimensions(base);
    let badge_w: u32 = match badge {
        Some(b) => dimensions(b).0,
        None => 0,
    };
    assert(badge_w == badge_width_of(ob));
    let total_w: u32 = crate::tray::composite_width(base_w, badge_w);
    let mut composite = new_image(total_w, base_h);
    overlay(&mut composite, base, 0, 0);
    if let Some(b) = badge {
        let x: u32 = crate::tray::badge_x(base_w);
        overlay(&mut composite, b, x as i64, 0);
    }
    assert(image_pixels(composite) == tray_pixels(*base, ob));
    match encode_png(&composite) {
        Ok(v) => Ok(v),
        Err(e) => {
            let mut m = String::from_str("Failed to encode PNG: ");
            m.append(e.as_str());
            Err(m)
        },
    }
}

/// Builds the tray image when it fits its pixel buffer; a larger one is
/// refused with an error rather than composed.
pub fn tray_icon_png(base: &IconImage, badge: Option<&IconImage>) -> (r: Result<Vec<u8>, String>)
    ensures
        !tray_fits(*base, match badge { Some(b) => Some(*b), None => None }) ==> (r matches Err(m)
            && m@ == "Tray icon too large"@),
        tray_fits(*base, match badge { Some(b) => Some(*b), None => None }) ==> match tray_png(
            *base,
            match badge { Some(b) => Some(*b), None => None },
        ) {
            Ok(bytes) => r matches Ok(v) && v@ == bytes,
            Err(e) => r matches Err(m) && m@ == e,
        },
{
    let (base_w, base_h) = dimensions(base);
    let badge_w: u32 = match badge {
        Some(b) => dimensions(b).0,
        None => 0,
    };
    let total: u64 = if badge_w > 0 { base_w as u64 + 12 + badge_w as u64 } else { base_w as u64 };
    if total > u32::MAX as u64 {
        return Err(String::from_str("Tray icon too large"));
    }
    if badge.is_some() && base_w as u64 + 12 > u32::MAX as u64 {
        return Err(String::from_str("Tray icon too large"));
    }
    proof {
        assert((total as int) * (base_h as int) <= (u32::MAX as int) * (u32::MAX as int)) by (nonlinear_arith)
            requires
                total <= u32::MAX,
                base_h <= u32::MAX,
        ;
    }
    let area: u128 = total as u128 * base_h as u128 * 4;
    if area > usize::MAX as u128 {
        return Err(String::from_str("Tray icon too large"));
    }
    compose_icon(base, badge)
}

} // verus!
