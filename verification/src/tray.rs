//! The tray icon: the unread badge and sync status it shows, and its layout.

use vstd::prelude::*;
use crate::text::push_char;

verus! {

/// The ASCII digit for `d`, for `d` below ten.
pub open spec fn digit(d: nat) -> char {
    if d == 0 { '0' } else if d == 1 { '1' } else if d == 2 { '2' } else if d == 3 { '3' }
    else if d == 4 { '4' } else if d == 5 { '5' } else if d == 6 { '6' } else if d == 7 { '7' }
    else if d == 8 { '8' } else { '9' }
}

/// The decimal digits of `n`, most significant first, without leading zeros.
pub open spec fn decimal(n: nat) -> Seq<char>
    decreases n,
{
    if n < 10 {
        seq![digit(n)]
    } else {
        decimal(n / 10).push(digit(n % 10))
    }
}

fn digit_char(d: u32) -> (c: char)
    requires
        d < 10,
    ensures
        c == digit(d as nat),
{
    if d == 0 { '0' } else if d == 1 { '1' } else if d == 2 { '2' } else if d == 3 { '3' }
    else if d == 4 { '4' } else if d == 5 { '5' } else if d == 6 { '6' } else if d == 7 { '7' }
    else if d == 8 { '8' } else { '9' }
}

/// Appends the decimal digits of `n` to `out`.
pub fn push_decimal(out: &mut String, n: u32)
    ensures
        final(out)@ == old(out)@ + decimal(n as nat),
    decreases n,
{
    if n >= 10 {
        push_decimal(out, n / 10);
    }
    push_char(out, digit_char(n % 10));
    assert(decimal(n as nat) =~= if n < 10 { seq![digit(n as nat)] } else { decimal((n / 10) as nat).push(digit((n % 10) as nat)) });
}

/// The number drawn next to the tray icon: the count, or `99+` above 99.
pub open spec fn badge_label(count: u32) -> Seq<char> {
    if count > 99 { "99+"@ } else { decimal(count as nat) }
}

/// The text of the unread badge for `count` unread messages.
pub fn badge_text(count: u32) -> (text: String)
    ensures
        text@ == badge_label(count),
{
    if count > 99 {
        String::from_str("99+")
    } else {
        let mut s = String::new();
        push_decimal(&mut s, count);
        assert(s@ =~= decimal(count as nat));
        s
    }
}

/// Law: the badge never takes more than three characters, and shows a
/// number whenever there are unread messages.
pub proof fn law_badge_short(count: u32)
    ensures
        badge_label(count).len() <= 3,
        badge_label(count).len() >= 1,
{
    reveal_strlit("99+");
    if count <= 99 {
        if count >= 10 {
            assert(decimal((count / 10) as nat).len() == 1);
        }
    }
}

/// The tray tooltip: the application's name, the count when there is one,
/// and the status when the client is disconnected.
pub open spec fn badge_tooltip(count: u32, disconnected: bool) -> Seq<char> {
    if count == 0 && !disconnected {
        "Elevo Messenger"@
    } else if disconnected {
        if count == 0 {
            "Elevo Messenger - Disconnected"@
        } else {
            "Elevo Messenger ("@ + decimal(count as nat) + ") - Disconnected"@
        }
    } else {
        "Elevo Messenger ("@ + decimal(count as nat) + ")"@
    }
}

/// The tooltip for `count` unread messages and the sync status.
pub fn tray_tooltip(count: u32, disconnected: bool) -> (tip: String)
    ensures
        tip@ == badge_tooltip(count, disconnected),
{
    if count == 0 {
        if disconnected {
            return String::from_str("Elevo Messenger - Disconnected");
        }
        return String::from_str("Elevo Messenger");
    }
    let mut s = String::from_str("Elevo Messenger (");
    push_decimal(&mut s, count);
    if disconnected {
        s.append(") - Disconnected");
    } else {
        s.append(")");
    }
    s
}

/// Which icon the badge is drawn beside.
pub enum BaseIcon {
    /// The application's own icon.
    Default,
    /// The icon that marks a lost connection.
    Disconnected,
}

/// What the tray icon should show.
pub enum TrayBadgePlan {
    /// Put back the plain icon, with no number, and set this tooltip.
    Restore { tooltip: String },
    /// Draw `base` with the `badge` text to its right, and set `tooltip`.
    Render { base: BaseIcon, badge: String, tooltip: String },
}

/// The sync status marks the client as disconnected.
pub open spec fn is_disconnected(sync_status: Option<Seq<char>>) -> bool {
    sync_status == Some("disconnected"@)
}

/// Decides what the tray shows for `count` unread messages and the sync
/// status: with no unread messages, the plain icon again (no number shown);
/// otherwise the icon (the disconnected one when disconnected) with the count
/// beside it. The tooltip names the count and the disconnected status.
pub fn tray_badge_plan(count: u32, sync_status: Option<&str>) -> (plan: TrayBadgePlan)
    ensures
        ({
            let disc = is_disconnected(match sync_status { Some(s) => Some(s@), None => None });
            if count == 0 {
                plan matches TrayBadgePlan::Restore { tooltip } && tooltip@ == badge_tooltip(count, disc)
            } else {
                plan matches TrayBadgePlan::Render { base, badge, tooltip }
                    && (disc <==> base is Disconnected)
                    && badge@ == badge_label(count)
                    && tooltip@ == badge_tooltip(count, disc)
            }
        }),
{
    let disconnected = match sync_status {
        Some(s) => crate::text::str_eq(s, "disconnected"),
        None => false,
    };
    if count == 0 {
        return TrayBadgePlan::Restore { tooltip: tray_tooltip(count, disconnected) };
    }
    let base = if disconnected { BaseIcon::Disconnected } else { BaseIcon::Default };
    TrayBadgePlan::Render { base, badge: badge_text(count), tooltip: tray_tooltip(count, disconnected) }
}

/// The room between the icon and the badge.
pub const BADGE_GAP: u32 = 12;

/// The width of the tray image: the icon alone, or the icon, the gap and the badge.
pub fn composite_width(base_w: u32, badge_w: u32) -> (w: u32)
    requires
        badge_w > 0 ==> base_w + BADGE_GAP + badge_w <= u32::MAX,
    ensures
        w == if badge_w > 0 { base_w + BADGE_GAP + badge_w } else { base_w as int },
{
    if badge_w > 0 { base_w + BADGE_GAP + badge_w } else { base_w }
}

/// Where the badge starts in the tray image.
pub fn badge_x(base_w: u32) -> (x: u32)
    requires
        base_w + BADGE_GAP <= u32::MAX,
    ensures
        x == base_w + BADGE_GAP,
{
    base_w + BADGE_GAP
}

/// One rasterized character of the badge: its advance (rounded up), the
/// offset of its bitmap from the pen position, and its bitmap's size.
pub struct GlyphBox {
    pub advance: usize,
    pub xmin: i32,
    pub width: usize,
    pub height: usize,
}

/// The space between two characters of the badge.
pub open spec fn char_gap() -> int { 1 }

/// The space before the first and after the last character of the badge.
pub open spec fn badge_pad() -> int { 2 }

/// The sum of the advances of `g`.
pub open spec fn total_advance(g: Seq<GlyphBox>) -> int
    decreases g.len(),
{
    if g.len() == 0 { 0 } else { total_advance(g.drop_last()) + g.last().advance }
}

/// The pen position where character `i` of `g` starts.
pub open spec fn pen_x(g: Seq<GlyphBox>, i: int) -> int {
    badge_pad() + total_advance(g.take(i)) + i * char_gap()
}

/// The left edge of character `i`'s bitmap.
pub open spec fn glyph_x(g: Seq<GlyphBox>, i: int) -> int {
    pen_x(g, i) + if g[i].xmin > 0 { g[i].xmin as int } else { 0 }
}

/// The width of the badge image: the advances, the gaps between characters and
/// the padding on both sides, truncated to `u32` as the cast does.
pub open spec fn badge_width(g: Seq<GlyphBox>) -> u32 {
    (total_advance(g) + (if g.len() > 1 { (g.len() - 1) * char_gap() } else { 0 }) + 2 * badge_pad()) as u32
}

proof fn lemma_total_advance_take(g: Seq<GlyphBox>, i: int)
    requires
        0 <= i < g.len(),
    ensures
        total_advance(g.take(i + 1)) == total_advance(g.take(i)) + g[i].advance,
{
    assert(g.take(i + 1).drop_last() =~= g.take(i));
}

proof fn lemma_total_advance_mono(g: Seq<GlyphBox>, i: int)
    requires
        0 <= i <= g.len(),
    ensures
        total_advance(g.take(i)) <= total_advance(g),
    decreases g.len() - i,
{
    if i < g.len() {
        lemma_total_advance_take(g, i);
        lemma_total_advance_mono(g, i + 1);
    } else {
        assert(g.take(i) =~= g);
    }
}

/// The badge's layout: the image width and the left edge of each character's bitmap.
pub fn badge_layout(glyphs: &Vec<GlyphBox>) -> (r: (u32, Vec<usize>))
    requires
        total_advance(glyphs@) + glyphs@.len() + 2 * badge_pad() + i32::MAX <= usize::MAX,
    ensures
        r.0 == badge_width(glyphs@),
        r.1@.len() == glyphs@.len(),
        forall|i: int| 0 <= i < glyphs@.len() ==> r.1@[i] == glyph_x(glyphs@, i),
{
    let n: usize = glyphs.len();
    let mut xs: Vec<usize> = Vec::new();
    let mut total: usize = 0;
    let mut x_off: usize = 2;
    let mut i: usize = 0;
    assert(glyphs@.take(0) =~= Seq::<GlyphBox>::empty());
    while i < n
        invariant
            n == glyphs@.len(),
            i <= n,
            total == total_advance(glyphs@.take(i as int)),
            x_off == pen_x(glyphs@, i as int),
            xs@.len() == i,
            forall|k: int| 0 <= k < i ==> xs@[k] == glyph_x(glyphs@, k),
            total_advance(glyphs@) + glyphs@.len() + 2 * badge_pad() + i32::MAX <= usize::MAX,
        decreases n - i,
    {
        proof {
            lemma_total_advance_take(glyphs@, i as int);
            lemma_total_advance_mono(glyphs@, i as int + 1);
        }
        let g = &glyphs[i];
        let lead: usize = if g.xmin > 0 { g.xmin as usize } else { 0 };
        xs.push(x_off + lead);
        total = total + g.advance;
        x_off = x_off + g.advance + 1;
        i = i + 1;
    }
    assert(glyphs@.take(n as int) =~= glyphs@);
    let inner: usize = total + if n > 1 { n - 1 } else { 0 };
    ((inner + 4) as u32, xs)
}

} // verus!

verus! {

/// Where a glyph's bitmap is drawn in the badge image, and the image's size.
pub struct GlyphPlacement {
    /// The left and top edges of the bitmap in the image.
    pub x: usize,
    pub y: usize,
    /// The bitmap's width and height.
    pub width: usize,
    pub height: usize,
    /// The badge image's width and height.
    pub image_w: u32,
    pub image_h: u32,
}

/// One pixel set in the badge image: the badge colour with this coverage as alpha.
pub struct PixelWrite {
    pub x: u32,
    pub y: u32,
    pub alpha: u8,
}

/// The pixel that bitmap cell (`px`, `py`) sets: one whose coverage is not
/// zero and that falls inside the image. Cells past the bitmap's end set none.
pub open spec fn cell_write(bitmap: Seq<u8>, g: GlyphPlacement, px: int, py: int) -> Seq<PixelWrite> {
    let idx: int = py * g.width + px;
    if idx < bitmap.len() && bitmap[idx] > 0 && g.x + px < g.image_w && g.y + py < g.image_h {
        seq![PixelWrite { x: (g.x + px) as u32, y: (g.y + py) as u32, alpha: bitmap[idx] }]
    } else {
        Seq::empty()
    }
}

/// The pixels set by the first `n` cells of row `py`, left to right.
pub open spec fn row_writes(bitmap: Seq<u8>, g: GlyphPlacement, py: int, n: int) -> Seq<PixelWrite>
    decreases n,
{
    if n <= 0 {
        Seq::empty()
    } else {
        row_writes(bitmap, g, py, n - 1) + cell_write(bitmap, g, n - 1, py)
    }
}

/// The pixels set by the first `m` rows of the bitmap, top to bottom.
pub open spec fn glyph_writes(bitmap: Seq<u8>, g: GlyphPlacement, m: int) -> Seq<PixelWrite>
    decreases m,
{
    if m <= 0 {
        Seq::empty()
    } else {
        glyph_writes(bitmap, g, m - 1) + row_writes(bitmap, g, m - 1, g.width as int)
    }
}

/// The pixels that drawing one glyph's coverage bitmap sets in the badge
/// image, row by row.
pub fn glyph_pixels(bitmap: &Vec<u8>, g: &GlyphPlacement) -> (w: Vec<PixelWrite>)
    requires
        g.width * g.height <= usize::MAX,
        g.x + g.width <= usize::MAX,
        g.y + g.height <= usize::MAX,
    ensures
        w@ == glyph_writes(bitmap@, *g, g.height as int),
{
    let mut w: Vec<PixelWrite> = Vec::new();
    let mut py: usize = 0;
    while py < g.height
        invariant
            py <= g.height,
            g.width * g.height <= usize::MAX,
            g.x + g.width <= usize::MAX,
            g.y + g.height <= usize::MAX,
            w@ == glyph_writes(bitmap@, *g, py as int),
        decreases g.height - py,
    {
        proof {
            assert(py * g.width + g.width <= g.width * g.height) by (nonlinear_arith)
                requires
                    py < g.height,
            ;
        }
        let row: usize = py * g.width;
        let mut px: usize = 0;
        while px < g.width
            invariant
                py < g.height,
                px <= g.width,
                row == py * g.width,
                row + g.width <= usize::MAX,
                g.x + g.width <= usize::MAX,
                g.y + g.height <= usize::MAX,
                w@ == glyph_writes(bitmap@, *g, py as int) + row_writes(bitmap@, *g, py as int, px as int),
            decreases g.width - px,
        {
            let ghost before = w@;
            let idx: usize = row + px;
            if idx < bitmap.len() {
                let alpha: u8 = bitmap[idx];
                if alpha > 0 {
                    let ix: usize = g.x + px;
                    let iy: usize = g.y + py;
                    if ix < g.image_w as usize && iy < g.image_h as usize {
                        w.push(PixelWrite { x: ix as u32, y: iy as u32, alpha });
                    }
                }
            }
            proof {
                let cw = cell_write(bitmap@, *g, px as int, py as int);
                assert(w@ =~= before + cw);
                assert(row_writes(bitmap@, *g, py as int, px + 1) == row_writes(bitmap@, *g, py as int, px as int) + cw);
                assert(before + cw =~= glyph_writes(bitmap@, *g, py as int) + (row_writes(bitmap@, *g, py as int, px as int) + cw));
            }
            px = px + 1;
        }
        py = py + 1;
    }
    w
}

/// Every pixel of the first `n` cells of a row lies inside the badge image.
proof fn lemma_row_inside(bitmap: Seq<u8>, g: GlyphPlacement, py: int, n: int)
    requires
        0 <= py,
    ensures
        forall|k: int| 0 <= k < row_writes(bitmap, g, py, n).len() ==>
            (#[trigger] row_writes(bitmap, g, py, n)[k]).x < g.image_w && row_writes(bitmap, g, py, n)[k].y < g.image_h,
    decreases n,
{
    if n > 0 {
        lemma_row_inside(bitmap, g, py, n - 1);
        let a = row_writes(bitmap, g, py, n - 1);
        let c = cell_write(bitmap, g, n - 1, py);
        assert(row_writes(bitmap, g, py, n) == a + c);
        assert forall|k: int| 0 <= k < (a + c).len() implies (#[trigger] (a + c)[k]).x < g.image_w && (a + c)[k].y < g.image_h by {
            if k >= a.len() {
                assert((a + c)[k] == c[k - a.len()]);
                assert(c.len() == 1);
                assert(k - a.len() == 0);
                let xv: int = g.x + n - 1;
                let yv: int = g.y + py;
                assert(0 <= xv < g.image_w);
                assert(0 <= yv < g.image_h);
            } else {
                assert((a + c)[k] == a[k]);
            }
        }
    }
}

/// Law: drawing a glyph only ever sets pixels inside the badge image.
pub proof fn law_glyph_pixels_inside(bitmap: Seq<u8>, g: GlyphPlacement, m: int)
    ensures
        forall|k: int| 0 <= k < glyph_writes(bitmap, g, m).len() ==>
            (#[trigger] glyph_writes(bitmap, g, m)[k]).x < g.image_w && glyph_writes(bitmap, g, m)[k].y < g.image_h,
    decreases m,
{
    if m > 0 {
        law_glyph_pixels_inside(bitmap, g, m - 1);
        lemma_row_inside(bitmap, g, m - 1, g.width as int);
        let a = glyph_writes(bitmap, g, m - 1);
        let c = row_writes(bitmap, g, m - 1, g.width as int);
        assert forall|k: int| 0 <= k < (a + c).len() implies (#[trigger] (a + c)[k]).x < g.image_w && (a + c)[k].y < g.image_h by {
            if k >= a.len() {
                assert((a + c)[k] == c[k - a.len()]);
            } else {
                assert((a + c)[k] == a[k]);
            }
        }
    }
}

} // verus!
