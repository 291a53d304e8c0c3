//! Popup geometry in terminal cells.
use vstd::prelude::*;
use crate::text::chars_of;

verus! {

/// A rectangle of terminal cells.
#[derive(Clone, Copy, Debug, PartialEq, Eq, Structural)]
pub struct Rect {
    pub x: u16,
    pub y: u16,
    pub width: u16,
    pub height: u16,
}

/// Rows a segment of `n` characters takes at width `w`: at least one.
pub open spec fn segment_rows(n: int, w: int) -> int {
    if n == 0 {
        1
    } else {
        (n + w - 1) / w
    }
}

/// Rows taken by `s` at width `w`, where the current line already holds `cur`
/// characters; every newline starts a new line.
pub open spec fn rows_from(s: Seq<char>, w: int, cur: int) -> int
    decreases s.len(),
{
    if s.len() == 0 {
        segment_rows(cur, w)
    } else if s[0] == '\n' {
        segment_rows(cur, w) + rows_from(s.drop_first(), w, 0)
    } else {
        rows_from(s.drop_first(), w, cur + 1)
    }
}

/// The rows a message wraps to at a width of at least one cell.
pub open spec fn wrapped_rows(s: Seq<char>, w: int) -> int {
    rows_from(s, if w < 1 { 1 } else { w }, 0)
}

proof fn lemma_rows_bound(s: Seq<char>, w: int, cur: int)
    requires
        w >= 1,
        cur >= 0,
    ensures
        1 <= rows_from(s, w, cur) <= cur + s.len() + 1,
    decreases s.len(),
{
    lemma_segment_rows(cur, w);
    if s.len() > 0 {
        if s[0] == '\n' {
            lemma_rows_bound(s.drop_first(), w, 0);
        } else {
            lemma_rows_bound(s.drop_first(), w, cur + 1);
        }
    }
}

proof fn lemma_ceil(n: int, w: int)
    requires
        n >= 1,
        w >= 1,
    ensures
        (n - 1) / w + 1 == (n + w - 1) / w,
{
    vstd::arithmetic::div_mod::lemma_div_plus_one(n - 1, w);
}

proof fn lemma_segment_rows(n: int, w: int)
    requires
        w >= 1,
        n >= 0,
    ensures
        1 <= segment_rows(n, w) <= n + 1,
{
    if n > 0 {
        assert((n + w - 1) / w >= 1) by (nonlinear_arith)
            requires n >= 1, w >= 1;
        assert((n + w - 1) / w <= n) by (nonlinear_arith)
            requires n >= 1, w >= 1;
    }
}

/// Estimated rows of a status message at a content width; the count is kept
/// modulo 2^16.
pub fn wrapped_line_count(message: &str, content_width: u16) -> (r: u16)
    ensures
        r as int == wrapped_rows(message@, content_width as int) % 0x10000,
{
    let w: usize = if content_width < 1 { 1 } else { content_width as usize };
    let cs = chars_of(message);
    let mut total: u128 = 0;
    let mut cur: usize = 0;
    let mut i: usize = 0;
    proof {
        assert(cs@.skip(0) =~= cs@);
    }
    while i < cs.len()
        invariant
            w >= 1,
            w as int == (if content_width < 1 { 1 } else { content_width as int }),
            i <= cs@.len(),
            cs@ == message@,
            total + cur <= i,
            total + rows_from(cs@.skip(i as int), w as int, cur as int) == wrapped_rows(
                message@,
                content_width as int,
            ),
        decreases cs@.len() - i,
    {
        assert(cs@.skip(i as int).drop_first() =~= cs@.skip(i + 1));
        if cs[i] == '\n' {
            proof {
                lemma_segment_rows(cur as int, w as int);
            }
            let rows: usize = if cur == 0 { 1 } else { (cur - 1) / w + 1 };
            proof {
                assert(rows as int == segment_rows(cur as int, w as int)) by {
                    if cur > 0 {
                        lemma_ceil(cur as int, w as int);
                    }
                }
            }
            total = total + rows as u128;
            cur = 0;
        } else {
            cur = cur + 1;
        }
        i += 1;
    }
    proof {
        lemma_segment_rows(cur as int, w as int);
        assert(cs@.skip(i as int).len() == 0);
    }
    let rows: usize = if cur == 0 { 1 } else { (cur - 1) / w + 1 };
    proof {
        if cur > 0 {
            lemma_ceil(cur as int, w as int);
        }
    }
    let t: u128 = total + rows as u128;
    (t % 0x10000) as u16
}

/// `width` by `height` cells centred in `area`, shrunk to fit and at least one
/// cell each way.
pub open spec fn centered(width: int, height: int, area: Rect) -> Rect {
    let w = if width > area.width { area.width as int } else { width };
    let w = if w < 1 { 1 } else { w };
    let h = if height > area.height { area.height as int } else { height };
    let h = if h < 1 { 1 } else { h };
    let sx = if area.width >= w { area.width - w } else { 0 };
    let sy = if area.height >= h { area.height - h } else { 0 };
    Rect {
        x: (area.x + sx / 2) as u16,
        y: (area.y + sy / 2) as u16,
        width: w as u16,
        height: h as u16,
    }
}

/// Centres a rectangle of the given size in `area`.
pub fn centered_rect(width: u16, height: u16, area: Rect) -> (r: Rect)
    requires
        area.x + area.width <= u16::MAX,
        area.y + area.height <= u16::MAX,
    ensures
        r == centered(width as int, height as int, area),
        r.x + r.width <= area.x + area.width || area.width == 0,
        r.y + r.height <= area.y + area.height || area.height == 0,
{
    let w = if width > area.width { area.width } else { width };
    let w = if w < 1 { 1 } else { w };
    let h = if height > area.height { area.height } else { height };
    let h = if h < 1 { 1 } else { h };
    let sx = if area.width >= w { area.width - w } else { 0 };
    let sy = if area.height >= h { area.height - h } else { 0 };
    Rect { x: area.x + sx / 2, y: area.y + sy / 2, width: w, height: h }
}

/// Centres a rectangle whose width is a share of `area`'s width, the share
/// being kept between 10 and 100 percent.
pub fn centered_rect_percent(percent_x: u16, height: u16, area: Rect) -> (r: Rect)
    requires
        area.x + area.width <= u16::MAX,
        area.y + area.height <= u16::MAX,
    ensures
        r == centered(
            area.width * (if percent_x < 10 { 10 } else if percent_x > 100 { 100 } else { percent_x as int }) / 100,
            height as int,
            area,
        ),
{
    let p: u64 = if percent_x < 10 { 10 } else if percent_x > 100 { 100 } else { percent_x as u64 };
    let aw: u64 = area.width as u64;
    assert(aw * p <= aw * 100) by (nonlinear_arith)
        requires p <= 100;
    let prod: u64 = aw * p;
    assert(prod / 100 <= aw) by (nonlinear_arith)
        requires prod <= aw * 100;
    let width = (prod / 100) as u16;
    centered_rect(width, height, area)
}

/// `target` moved up for a slide-in at `progress` thousandths: fully up at 0,
/// in place at 1000.
pub fn slide_from_top(target: Rect, progress: u16) -> (r: Rect)
    ensures
        r.x == target.x,
        r.width == target.width,
        r.height == target.height,
        r.y == target.y - (1000 - (if progress > 1000 { 1000 } else { progress as int })) * target.y / 1000,
{
    let p: u64 = if progress > 1000 { 1000 } else { progress as u64 };
    let ty: u64 = target.y as u64;
    assert((1000 - p) * ty <= 1000 * ty) by (nonlinear_arith)
        requires p <= 1000;
    let prod: u64 = (1000 - p) * ty;
    let offset: u64 = prod / 1000;
    assert(offset <= ty) by (nonlinear_arith)
        requires offset == prod / 1000, prod <= 1000 * ty;
    Rect { x: target.x, y: target.y - offset as u16, width: target.width, height: target.height }
}

} // verus!
