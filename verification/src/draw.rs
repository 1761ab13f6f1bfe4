//! Drawing instructions for the terminal.

use crate::geometry::Rect;
use crate::text::{join3, owned};
use vstd::prelude::*;

verus! {

/// A foreground colour.
#[derive(Debug, Clone, Copy, PartialEq, Eq, Structural)]
pub enum Color {
    White,
    Gray,
    DarkGray,
    Cyan,
    Green,
    Yellow,
    Red,
}

/// One instruction to the terminal buffer.
#[derive(Debug, PartialEq, Eq)]
pub enum DrawOp {
    /// Reset every cell of a rectangle.
    Clear(Rect),
    /// Write a text, starting at a cell.
    Text { x: u16, y: u16, text: String, color: Color },
}

/// What a drawing instruction does.
pub enum DrawSpec {
    Clear(Rect),
    Text { x: int, y: int, text: Seq<char>, color: Color },
}

impl View for DrawOp {
    type V = DrawSpec;

    open spec fn view(&self) -> DrawSpec {
        match self {
            DrawOp::Clear(r) => DrawSpec::Clear(*r),
            DrawOp::Text { x, y, text, color } => DrawSpec::Text {
                x: *x as int,
                y: *y as int,
                text: text@,
                color: *color,
            },
        }
    }
}

/// What a list of instructions does, one after the other.
pub open spec fn drawing(ops: Seq<DrawOp>) -> Seq<DrawSpec> {
    ops.map_values(|op: DrawOp| op@)
}

/// A text drawn at a cell.
pub open spec fn text_at(x: int, y: int, text: Seq<char>, color: Color) -> DrawSpec {
    DrawSpec::Text { x, y, text, color }
}

/// Appends a text instruction.
pub fn push_text(ops: &mut Vec<DrawOp>, x: u16, y: u16, text: String, color: Color)
    ensures
        drawing(final(ops)@) == drawing(old(ops)@).push(text_at(x as int, y as int, text@, color)),
{
    ops.push(DrawOp::Text { x, y, text, color });
    assert(drawing(ops@) =~= drawing(old(ops)@).push(
        text_at(x as int, y as int, text@, color),
    ));
}

/// Appends an instruction to clear a rectangle.
pub fn push_clear(ops: &mut Vec<DrawOp>, area: Rect)
    ensures
        drawing(final(ops)@) == drawing(old(ops)@).push(DrawSpec::Clear(area)),
{
    ops.push(DrawOp::Clear(area));
    assert(drawing(ops@) =~= drawing(old(ops)@).push(DrawSpec::Clear(area)));
}

/// The same text at `n` columns from `x` on, first in row `top` and then in row `bottom` of each.
pub open spec fn two_rows(
    x: int,
    n: int,
    top: int,
    bottom: int,
    text: Seq<char>,
    color: Color,
) -> Seq<DrawSpec>
    decreases n,
{
    if n <= 0 {
        Seq::empty()
    } else {
        two_rows(x, n - 1, top, bottom, text, color).push(text_at(x + n - 1, top, text, color)).push(
            text_at(x + n - 1, bottom, text, color),
        )
    }
}

/// The same text at `n` rows from `y` on, first in column `left` and then in column `right` of
/// each.
pub open spec fn two_columns(
    y: int,
    n: int,
    left: int,
    right: int,
    text: Seq<char>,
    color: Color,
) -> Seq<DrawSpec>
    decreases n,
{
    if n <= 0 {
        Seq::empty()
    } else {
        two_columns(y, n - 1, left, right, text, color).push(
            text_at(left, y + n - 1, text, color),
        ).push(text_at(right, y + n - 1, text, color))
    }
}

fn push_two_rows(
    ops: &mut Vec<DrawOp>,
    x: u16,
    n: u16,
    top: u16,
    bottom: u16,
    text: &str,
    color: Color,
)
    requires
        x + n <= u16::MAX + 1,
    ensures
        drawing(final(ops)@) == drawing(old(ops)@) + two_rows(
            x as int,
            n as int,
            top as int,
            bottom as int,
            text@,
            color,
        ),
{
    let mut i: u16 = 0;
    assert(drawing(ops@) =~= drawing(old(ops)@) + two_rows(
        x as int,
        0,
        top as int,
        bottom as int,
        text@,
        color,
    ));
    while i < n
        invariant
            i <= n,
            x + n <= u16::MAX + 1,
            drawing(ops@) == drawing(old(ops)@) + two_rows(
                x as int,
                i as int,
                top as int,
                bottom as int,
                text@,
                color,
            ),
        decreases n - i,
    {
        push_text(ops, x + i, top, owned(text), color);
        push_text(ops, x + i, bottom, owned(text), color);
        i = i + 1;
        assert(drawing(ops@) =~= drawing(old(ops)@) + two_rows(
            x as int,
            i as int,
            top as int,
            bottom as int,
            text@,
            color,
        ));
    }
}

fn push_two_columns(
    ops: &mut Vec<DrawOp>,
    y: u16,
    n: u16,
    left: u16,
    right: u16,
    text: &str,
    color: Color,
)
    requires
        y + n <= u16::MAX + 1,
    ensures
        drawing(final(ops)@) == drawing(old(ops)@) + two_columns(
            y as int,
            n as int,
            left as int,
            right as int,
            text@,
            color,
        ),
{
    let mut i: u16 = 0;
    assert(drawing(ops@) =~= drawing(old(ops)@) + two_columns(
        y as int,
        0,
        left as int,
        right as int,
        text@,
        color,
    ));
    while i < n
        invariant
            i <= n,
            y + n <= u16::MAX + 1,
            drawing(ops@) == drawing(old(ops)@) + two_columns(
                y as int,
                i as int,
                left as int,
                right as int,
                text@,
                color,
            ),
        decreases n - i,
    {
        push_text(ops, left, y + i, owned(text), color);
        push_text(ops, right, y + i, owned(text), color);
        i = i + 1;
        assert(drawing(ops@) =~= drawing(old(ops)@) + two_columns(
            y as int,
            i as int,
            left as int,
            right as int,
            text@,
            color,
        ));
    }
}

/// The four corners of a box.
pub open spec fn box_corners(
    x0: int,
    y0: int,
    x1: int,
    y1: int,
    color: Color,
) -> Seq<DrawSpec> {
    seq![
        text_at(x0, y0, "┌"@, color),
        text_at(x1, y0, "┐"@, color),
        text_at(x0, y1, "└"@, color),
        text_at(x1, y1, "┘"@, color),
    ]
}

fn push_corners(ops: &mut Vec<DrawOp>, x0: u16, y0: u16, x1: u16, y1: u16, color: Color)
    ensures
        drawing(final(ops)@) == drawing(old(ops)@) + box_corners(
            x0 as int,
            y0 as int,
            x1 as int,
            y1 as int,
            color,
        ),
{
    push_text(ops, x0, y0, owned("┌"), color);
    push_text(ops, x1, y0, owned("┐"), color);
    push_text(ops, x0, y1, owned("└"), color);
    push_text(ops, x1, y1, owned("┘"), color);
    assert(drawing(ops@) =~= drawing(old(ops)@) + box_corners(
        x0 as int,
        y0 as int,
        x1 as int,
        y1 as int,
        color,
    ));
}

/// The frame around the map: corners, then the horizontal and the vertical edges between them.
pub open spec fn map_frame(area: Rect) -> Seq<DrawSpec> {
    let c = Color::DarkGray;
    let x1 = area.x + area.width - 1;
    let y1 = area.y + area.height - 1;
    if area.width < 2 || area.height < 2 {
        Seq::empty()
    } else {
        box_corners(area.x as int, area.y as int, x1, y1, c) + two_rows(
            area.x + 1,
            area.width - 2,
            area.y as int,
            y1,
            "─"@,
            c,
        ) + two_columns(area.y + 1, area.height - 2, area.x as int, x1, "│"@, c)
    }
}

/// Draws a single-line frame along the edge of `area`.
pub fn render_map_frame(area: Rect) -> (ops: Vec<DrawOp>)
    requires
        area.width >= 2 && area.height >= 2 ==> area.fits(),
    ensures
        drawing(ops@) == map_frame(area),
{
    let mut ops: Vec<DrawOp> = Vec::new();
    assert(drawing(ops@) =~= Seq::empty());
    if area.width < 2 || area.height < 2 {
        return ops;
    }
    let color = Color::DarkGray;
    let x1: u16 = area.x + area.width - 1;
    let y1: u16 = area.y + area.height - 1;
    push_corners(&mut ops, area.x, area.y, x1, y1, color);
    push_two_rows(&mut ops, area.x + 1, area.width - 2, area.y, y1, "─", color);
    push_two_columns(&mut ops, area.y + 1, area.height - 2, area.x, x1, "│", color);
    assert(drawing(ops@) =~= map_frame(area));
    ops
}

/// The border of a popup: edges, corners, the title and the close button.
pub open spec fn popup_border(area: Rect, title: Seq<char>) -> Seq<DrawSpec> {
    let g = Color::Gray;
    let x2 = area.x + area.width - 1;
    let y2 = area.y + area.height - 1;
    if area.width < 4 || area.height < 3 {
        Seq::empty()
    } else {
        two_rows(area.x as int, area.width as int, area.y as int, y2, "─"@, g) + two_columns(
            area.y as int,
            area.height as int,
            area.x as int,
            x2,
            "│"@,
            g,
        ) + box_corners(area.x as int, area.y as int, x2, y2, g) + seq![
            text_at(area.x + 2, area.y as int, " "@ + title + " "@, Color::White),
            text_at(x2 - 2, area.y as int, "[X]"@, Color::Red),
        ]
    }
}

/// Draws the border of a popup with its title and its close button in the top right corner.
pub fn render_popup_border(area: Rect, title: &str) -> (ops: Vec<DrawOp>)
    requires
        area.width >= 4 && area.height >= 3 ==> area.fits(),
    ensures
        drawing(ops@) == popup_border(area, title@),
{
    let mut ops: Vec<DrawOp> = Vec::new();
    assert(drawing(ops@) =~= Seq::empty());
    if area.width < 4 || area.height < 3 {
        return ops;
    }
    let gray = Color::Gray;
    let x2: u16 = area.x + area.width - 1;
    let y2: u16 = area.y + area.height - 1;
    push_two_rows(&mut ops, area.x, area.width, area.y, y2, "─", gray);
    push_two_columns(&mut ops, area.y, area.height, area.x, x2, "│", gray);
    push_corners(&mut ops, area.x, area.y, x2, y2, gray);
    push_text(&mut ops, area.x + 2, area.y, join3(" ", title, " "), Color::White);
    push_text(&mut ops, x2.saturating_sub(2), area.y, owned("[X]"), Color::Red);
    assert(drawing(ops@) =~= popup_border(area, title@));
    ops
}

/// Every text starts in the rectangle.
pub open spec fn starts_inside(ops: Seq<DrawSpec>, area: Rect) -> bool {
    forall|i: int|
        0 <= i < ops.len() ==> (#[trigger] ops[i] matches DrawSpec::Text { x, y, .. } ==> area.x
            <= x < area.x + area.width && area.y <= y < area.y + area.height)
}

proof fn lemma_rows_inside(x: int, n: int, top: int, bottom: int, t: Seq<char>, c: Color, area: Rect)
    requires
        area.x <= x,
        x + n <= area.x + area.width,
        area.y <= top < area.y + area.height,
        area.y <= bottom < area.y + area.height,
    ensures
        starts_inside(two_rows(x, n, top, bottom, t, c), area),
    decreases n,
{
    if n > 0 {
        lemma_rows_inside(x, n - 1, top, bottom, t, c, area);
    }
}

proof fn lemma_columns_inside(
    y: int,
    n: int,
    left: int,
    right: int,
    t: Seq<char>,
    c: Color,
    area: Rect,
)
    requires
        area.y <= y,
        y + n <= area.y + area.height,
        area.x <= left < area.x + area.width,
        area.x <= right < area.x + area.width,
    ensures
        starts_inside(two_columns(y, n, left, right, t, c), area),
    decreases n,
{
    if n > 0 {
        lemma_columns_inside(y, n - 1, left, right, t, c, area);
    }
}

/// Frames and borders start no text outside the area that they surround.
pub proof fn law_borders_stay_inside(area: Rect, title: Seq<char>)
    ensures
        starts_inside(map_frame(area), area),
        starts_inside(popup_border(area, title), area),
{
    let x1 = area.x + area.width - 1;
    let y1 = area.y + area.height - 1;
    if area.width >= 2 && area.height >= 2 {
        lemma_rows_inside(
            area.x + 1,
            area.width - 2,
            area.y as int,
            y1,
            "─"@,
            Color::DarkGray,
            area,
        );
        lemma_columns_inside(
            area.y + 1,
            area.height - 2,
            area.x as int,
            x1,
            "│"@,
            Color::DarkGray,
            area,
        );
    }
    if area.width >= 4 && area.height >= 3 {
        lemma_rows_inside(
            area.x as int,
            area.width as int,
            area.y as int,
            y1,
            "─"@,
            Color::Gray,
            area,
        );
        lemma_columns_inside(
            area.y as int,
            area.height as int,
            area.x as int,
            x1,
            "│"@,
            Color::Gray,
            area,
        );
    }
}

} // verus!
