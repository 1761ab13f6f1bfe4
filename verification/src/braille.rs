//! A framebuffer of Braille cells: every cell holds two by four dots.

use vstd::prelude::*;

verus! {

/// `char::from_u32` from the standard library: every Unicode scalar value, and nothing else,
/// is turned into the character of that number.
pub assume_specification[ char::from_u32 ](i: u32) -> (c: Option<char>)
    ensures
        (i < 0xD800 || 0xE000 <= i <= 0x10FFFF) ==> c is Some && c->0 as u32 == i,
        !(i < 0xD800 || 0xE000 <= i <= 0x10FFFF) ==> c is None,
;

/// The bit of one dot in its cell: `bx` counts the columns, `by` the rows.
pub open spec fn dot_mask(bx: int, by: int) -> u8 {
    if bx == 0 && by == 0 {
        0x01
    } else if bx == 1 && by == 0 {
        0x08
    } else if bx == 0 && by == 1 {
        0x02
    } else if bx == 1 && by == 1 {
        0x10
    } else if bx == 0 && by == 2 {
        0x04
    } else if bx == 1 && by == 2 {
        0x20
    } else if bx == 0 && by == 3 {
        0x40
    } else {
        0x80
    }
}

/// The Braille dot of a pixel. The column is `px` modulo two and the row is `py` modulo four,
/// with the remainder never negative.
pub fn pixel_mask_for(px: i32, py: i32) -> (mask: u8)
    ensures
        mask == dot_mask(px as int % 2, py as int % 4),
{
    let rx: i32 = px % 2;
    let ry: i32 = py % 4;
    let bx: i32 = if rx < 0 {
        rx + 2
    } else {
        rx
    };
    let by: i32 = if ry < 0 {
        ry + 4
    } else {
        ry
    };
    match (bx, by) {
        (0, 0) => 0x01,
        (1, 0) => 0x08,
        (0, 1) => 0x02,
        (1, 1) => 0x10,
        (0, 2) => 0x04,
        (1, 2) => 0x20,
        (0, 3) => 0x40,
        _ => 0x80,
    }
}

/// A monochrome picture, two pixels wide and four pixels high per character cell.
pub struct BrailleFrame {
    pub width_px: u32,
    pub height_px: u32,
    pub width_cells: u32,
    pub height_cells: u32,
    /// One dot mask per cell, row by row.
    pub masks: Vec<u8>,
}

/// Where the cell of column `cx` and row `cy` lies in a row-by-row sequence.
pub open spec fn cell_index(width_cells: int, cx: int, cy: int) -> int {
    cx + width_cells * cy
}

impl BrailleFrame {
    /// The sizes agree with each other and with the number of masks.
    pub open spec fn wf(self) -> bool {
        &&& self.width_px == 2 * self.width_cells
        &&& self.height_px == 4 * self.height_cells
        &&& self.masks@.len() == self.width_cells * self.height_cells
        &&& self.masks@.len() <= u32::MAX
    }

    /// Both frames have the same size.
    pub open spec fn same_size(self, other: BrailleFrame) -> bool {
        &&& self.width_px == other.width_px
        &&& self.height_px == other.height_px
        &&& self.width_cells == other.width_cells
        &&& self.height_cells == other.height_cells
    }

    /// The pixel lies on the frame.
    pub open spec fn contains(self, x: int, y: int) -> bool {
        0 <= x < self.width_px && 0 <= y < self.height_px
    }

    /// The pixel can be set: it lies on a frame whose sizes fit in signed pixel coordinates.
    pub open spec fn drawable(self, x: int, y: int) -> bool {
        &&& self.contains(x, y)
        &&& self.width_px <= i32::MAX
        &&& self.height_px <= i32::MAX
    }

    /// The pixel lies on the frame and its dot is set.
    pub open spec fn lit(self, x: int, y: int) -> bool {
        &&& self.contains(x, y)
        &&& self.masks@[cell_index(self.width_cells as int, x / 2, y / 4)] & dot_mask(x % 2, y % 4)
            != 0
    }

    /// An empty frame of `width_cells` by `height_cells` characters.
    pub fn new(width_cells: u32, height_cells: u32) -> (frame: Self)
        requires
            2 * width_cells <= u32::MAX,
            4 * height_cells <= u32::MAX,
            width_cells * height_cells <= u32::MAX,
        ensures
            frame.wf(),
            frame.width_cells == width_cells,
            frame.height_cells == height_cells,
            forall|x: int, y: int| !frame.lit(x, y),
            forall|i: int| 0 <= i < frame.masks@.len() ==> frame.masks@[i] == 0,
    {
        let width_px: u32 = width_cells * 2;
        let height_px: u32 = height_cells * 4;
        let cells: usize = (width_cells * height_cells) as usize;
        let frame = BrailleFrame {
            width_px,
            height_px,
            width_cells,
            height_cells,
            masks: vec![0u8; cells],
        };
        assert forall|x: int, y: int| !frame.lit(x, y) by {
            if frame.contains(x, y) {
                lemma_cell_in_range(width_cells as int, height_cells as int, x, y);
                lemma_blank_mask(dot_mask(x % 2, y % 4));
            }
        }
        frame
    }

    /// Clears every dot.
    pub fn clear(&mut self)
        requires
            old(self).wf(),
        ensures
            final(self).wf(),
            final(self).same_size(*old(self)),
            forall|x: int, y: int| !final(self).lit(x, y),
            forall|i: int| 0 <= i < final(self).masks@.len() ==> final(self).masks@[i] == 0,
    {
        let cells: usize = self.masks.len();
        self.masks = vec![0u8; cells];
        assert forall|x: int, y: int| !self.lit(x, y) by {
            if self.contains(x, y) {
                lemma_cell_in_range(self.width_cells as int, self.height_cells as int, x, y);
                lemma_blank_mask(dot_mask(x % 2, y % 4));
            }
        }
    }

    /// Sets one pixel. Coordinates off the frame are ignored.
    pub fn set_pixel(&mut self, x: i32, y: i32)
        requires
            old(self).wf(),
        ensures
            final(self).wf(),
            final(self).same_size(*old(self)),
            forall|px: int, py: int| #[trigger]
                final(self).lit(px, py) == (old(self).lit(px, py) || (px == x && py == y && old(
                    self,
                ).drawable(px, py))),
    {
        if x < 0 || y < 0 {
            return;
        }
        if self.width_px > i32::MAX as u32 || self.height_px > i32::MAX as u32 {
            return;
        }
        if x >= self.width_px as i32 || y >= self.height_px as i32 {
            return;
        }
        let cell_x: u32 = (x / 2) as u32;
        let cell_y: u32 = (y / 4) as u32;
        proof {
            lemma_cell_in_range(
                self.width_cells as int,
                self.height_cells as int,
                x as int,
                y as int,
            );
            assert(self.width_cells * cell_y >= 0) by (nonlinear_arith)
                requires
                    self.width_cells >= 0,
                    cell_y >= 0,
            ;
        }
        let idx: usize = (cell_x + self.width_cells * cell_y) as usize;
        let mask: u8 = pixel_mask_for(x, y);
        let cell: u8 = self.masks[idx];
        self.masks.set(idx, cell | mask);
        assert forall|px: int, py: int| #[trigger]
            self.lit(px, py) == (old(self).lit(px, py) || (px == x && py == y && old(
                self,
            ).drawable(px, py))) by {
            if self.contains(px, py) {
                let w = self.width_cells as int;
                lemma_cell_in_range(w, self.height_cells as int, px, py);
                lemma_set_dot(cell, x as int % 2, y as int % 4, px % 2, py % 4);
                if cell_index(w, px / 2, py / 4) == idx {
                    lemma_cell_unique(w, x as int / 2, y as int / 4, px / 2, py / 4);
                }
            }
        }
    }

    /// The Braille character of a dot mask.
    pub fn cell_char(mask: u8) -> (c: char)
        ensures
            c as u32 == 0x2800 + mask,
    {
        match char::from_u32(0x2800u32 + mask as u32) {
            Some(c) => c,
            None => ' ',
        }
    }
}

proof fn lemma_blank_mask(m: u8)
    ensures
        0u8 & m == 0,
{
    assert(0u8 & m == 0) by (bit_vector);
}

/// A pixel on the frame has its cell among the masks.
pub proof fn lemma_cell_in_range(w: int, h: int, x: int, y: int)
    requires
        0 <= x < 2 * w,
        0 <= y < 4 * h,
    ensures
        0 <= x / 2 < w,
        0 <= y / 4 < h,
        0 <= cell_index(w, x / 2, y / 4) < w * h,
{
    let cx = x / 2;
    let cy = y / 4;
    assert(0 <= cx + w * cy < w * h) by (nonlinear_arith)
        requires
            0 <= cx < w,
            0 <= cy < h,
    ;
}

/// Two cells with the same index are the same cell.
pub proof fn lemma_cell_unique(w: int, cx: int, cy: int, dx: int, dy: int)
    requires
        0 <= cx < w,
        0 <= dx < w,
        cell_index(w, cx, cy) == cell_index(w, dx, dy),
    ensures
        cx == dx,
        cy == dy,
{
    assert(w * (cy - dy) == dx - cx) by (nonlinear_arith)
        requires
            cx + w * cy == dx + w * dy,
    ;
    assert(cy == dy) by (nonlinear_arith)
        requires
            w * (cy - dy) == dx - cx,
            -w < dx - cx < w,
    ;
}

/// Setting one dot of a mask leaves the other seven as they were.
proof fn lemma_set_dot(mask: u8, ax: int, ay: int, bx: int, by: int)
    requires
        0 <= ax < 2,
        0 <= ay < 4,
        0 <= bx < 2,
        0 <= by < 4,
    ensures
        ((mask | dot_mask(ax, ay)) & dot_mask(bx, by) != 0) == (mask & dot_mask(bx, by) != 0 || (ax
            == bx && ay == by)),
{
    let a = dot_mask(ax, ay);
    let b = dot_mask(bx, by);
    assert(a == b <==> ax == bx && ay == by);
    assert(((mask | a) & b != 0) == (mask & b != 0 || a == b)) by (bit_vector)
        requires
            a == 1 || a == 2 || a == 4 || a == 8 || a == 16 || a == 32 || a == 64 || a == 128,
            b == 1 || b == 2 || b == 4 || b == 8 || b == 16 || b == 32 || b == 64 || b == 128,
    ;
}

/// A mask is determined by its eight dots.
proof fn lemma_dots_make_the_mask(a: u8, b: u8)
    requires
        forall|bx: int, by: int|
            0 <= bx < 2 && 0 <= by < 4 ==> (a & #[trigger] dot_mask(bx, by) != 0) == (b & dot_mask(
                bx,
                by,
            ) != 0),
    ensures
        a == b,
{
    assert(dot_mask(0, 0) == 0x01 && dot_mask(1, 0) == 0x08);
    assert(dot_mask(0, 1) == 0x02 && dot_mask(1, 1) == 0x10);
    assert(dot_mask(0, 2) == 0x04 && dot_mask(1, 2) == 0x20);
    assert(dot_mask(0, 3) == 0x40 && dot_mask(1, 3) == 0x80);
    assert(a == b) by (bit_vector)
        requires
            (a & 0x01 != 0) == (b & 0x01 != 0),
            (a & 0x02 != 0) == (b & 0x02 != 0),
            (a & 0x04 != 0) == (b & 0x04 != 0),
            (a & 0x08 != 0) == (b & 0x08 != 0),
            (a & 0x10 != 0) == (b & 0x10 != 0),
            (a & 0x20 != 0) == (b & 0x20 != 0),
            (a & 0x40 != 0) == (b & 0x40 != 0),
            (a & 0x80 != 0) == (b & 0x80 != 0),
    ;
}

/// The pixel of a dot of the cell at an index.
proof fn lemma_pixel_of_cell(frame: BrailleFrame, i: int, bx: int, by: int)
    requires
        frame.wf(),
        0 <= i < frame.masks@.len(),
        0 <= bx < 2,
        0 <= by < 4,
    ensures
        ({
            let w = frame.width_cells as int;
            frame.lit(2 * (i % w) + bx, 4 * (i / w) + by) == (frame.masks@[i] & dot_mask(bx, by)
                != 0)
        }),
{
    let w = frame.width_cells as int;
    let h = frame.height_cells as int;
    assert(w > 0) by (nonlinear_arith)
        requires
            w >= 0,
            0 <= i < w * h,
    ;
    let cx = i % w;
    let cy = i / w;
    vstd::arithmetic::div_mod::lemma_fundamental_div_mod(i, w);
    assert(0 <= cy < h) by (nonlinear_arith)
        requires
            0 <= i < w * h,
            i == w * cy + cx,
            0 <= cx < w,
    ;
    assert((2 * cx + bx) / 2 == cx && (2 * cx + bx) % 2 == bx);
    assert((4 * cy + by) / 4 == cy && (4 * cy + by) % 4 == by);
    assert(cell_index(w, cx, cy) == i);
}

/// Two pictures of the same size with the same pixels have the same masks.
pub proof fn lemma_same_pixels_same_masks(a: BrailleFrame, b: BrailleFrame)
    requires
        a.wf(),
        b.wf(),
        a.width_cells == b.width_cells,
        a.height_cells == b.height_cells,
        forall|x: int, y: int| #[trigger] a.lit(x, y) == b.lit(x, y),
    ensures
        a.masks@ == b.masks@,
{
    let w = a.width_cells as int;
    assert forall|i: int| 0 <= i < a.masks@.len() implies a.masks@[i] == b.masks@[i] by {
        assert forall|bx: int, by: int| 0 <= bx < 2 && 0 <= by < 4 implies (a.masks@[i]
            & #[trigger] dot_mask(bx, by) != 0) == (b.masks@[i] & dot_mask(bx, by) != 0) by {
            lemma_pixel_of_cell(a, i, bx, by);
            lemma_pixel_of_cell(b, i, bx, by);
            assert(a.lit(2 * (i % w) + bx, 4 * (i / w) + by) == b.lit(
                2 * (i % w) + bx,
                4 * (i / w) + by,
            ));
        }
        lemma_dots_make_the_mask(a.masks@[i], b.masks@[i]);
    }
    assert(a.masks@ =~= b.masks@);
}

/// A picture without pixels has empty masks.
pub proof fn lemma_no_pixels_no_masks(frame: BrailleFrame, i: int)
    requires
        frame.wf(),
        forall|x: int, y: int| !(#[trigger] frame.lit(x, y)),
        0 <= i < frame.masks@.len(),
    ensures
        frame.masks@[i] == 0,
{
    let w = frame.width_cells as int;
    assert forall|bx: int, by: int| 0 <= bx < 2 && 0 <= by < 4 implies (frame.masks@[i]
        & #[trigger] dot_mask(bx, by) != 0) == (0u8 & dot_mask(bx, by) != 0) by {
        lemma_pixel_of_cell(frame, i, bx, by);
        assert(!frame.lit(2 * (i % w) + bx, 4 * (i / w) + by));
        lemma_blank_mask(dot_mask(bx, by));
    }
    lemma_dots_make_the_mask(frame.masks@[i], 0);
}

/// Different dot patterns are shown by different characters, all of them Braille patterns.
pub proof fn law_cell_chars_are_distinct(a: u8, b: u8, ca: char, cb: char)
    requires
        ca as u32 == 0x2800 + a,
        cb as u32 == 0x2800 + b,
    ensures
        a != b ==> ca != cb,
        0x2800 <= ca as u32 <= 0x28FF,
{
}

} // verus!
