//! What the map shows: pixels, lines, tiles and frames.

use crate::braille::BrailleFrame;
use crate::draw;
use crate::frame::{self, FrameRun, FrameSpec};
use crate::geometry::{self, Rect};
use crate::input::{self, KeyCode, MapCommand};
use crate::layout;
use crate::line;
use crate::text;
use crate::tiles::{self, CellOp, FeatureKind, ScreenFeature, ScreenLayer, Segment};
use vstd::arithmetic::{div_mod, power2};
use vstd::prelude::*;

verus! {

// ---------------------------------------------------------------------------
// Pixels
// ---------------------------------------------------------------------------

/// Every pixel has its own dot of its own cell: the eight dots of a cell stand for two columns of
/// four pixels, numbered as Braille numbers them.
pub proof fn law_pixels_are_dots(f: BrailleFrame, x: int, y: int)
    requires
        f.wf(),
        0 <= x < 2 * f.width_cells,
        0 <= y < 4 * f.height_cells,
    ensures
        f.width_px == 2 * f.width_cells && f.height_px == 4 * f.height_cells,
        f.masks@.len() == f.width_cells * f.height_cells,
        ({
            let mask = f.masks@[x / 2 + f.width_cells * (y / 4)];
            let left = x % 2 == 0;
            f.lit(x, y) == (if y % 4 == 0 {
                mask & (if left {
                    0x01u8
                } else {
                    0x08
                }) != 0
            } else if y % 4 == 1 {
                mask & (if left {
                    0x02u8
                } else {
                    0x10
                }) != 0
            } else if y % 4 == 2 {
                mask & (if left {
                    0x04u8
                } else {
                    0x20
                }) != 0
            } else {
                mask & (if left {
                    0x40u8
                } else {
                    0x80
                }) != 0
            })
        }),
{
}

/// Nothing off the picture is ever lit, and everything on a picture of usual size can be.
pub proof fn law_pixels_lie_on_the_picture(f: BrailleFrame, x: int, y: int)
    requires
        f.wf(),
    ensures
        f.lit(x, y) ==> 0 <= x < 2 * f.width_cells && 0 <= y < 4 * f.height_cells,
        f.drawable(x, y) <==> 0 <= x < 2 * f.width_cells && 0 <= y < 4 * f.height_cells && 2
            * f.width_cells <= i32::MAX && 4 * f.height_cells <= i32::MAX,
{
}

/// A picture's size is its four measures.
pub proof fn law_sizes(a: BrailleFrame, b: BrailleFrame)
    ensures
        a.same_size(b) <==> a.width_px == b.width_px && a.height_px == b.height_px && a.width_cells
            == b.width_cells && a.height_cells == b.height_cells,
{
}

/// A cell without dots is a space; one with dots shows exactly them in Braille mode, and a number
/// sign in block mode. Cells stand row by row.
pub proof fn law_cells_show_their_dots(
    cells: Seq<CellOp>,
    masks: Seq<u8>,
    area: Rect,
    braille: bool,
    i: int,
)
    requires
        tiles::cells_shown(cells, masks, area, braille),
        0 <= i < cells.len(),
    ensures
        masks[i] == 0 ==> cells[i].symbol == ' ',
        masks[i] != 0 && braille ==> cells[i].symbol as int == 0x2800 + masks[i],
        masks[i] != 0 && !braille ==> cells[i].symbol == '#',
        area.width > 0 ==> cells[i].x == area.x + i % area.width as int && cells[i].y == area.y + i
            / area.width as int,
{
    let c = cells[i];
}

// ---------------------------------------------------------------------------
// Lines
// ---------------------------------------------------------------------------

/// Along its longer axis a line has one pixel per step, and that pixel is the one nearest to the
/// ideal line: off by at most half a pixel, and of two equally near ones the one farther from the
/// start.
pub proof fn law_line_keeps_to_the_ideal(x0: int, y0: int, x1: int, y1: int, px: int, py: int)
    ensures
        ({
            let dx = if x1 >= x0 {
                x1 - x0
            } else {
                x0 - x1
            };
            let dy = if y1 >= y0 {
                y1 - y0
            } else {
                y0 - y1
            };
            let i = if px >= x0 {
                px - x0
            } else {
                x0 - px
            };
            let j = if y1 > y0 {
                py - y0
            } else {
                y0 - py
            };
            dx >= dy && dx > 0 ==> (line::on_line(x0, y0, x1, y1, px, py) <==> (x0 <= px <= x1
                || x1 <= px <= x0) && -dx < 2 * (dx * j - dy * i) <= dx)
        }),
        ({
            let dx = if x1 >= x0 {
                x1 - x0
            } else {
                x0 - x1
            };
            let dy = if y1 >= y0 {
                y1 - y0
            } else {
                y0 - y1
            };
            let i = if py >= y0 {
                py - y0
            } else {
                y0 - py
            };
            let j = if x1 > x0 {
                px - x0
            } else {
                x0 - px
            };
            dx < dy ==> (line::on_line(x0, y0, x1, y1, px, py) <==> (y0 <= py <= y1 || y1 <= py
                <= y0) && -dy < 2 * (dy * j - dx * i) <= dy)
        }),
        x0 == x1 && y0 == y1 ==> (line::on_line(x0, y0, x1, y1, px, py) <==> px == x0 && py == y0),
{
    let dx = line::distance(x0, x1);
    let dy = line::distance(y0, y1);
    if dx >= dy && dx > 0 {
        let i = line::distance(x0, px);
        let j = if y1 > y0 {
            py - y0
        } else {
            y0 - py
        };
        lemma_rounding(dy * i, dx, j);
        line::lemma_signed(line::direction(y0, y1), line::nearest(dy * i, dx));
    } else if dx < dy {
        let i = line::distance(y0, py);
        let j = if x1 > x0 {
            px - x0
        } else {
            x0 - px
        };
        lemma_rounding(dx * i, dy, j);
        line::lemma_signed(line::direction(x0, x1), line::nearest(dx * i, dy));
    } else {
        line::lemma_signed(line::direction(y0, y1), 0);
    }
}

proof fn lemma_rounding(n: int, d: int, q: int)
    requires
        d > 0,
    ensures
        line::nearest(n, d) == q <==> -d < 2 * (d * q - n) <= d,
{
    if -d < 2 * (d * q - n) <= d {
        line::lemma_nearest(n, d, q);
    }
    if line::nearest(n, d) == q {
        let m = 2 * n + d;
        let e = 2 * d;
        div_mod::lemma_fundamental_div_mod(m, e);
        assert(m == e * q + m % e);
        assert(0 <= m % e < e);
        assert(e * q == 2 * (d * q)) by (nonlinear_arith)
            requires
                e == 2 * d,
        ;
    }
}

// ---------------------------------------------------------------------------
// From tiles to segments
// ---------------------------------------------------------------------------

/// How many segments a path of this many points has.
pub open spec fn path_count(kind: FeatureKind, points: nat) -> nat {
    if points < 2 || kind == FeatureKind::Other {
        0
    } else if kind == FeatureKind::Polygons {
        points
    } else {
        (points - 1) as nat
    }
}

/// How many segments the first `n` paths have together.
pub open spec fn paths_count(f: ScreenFeature, n: int) -> nat
    decreases n,
{
    if n <= 0 {
        0
    } else {
        paths_count(f, n - 1) + path_count(f.kind, f.paths@[n - 1]@.len())
    }
}

/// How many segments the first `n` features have together.
pub open spec fn features_count(fs: Seq<ScreenFeature>, n: int) -> nat
    decreases n,
{
    if n <= 0 {
        0
    } else {
        features_count(fs, n - 1) + paths_count(fs[n - 1], fs[n - 1].paths@.len() as int)
    }
}

/// The layer at `p` is the first of its name.
pub open spec fn first_of_name(layers: Seq<ScreenLayer>, name: Seq<char>, p: int) -> bool {
    &&& 0 <= p < layers.len()
    &&& layers[p].name@ == name
    &&& forall|q: int| 0 <= q < p ==> (#[trigger] layers[q]).name@ != name
}

/// No layer has the name.
pub open spec fn no_layer(layers: Seq<ScreenLayer>, name: Seq<char>) -> bool {
    forall|q: int| 0 <= q < layers.len() ==> (#[trigger] layers[q]).name@ != name
}

proof fn lemma_position(layers: Seq<ScreenLayer>, name: Seq<char>, from: int, p: int)
    requires
        0 <= from <= p <= layers.len(),
        p < layers.len() ==> layers[p].name@ == name,
        forall|q: int| from <= q < p ==> (#[trigger] layers[q]).name@ != name,
    ensures
        tiles::layer_position(layers, name, from) == p,
    decreases p - from,
{
    if from < p {
        assert(layers[from].name@ != name);
        lemma_position(layers, name, from + 1, p);
    }
}

/// How many segments the layer of a name has, if there is one.
pub open spec fn named_count(layers: Seq<ScreenLayer>, name: Seq<char>) -> nat {
    if exists|p: int| first_of_name(layers, name, p) {
        let p = choose|p: int| first_of_name(layers, name, p);
        features_count(layers[p].features@, layers[p].features@.len() as int)
    } else {
        0
    }
}

/// How many segments the layers of the first `n` names have together.
pub open spec fn tile_count(layers: Seq<ScreenLayer>, wanted: Seq<Seq<char>>, n: int) -> nat
    decreases n,
{
    if n <= 0 {
        0
    } else {
        tile_count(layers, wanted, n - 1) + named_count(layers, wanted[n - 1])
    }
}

proof fn lemma_paths_laid_out(f: ScreenFeature, ring: bool, n: int, j: int, k: int)
    requires
        f.kind != FeatureKind::Other,
        ring == (f.kind == FeatureKind::Polygons),
        0 <= n <= f.paths@.len(),
    ensures
        tiles::paths_segments(f.paths@, ring, n).len() == paths_count(f, n),
        0 <= j < n && 0 <= k < path_count(f.kind, f.paths@[j]@.len()) ==> {
            let pts = f.paths@[j]@;
            &&& paths_count(f, j) + k < paths_count(f, n)
            &&& tiles::paths_segments(f.paths@, ring, n)[paths_count(f, j) + k] == Segment {
                from: pts[k],
                to: if k + 1 < pts.len() {
                    pts[k + 1]
                } else {
                    pts[0]
                },
            }
        },
    decreases n,
{
    if n > 0 {
        lemma_paths_laid_out(f, ring, n - 1, j, k);
        let before = tiles::paths_segments(f.paths@, ring, n - 1);
        let last = tiles::path_segments(f.paths@[n - 1]@, ring);
        assert(tiles::paths_segments(f.paths@, ring, n) == before + last);
        assert(last.len() == path_count(f.kind, f.paths@[n - 1]@.len()));
    }
}

proof fn lemma_features_laid_out(fs: Seq<ScreenFeature>, n: int, i: int, j: int, k: int)
    requires
        0 <= n <= fs.len(),
    ensures
        tiles::features_segments(fs, n).len() == features_count(fs, n),
        0 <= i < n && 0 <= j < fs[i].paths@.len() && 0 <= k < path_count(
            fs[i].kind,
            fs[i].paths@[j]@.len(),
        ) ==> {
            let pts = fs[i].paths@[j]@;
            let at = features_count(fs, i) + paths_count(fs[i], j) + k;
            &&& at < features_count(fs, n)
            &&& tiles::features_segments(fs, n)[at] == Segment {
                from: pts[k],
                to: if k + 1 < pts.len() {
                    pts[k + 1]
                } else {
                    pts[0]
                },
            }
        },
    decreases n,
{
    if n > 0 {
        lemma_features_laid_out(fs, n - 1, i, j, k);
        let f = fs[n - 1];
        let before = tiles::features_segments(fs, n - 1);
        let last = tiles::feature_segments(f);
        assert(tiles::features_segments(fs, n) == before + last);
        if f.kind != FeatureKind::Other {
            lemma_paths_laid_out(
                f,
                f.kind == FeatureKind::Polygons,
                f.paths@.len() as int,
                j,
                k,
            );
        } else {
            lemma_nothing_of_others(f, f.paths@.len() as int);
        }
        assert(last.len() == paths_count(f, f.paths@.len() as int));
    }
}

proof fn lemma_nothing_of_others(f: ScreenFeature, n: int)
    requires
        f.kind == FeatureKind::Other,
    ensures
        paths_count(f, n) == 0,
    decreases n,
{
    if n > 0 {
        lemma_nothing_of_others(f, n - 1);
    }
}

proof fn lemma_layer_laid_out(layers: Seq<ScreenLayer>, name: Seq<char>, p: int)
    ensures
        first_of_name(layers, name, p) ==> tiles::named_segments(layers, name)
            == tiles::features_segments(layers[p].features@, layers[p].features@.len() as int),
        no_layer(layers, name) ==> tiles::named_segments(layers, name) == Seq::<Segment>::empty(),
{
    if first_of_name(layers, name, p) {
        lemma_position(layers, name, 0, p);
    }
    if no_layer(layers, name) {
        lemma_position(layers, name, 0, layers.len() as int);
    }
}

proof fn lemma_some_layer(layers: Seq<ScreenLayer>, name: Seq<char>, n: int)
    requires
        0 <= n <= layers.len(),
        forall|q: int| 0 <= q < n ==> (#[trigger] layers[q]).name@ != name,
    ensures
        no_layer(layers, name) || exists|p: int| first_of_name(layers, name, p),
    decreases layers.len() - n,
{
    if n < layers.len() {
        if layers[n].name@ == name {
            assert(first_of_name(layers, name, n));
        } else {
            lemma_some_layer(layers, name, n + 1);
        }
    }
}

proof fn lemma_tile_laid_out(
    layers: Seq<ScreenLayer>,
    wanted: Seq<Seq<char>>,
    n: int,
    w: int,
    p: int,
    i: int,
    j: int,
    k: int,
)
    requires
        0 <= n <= wanted.len(),
    ensures
        tiles::tile_segments(layers, wanted, n).len() == tile_count(layers, wanted, n),
        0 <= w < n && first_of_name(layers, wanted[w], p) && 0 <= i < layers[p].features@.len()
            && 0 <= j < layers[p].features@[i].paths@.len() && 0 <= k < path_count(
            layers[p].features@[i].kind,
            layers[p].features@[i].paths@[j]@.len(),
        ) ==> {
            let fs = layers[p].features@;
            let pts = fs[i].paths@[j]@;
            let at = tile_count(layers, wanted, w) + features_count(fs, i) + paths_count(fs[i], j)
                + k;
            &&& at < tile_count(layers, wanted, n)
            &&& tiles::tile_segments(layers, wanted, n)[at] == Segment {
                from: pts[k],
                to: if k + 1 < pts.len() {
                    pts[k + 1]
                } else {
                    pts[0]
                },
            }
        },
    decreases n,
{
    if n > 0 {
        lemma_tile_laid_out(layers, wanted, n - 1, w, p, i, j, k);
        let name = wanted[n - 1];
        let before = tiles::tile_segments(layers, wanted, n - 1);
        let last = tiles::named_segments(layers, name);
        assert(tiles::tile_segments(layers, wanted, n) == before + last);
        lemma_some_layer(layers, name, 0);
        if exists|q: int| first_of_name(layers, name, q) {
            let q = choose|q: int| first_of_name(layers, name, q);
            lemma_layer_laid_out(layers, name, q);
            let fs = layers[q].features@;
            lemma_features_laid_out(fs, fs.len() as int, i, j, k);
            if w == n - 1 && first_of_name(layers, name, p) {
                assert(p == q) by {
                    if p < q {
                        assert(layers[p].name@ != name);
                    }
                    if q < p {
                        assert(layers[q].name@ != name);
                    }
                }
            }
        } else {
            lemma_layer_laid_out(layers, name, 0);
        }
    }
}

/// Every road is collected. For every wanted layer of a tile (the first of its name), every
/// feature of it and every path of that feature, the segment from each point to the next is there,
/// and for a polygon the one from the last point to the first. Each has its place behind all that
/// come before it, and there are no others.
pub proof fn law_every_path_is_collected(
    layers: Seq<ScreenLayer>,
    wanted: Seq<Seq<char>>,
    w: int,
    p: int,
    i: int,
    j: int,
    k: int,
)
    requires
        0 <= w < wanted.len(),
        first_of_name(layers, wanted[w], p),
        0 <= i < layers[p].features@.len(),
        0 <= j < layers[p].features@[i].paths@.len(),
        0 <= k < layers[p].features@[i].paths@[j]@.len(),
    ensures
        ({
            let f = layers[p].features@[i];
            let pts = f.paths@[j]@;
            let segs = tiles::tile_segments(layers, wanted, wanted.len() as int);
            let at = tile_count(layers, wanted, w) + features_count(layers[p].features@, i)
                + paths_count(f, j) + k;
            &&& segs.len() == tile_count(layers, wanted, wanted.len() as int)
            &&& f.kind != FeatureKind::Other && k + 1 < pts.len() ==> at < segs.len() && segs[at]
                == Segment { from: pts[k], to: pts[k + 1] }
            &&& f.kind == FeatureKind::Polygons && pts.len() >= 2 && k + 1 == pts.len() ==> at
                < segs.len() && segs[at] == Segment { from: pts[k], to: pts[0] }
        }),
{
    lemma_tile_laid_out(layers, wanted, wanted.len() as int, w, p, i, j, k);
}

/// A tile without any of the wanted layers gives nothing, and the number of segments is the sum
/// over the wanted layers that are there.
pub proof fn law_segments_are_counted(layers: Seq<ScreenLayer>, wanted: Seq<Seq<char>>)
    ensures
        tiles::tile_segments(layers, wanted, wanted.len() as int).len() == tile_count(
            layers,
            wanted,
            wanted.len() as int,
        ),
        (forall|w: int| 0 <= w < wanted.len() ==> no_layer(layers, #[trigger] wanted[w]))
            ==> tiles::tile_segments(layers, wanted, wanted.len() as int).len() == 0,
{
    lemma_tile_laid_out(layers, wanted, wanted.len() as int, 0, 0, 0, 0, 0);
    if forall|w: int| 0 <= w < wanted.len() ==> no_layer(layers, #[trigger] wanted[w]) {
        lemma_no_segments(layers, wanted, wanted.len() as int);
    }
}

proof fn lemma_no_segments(layers: Seq<ScreenLayer>, wanted: Seq<Seq<char>>, n: int)
    requires
        0 <= n <= wanted.len(),
        forall|w: int| 0 <= w < wanted.len() ==> no_layer(layers, #[trigger] wanted[w]),
    ensures
        tiles::tile_segments(layers, wanted, n).len() == 0,
    decreases n,
{
    if n > 0 {
        lemma_no_segments(layers, wanted, n - 1);
        assert(no_layer(layers, wanted[n - 1]));
        lemma_layer_laid_out(layers, wanted[n - 1], 0);
    }
}

/// A coordinate wrapped around a negative size keeps its remainder, and is moved by the size where
/// that remainder is negative.
pub proof fn law_wrapping_around_a_negative_size(n: int, m: int)
    requires
        m < 0,
    ensures
        n >= 0 ==> 0 <= tiles::wrapped(n, m) < -m && (n - tiles::wrapped(n, m)) % (-m) == 0,
        n < 0 && n % (-m) == 0 ==> tiles::wrapped(n, m) == 0,
        n < 0 && n % (-m) != 0 ==> m + m < tiles::wrapped(n, m) < m && (n - tiles::wrapped(n, m)) % (
        -m) == 0,
{
    let d = -m;
    if n >= 0 {
        lemma_same_column(n, d);
    } else {
        let q = (-n) / d;
        let r = (-n) % d;
        div_mod::lemma_fundamental_div_mod(-n, d);
        assert(-n == d * q + r && 0 <= r < d);
        if r == 0 {
            assert(n == d * (-q) + 0) by (nonlinear_arith)
                requires
                    -n == d * q,
            ;
            div_mod::lemma_fundamental_div_mod_converse(n, d, -q, 0);
        } else {
            assert(n == d * (-q - 1) + (d - r)) by (nonlinear_arith)
                requires
                    -n == d * q + r,
            ;
            div_mod::lemma_fundamental_div_mod_converse(n, d, -q - 1, d - r);
            assert(tiles::wrapped(n, m) == m - r);
            assert(n - (m - r) == d * (1 - q)) by (nonlinear_arith)
                requires
                    -n == d * q + r,
                    d == -m,
            ;
            div_mod::lemma_fundamental_div_mod_converse(n - (m - r), d, 1 - q, 0);
        }
    }
}

/// The layers and the segment budget of every zoom level, and the largest of them.
pub proof fn law_zoom_levels(z: u32)
    ensures
        tiles::TILE_RANGE == 14,
        z <= 5 ==> tiles::segment_budget(z) == 38_000 && tiles::layers_drawn(z) == seq![
            "road"@,
            "water"@,
            "landuse"@,
            "building"@,
            "admin"@,
            "place_label"@,
            "poi_label"@,
            "rail_station_label"@,
        ],
        6 <= z <= 8 ==> tiles::segment_budget(z) == 22_000 && tiles::layers_drawn(z) == seq![
            "road"@,
            "water"@,
            "landuse"@,
            "building"@,
            "admin"@,
        ],
        9 <= z <= 10 ==> tiles::segment_budget(z) == 12_000 && tiles::layers_drawn(z) == seq![
            "road"@,
            "water"@,
            "landuse"@,
            "admin"@,
        ],
        11 <= z <= 12 ==> tiles::segment_budget(z) == 8_000,
        z >= 13 ==> tiles::segment_budget(z) == 5_000,
        z >= 11 ==> tiles::layers_drawn(z) == seq!["road"@, "water"@],
{
}

/// A list of names holds all of them, in order.
pub proof fn law_names_are_all_there(v: Seq<&'static str>)
    ensures
        tiles::names(v).len() == v.len(),
        forall|i: int| 0 <= i < v.len() ==> #[trigger] tiles::names(v)[i] == v[i]@,
{
}

/// The view is the nine tiles around the center, row by row, without the rows off the grid. The
/// column of a tile is its place on the endless map up to whole turns around the world; its row is
/// its place.
pub proof fn law_view_is_around_the_center(cx: int, cy: int, z: u32, i: int)
    requires
        z <= 14,
        i64::MIN < cx < i64::MAX,
        i64::MIN < cy < i64::MAX,
    ensures
        ({
            let g = power2::pow2(z as nat) as int;
            let v = tiles::tiles_in_view(cx, cy, z);
            let top = (if 0 <= cy - 1 < g {
                cy - 1
            } else if 0 <= cy < g {
                cy
            } else {
                cy + 1
            });
            let rows = (if 0 <= cy - 1 < g {
                1int
            } else {
                0
            }) + (if 0 <= cy < g {
                1int
            } else {
                0
            }) + (if 0 <= cy + 1 < g {
                1int
            } else {
                0
            });
            &&& v.len() == 3 * rows
            &&& 0 <= i < v.len() ==> {
                &&& v[i].z == z
                &&& v[i].tx == cx - 1 + i % 3
                &&& v[i].ty == top + i / 3
                &&& v[i].y == top + i / 3
                &&& 0 <= v[i].x < g
                &&& (v[i].tx - v[i].x) % g == 0
            }
        }),
{
    let g = power2::pow2(z as nat) as int;
    power2::lemma2_to64();
    power2::lemma_pow2_pos(z as nat);
    if z < 14 {
        power2::lemma_pow2_strictly_increases(z as nat, 14);
    }
    lemma_same_column(cx - 1, g);
    lemma_same_column(cx, g);
    lemma_same_column(cx + 1, g);
}

proof fn lemma_same_column(tx: int, g: int)
    requires
        g > 0,
    ensures
        0 <= tx % g < g,
        (tx - tx % g) % g == 0,
{
    div_mod::lemma_fundamental_div_mod(tx, g);
    assert(tx - tx % g == g * (tx / g));
    div_mod::lemma_mod_multiples_basic(tx / g, g);
    assert(g * (tx / g) == (tx / g) * g) by (nonlinear_arith);
}

/// A tile is remembered by its zoom level, its column and its row.
pub proof fn law_tile_keys(z: u32, x: u32, y: u32)
    ensures
        tiles::tile_key(z, x, y) == "z"@ + text::decimal(z as nat) + "-x"@ + text::decimal(x as nat)
            + "-y"@ + text::decimal(y as nat),
{
}

/// A drawn picture has every pixel of every segment that lies on it, keeps what it had, and has
/// nothing else.
pub proof fn law_every_segment_is_drawn(
    before: BrailleFrame,
    after: BrailleFrame,
    segs: Seq<Segment>,
    px: int,
    py: int,
)
    requires
        before.wf(),
        tiles::painted(before, after, segs),
        2 * before.width_cells <= i32::MAX && 4 * before.height_cells <= i32::MAX,
    ensures
        before.lit(px, py) ==> after.lit(px, py),
        forall|k: int|
            0 <= k < segs.len() && 0 <= px < 2 * before.width_cells && 0 <= py < 4
                * before.height_cells && line::on_line(
                (#[trigger] segs[k]).from.x as int,
                segs[k].from.y as int,
                segs[k].to.x as int,
                segs[k].to.y as int,
                px,
                py,
            ) ==> after.lit(px, py),
        after.lit(px, py) && !before.lit(px, py) ==> exists|k: int|
            0 <= k < segs.len() && line::on_line(
                (#[trigger] segs[k]).from.x as int,
                segs[k].from.y as int,
                segs[k].to.x as int,
                segs[k].to.y as int,
                px,
                py,
            ),
{
    assert(after.lit(px, py) == after.lit(px, py));
    assert forall|k: int|
        0 <= k < segs.len() && 0 <= px < 2 * before.width_cells && 0 <= py < 4 * before.height_cells
            && line::on_line(
            (#[trigger] segs[k]).from.x as int,
            segs[k].from.y as int,
            segs[k].to.x as int,
            segs[k].to.y as int,
            px,
            py,
        ) implies after.lit(px, py) by {
        assert(tiles::on_segment(segs[k], px, py));
    }
    if after.lit(px, py) && !before.lit(px, py) {
        let k = choose|k: int|
            0 <= k < segs.len() && #[trigger] tiles::on_segment(segs[k], px, py);
        assert(line::on_line(
            segs[k].from.x as int,
            segs[k].from.y as int,
            segs[k].to.x as int,
            segs[k].to.y as int,
            px,
            py,
        ));
    }
}

// ---------------------------------------------------------------------------
// Frames
// ---------------------------------------------------------------------------

/// How many segments were found of the first `n` tiles.
pub open spec fn found_count(found: Seq<Option<Seq<Segment>>>, n: int) -> nat
    decreases n,
{
    if n <= 0 {
        0
    } else {
        found_count(found, n - 1) + match found[n - 1] {
            Some(segs) => segs.len(),
            None => 0,
        }
    }
}

proof fn lemma_counts_agree(a: Seq<Option<Seq<Segment>>>, b: Seq<Option<Seq<Segment>>>, n: int)
    requires
        0 <= n <= a.len() && n <= b.len(),
        forall|i: int| 0 <= i < n ==> a[i] == b[i],
    ensures
        found_count(a, n) == found_count(b, n),
    decreases n,
{
    if n > 0 {
        lemma_counts_agree(a, b, n - 1);
    }
}

proof fn lemma_found_laid_out(found: Seq<Option<Seq<Segment>>>, t: int, k: int)
    ensures
        frame::all_found(found).len() == found_count(found, found.len() as int),
        0 <= t < found.len() && (found[t] matches Some(segs) && 0 <= k < segs.len()) ==> {
            &&& found_count(found, t) + k < found_count(found, found.len() as int)
            &&& frame::all_found(found)[found_count(found, t) + k] == found[t]->0[k]
        },
    decreases found.len(),
{
    if found.len() > 0 {
        let rest = found.drop_last();
        lemma_found_laid_out(rest, t, k);
        let n = rest.len() as int;
        lemma_counts_agree(rest, found, n);
        if 0 <= t < n {
            lemma_counts_agree(rest, found, t);
        }
    }
}

/// Every pixel of every segment that was found lights up, tile after tile, until the budget is
/// used up.
pub proof fn law_found_tiles_are_shown(run: FrameRun, t: int, k: int, px: int, py: int)
    requires
        run.wf(),
        2 * run.frame.width_cells <= i32::MAX && 4 * run.frame.height_cells <= i32::MAX,
        0 <= t < run.found@.len(),
        run.found@[t] matches Some(segs) && 0 <= k < segs.len(),
        found_count(run.found@, t) + k < run.pass.budget,
        0 <= px < 2 * run.frame.width_cells,
        0 <= py < 4 * run.frame.height_cells,
        line::on_line(
            run.found@[t]->0[k].from.x as int,
            run.found@[t]->0[k].from.y as int,
            run.found@[t]->0[k].to.x as int,
            run.found@[t]->0[k].to.y as int,
            px,
            py,
        ),
    ensures
        run.frame.lit(px, py),
{
    lemma_found_laid_out(run.found@, t, k);
    let at = (found_count(run.found@, t) + k) as int;
    let shown = run@.shown();
    assert(shown[at] == run.found@[t]->0[k]);
    assert(tiles::on_segment(shown[at], px, py));
    assert(run.frame.lit(px, py) == (run.frame.drawable(px, py) && tiles::covered(shown, px, py)));
}

/// A picture shows nothing but segments that were found of its tiles, within the budget.
pub proof fn law_nothing_else_is_shown(run: FrameRun, px: int, py: int)
    requires
        run.wf(),
        run.frame.lit(px, py),
    ensures
        exists|t: int, k: int|
            #![trigger run.found@[t], found_count(run.found@, t) + k]
            {
                &&& 0 <= t < run.found@.len()
                &&& run.found@[t] matches Some(segs)
                &&& 0 <= k < segs.len()
                &&& found_count(run.found@, t) + k < run.pass.budget
                &&& line::on_line(
                    segs[k].from.x as int,
                    segs[k].from.y as int,
                    segs[k].to.x as int,
                    segs[k].to.y as int,
                    px,
                    py,
                )
            },
{
    let shown = run@.shown();
    assert(run.frame.lit(px, py) == (run.frame.drawable(px, py) && tiles::covered(shown, px, py)));
    let at = choose|at: int| 0 <= at < shown.len() && #[trigger] tiles::on_segment(shown[at], px, py);
    let (t, k) = lemma_where_found(run.found@, at);
    let segs = run.found@[t]->0;
    assert(shown[at] == segs[k]);
    assert(found_count(run.found@, t) + k == at);
}

/// Which tile, and which of its segments, an index belongs to.
proof fn lemma_where_found(found: Seq<Option<Seq<Segment>>>, at: int) -> (r: (int, int))
    requires
        0 <= at < frame::all_found(found).len(),
    ensures
        0 <= r.0 < found.len(),
        found[r.0] matches Some(segs) && 0 <= r.1 < segs.len() && segs[r.1] == frame::all_found(
            found,
        )[at],
        found_count(found, r.0) + r.1 == at,
    decreases found.len(),
{
    let rest = found.drop_last();
    let n = rest.len() as int;
    lemma_found_laid_out(rest, 0, 0);
    lemma_counts_agree(rest, found, n);
    if at < frame::all_found(rest).len() {
        let r = lemma_where_found(rest, at);
        lemma_counts_agree(rest, found, r.0);
        r
    } else {
        (n, at - frame::all_found(rest).len())
    }
}

/// How far a frame has come: it is over exactly once more segments were found than the budget
/// allows, or once every tile was looked up; it draws as many as the budget allows.
pub proof fn law_frame_stops_at_its_budget(run: FrameRun)
    requires
        run.wf(),
    ensures
        ({
            let total = found_count(run.found@, run.found@.len() as int);
            &&& run.pass.budget == tiles::segment_budget(run.pass.base_z)
            &&& run.pass.drawn == if total < run.pass.budget {
                total as int
            } else {
                run.pass.budget as int
            }
            &&& run@.over() <==> total > run.pass.budget || run.found@.len() == run.tiles@.len()
            &&& run.pass.exhausted <==> total > run.pass.budget
            &&& run@.tiles == run.tiles@
            &&& run@.found == run.found@
            &&& run@.base_z == run.pass.base_z
        }),
        forall|i: int|
            0 <= i < run.found@.len() ==> #[trigger] run.pass.tiles_seen@[i]@ == tiles::tile_key(
                run.tiles@[i].z,
                run.tiles@[i].x,
                run.tiles@[i].y,
            ),
        run.pass.tiles_seen@.len() == run.found@.len(),
{
    lemma_found_laid_out(run.found@, 0, 0);
    let t = text::texts(run.pass.tiles_seen@);
    assert(t.len() == run.pass.tiles_seen@.len());
    assert(run@.seen().len() == run.found@.len());
    assert forall|i: int| 0 <= i < run.found@.len() implies #[trigger] run.pass.tiles_seen@[i]@
        == tiles::tile_key(run.tiles@[i].z, run.tiles@[i].x, run.tiles@[i].y) by {
        assert(t[i] == run.pass.tiles_seen@[i]@);
        assert(run@.seen()[i] == t[i]);
    }
}

/// What a tile contributes to a frame is what its wanted layers hold; looking it up adds that, or
/// nothing, to what was found before.
pub proof fn law_tiles_contribute_their_layers(
    s: FrameSpec,
    layers: Seq<ScreenLayer>,
    content: Option<Seq<Segment>>,
)
    ensures
        frame::segments_of(s.base_z, layers) == tiles::tile_segments(
            layers,
            tiles::layers_drawn(s.base_z),
            tiles::layers_drawn(s.base_z).len() as int,
        ),
        s.with(content).found == s.found.push(content),
        s.with(content).tiles == s.tiles,
        s.with(content).base_z == s.base_z,
        s.with(content).width_cells == s.width_cells,
        s.with(content).height_cells == s.height_cells,
{
}

// ---------------------------------------------------------------------------
// Rectangles
// ---------------------------------------------------------------------------

/// A rectangle covers the cells from its corner up to its width and height, but never the last
/// coordinate, past which nothing could lie. It fits where all of it lies before that.
pub proof fn law_rectangles_cover(r: Rect, col: int, row: int)
    ensures
        r.covers(col, row) <==> {
            &&& r.x <= col < r.x + r.width && col < 65535
            &&& r.y <= row < r.y + r.height && row < 65535
        },
        r.fits() <==> r.x + r.width <= 65535 && r.y + r.height <= 65535,
{
}

/// One rectangle lies inside another where all of its cells do.
pub proof fn law_rectangles_inside(a: Rect, b: Rect)
    ensures
        a.inside(b) <==> b.x <= a.x && b.y <= a.y && a.x + a.width <= b.x + b.width && a.y + a.height
            <= b.y + b.height,
{
}

/// A popup has its share of the area, rounded down, and as much room on its left as on its right
/// and above as below, up to one cell.
pub proof fn law_popups_stand_in_the_middle(area: Rect, wp: u16, hp: u16)
    requires
        area.fits(),
        wp <= 100,
        hp <= 100,
    ensures
        ({
            let r = geometry::centered(area, wp, hp);
            let right = (area.x + area.width) - (r.x + r.width);
            let below = (area.y + area.height) - (r.y + r.height);
            &&& 100 * r.width <= area.width * wp < 100 * (r.width + 1)
            &&& 100 * r.height <= area.height * hp < 100 * (r.height + 1)
            &&& 0 <= right - (r.x - area.x) <= 1
            &&& 0 <= below - (r.y - area.y) <= 1
        }),
{
    lemma_share(area.width, wp);
    lemma_share(area.height, hp);
}

proof fn lemma_share(len: u16, pct: u16)
    requires
        pct <= 100,
    ensures
        0 <= len * pct / 100 <= len,
        100 * (len * pct / 100) <= len * pct < 100 * (len * pct / 100 + 1),
        geometry::percent_of(len, pct) == len * pct / 100,
{
    assert(0 <= len * pct <= 100 * len) by (nonlinear_arith)
        requires
            0 <= pct <= 100,
            0 <= len,
    ;
}

/// The map has all of its panel but the frame around it; a panel too small for a frame is all map.
pub proof fn law_map_fills_its_panel(a: Rect)
    requires
        a.fits(),
    ensures
        ({
            let c = geometry::framed_content(a);
            if a.width > 3 && a.height > 3 {
                c.x == a.x + 1 && c.y == a.y + 1 && c.width == a.width - 2 && c.height == a.height
                    - 2
            } else {
                c == a
            }
        }),
{
}

/// Where everything stands, in cells from the corner of the screen.
pub proof fn law_layout_in_cells(area: Rect, radio: bool, settings_open: bool, radio_open: bool)
    requires
        area.fits(),
    ensures
        ({
            let l = layout::layout_of(area, radio, settings_open, radio_open);
            let row = |dx: int, w: int|
                Rect { x: (area.x + dx) as u16, y: area.y, width: w as u16, height: 1 };
            let none = Rect { x: 0, y: 0, width: 0, height: 0 };
            let map = Rect {
                x: area.x,
                y: (area.y + 1) as u16,
                width: area.width,
                height: (area.height - 1) as u16,
            };
            let s = geometry::centered(map, 52, 45);
            let r = geometry::centered(map, 74, 78);
            &&& l.shown <==> area.width >= 95 && area.height >= 35
            &&& l.shown ==> {
                &&& l.top_menu_reset == row(0, 7)
                &&& l.top_menu_settings == row(7, 10)
                &&& l.top_menu_radio == if radio {
                    row(17, 11)
                } else {
                    none
                }
                &&& l.top_menu_close == row(area.width - 3, 3)
                &&& l.map_area == map
                &&& l.map_content.x == area.x + 1 && l.map_content.y == area.y + 2
                &&& l.map_content.width == area.width - 2 && l.map_content.height == area.height - 3
                &&& l.settings_popup == if settings_open {
                    s
                } else {
                    none
                }
                &&& l.radio_popup_area == if radio_open {
                    r
                } else {
                    none
                }
                &&& radio_open ==> l.radio_content.x == r.x + 1 && l.radio_content.y == r.y + 1
                    && l.radio_content.width == r.width - 2 && l.radio_content.height == r.height
                    - 2
                &&& !radio_open ==> l.radio_content == none
                &&& radio_open ==> l.popup_close_rect.x == r.x + r.width - 3 && l.popup_close_rect.y
                    == r.y && l.popup_close_rect.width == 3 && l.popup_close_rect.height == 1
                &&& !radio_open && settings_open ==> l.popup_close_rect.x == s.x + s.width - 3
                    && l.popup_close_rect.y == s.y && l.popup_close_rect.width == 3
                    && l.popup_close_rect.height == 1
                &&& !radio_open && !settings_open ==> l.popup_close_rect == none
            }
            &&& !l.shown ==> {
                &&& l.top_menu_reset == none && l.top_menu_settings == none && l.top_menu_radio
                    == none && l.top_menu_close == none
                &&& l.map_area == none && l.map_content == none && l.settings_popup == none
                &&& l.radio_popup_area == none && l.radio_content == none && l.popup_close_rect
                    == none
            }
        }),
{
    if area.width >= 95 && area.height >= 35 {
        layout::lemma_popups_have_room(area);
    }
}

// ---------------------------------------------------------------------------
// Borders
// ---------------------------------------------------------------------------

proof fn lemma_rows_laid_out(x: int, n: int, top: int, bottom: int, t: Seq<char>, c: draw::Color, k: int)
    requires
        n >= 0,
    ensures
        draw::two_rows(x, n, top, bottom, t, c).len() == 2 * n,
        0 <= k < n ==> {
            let d = draw::two_rows(x, n, top, bottom, t, c);
            &&& d[2 * k] == (draw::DrawSpec::Text { x: x + k, y: top, text: t, color: c })
            &&& d[2 * k + 1] == (draw::DrawSpec::Text { x: x + k, y: bottom, text: t, color: c })
        },
    decreases n,
{
    if n > 0 {
        lemma_rows_laid_out(x, n - 1, top, bottom, t, c, k);
    }
}

proof fn lemma_columns_laid_out(
    y: int,
    n: int,
    left: int,
    right: int,
    t: Seq<char>,
    c: draw::Color,
    k: int,
)
    requires
        n >= 0,
    ensures
        draw::two_columns(y, n, left, right, t, c).len() == 2 * n,
        0 <= k < n ==> {
            let d = draw::two_columns(y, n, left, right, t, c);
            &&& d[2 * k] == (draw::DrawSpec::Text { x: left, y: y + k, text: t, color: c })
            &&& d[2 * k + 1] == (draw::DrawSpec::Text { x: right, y: y + k, text: t, color: c })
        },
    decreases n,
{
    if n > 0 {
        lemma_columns_laid_out(y, n - 1, left, right, t, c, k);
    }
}

/// The frame of the map has its four corners, and a line piece at every cell between them.
pub proof fn law_map_frame_is_closed(a: Rect, k: int)
    requires
        a.width >= 2,
        a.height >= 2,
    ensures
        ({
            let d = draw::map_frame(a);
            let c = draw::Color::DarkGray;
            let right = a.x + a.width - 1;
            let bottom = a.y + a.height - 1;
            let at = |x: int, y: int, t: Seq<char>| draw::DrawSpec::Text { x, y, text: t, color: c };
            &&& d.len() == 4 + 2 * (a.width - 2) + 2 * (a.height - 2)
            &&& d[0] == at(a.x as int, a.y as int, "┌"@)
            &&& d[1] == at(right, a.y as int, "┐"@)
            &&& d[2] == at(a.x as int, bottom, "└"@)
            &&& d[3] == at(right, bottom, "┘"@)
            &&& 0 <= k < a.width - 2 ==> d[4 + 2 * k] == at(a.x + 1 + k, a.y as int, "─"@) && d[4 + 2
                * k + 1] == at(a.x + 1 + k, bottom, "─"@)
            &&& 0 <= k < a.height - 2 ==> {
                let base = 4 + 2 * (a.width - 2);
                d[base + 2 * k] == at(a.x as int, a.y + 1 + k, "│"@) && d[base + 2 * k + 1] == at(
                    right,
                    a.y + 1 + k,
                    "│"@,
                )
            }
        }),
{
    let c = draw::Color::DarkGray;
    let right = a.x + a.width - 1;
    let bottom = a.y + a.height - 1;
    lemma_rows_laid_out(a.x + 1, a.width - 2, a.y as int, bottom, "─"@, c, k);
    lemma_columns_laid_out(a.y + 1, a.height - 2, a.x as int, right, "│"@, c, k);
}

/// The border of a popup has a line piece at every cell of its edge, corners over them, and over
/// those its title and its closing button.
pub proof fn law_popup_border_is_closed(a: Rect, title: Seq<char>, k: int)
    requires
        a.width >= 4,
        a.height >= 3,
    ensures
        ({
            let d = draw::popup_border(a, title);
            let g = draw::Color::Gray;
            let right = a.x + a.width - 1;
            let bottom = a.y + a.height - 1;
            let at = |x: int, y: int, t: Seq<char>| draw::DrawSpec::Text { x, y, text: t, color: g };
            let n = 2 * a.width + 2 * a.height;
            &&& d.len() == n + 6
            &&& 0 <= k < a.width ==> d[2 * k] == at(a.x + k, a.y as int, "─"@) && d[2 * k + 1] == at(
                a.x + k,
                bottom,
                "─"@,
            )
            &&& 0 <= k < a.height ==> d[2 * a.width + 2 * k] == at(a.x as int, a.y + k, "│"@) && d[2
                * a.width + 2 * k + 1] == at(right, a.y + k, "│"@)
            &&& d[n] == at(a.x as int, a.y as int, "┌"@)
            &&& d[n + 1] == at(right, a.y as int, "┐"@)
            &&& d[n + 2] == at(a.x as int, bottom, "└"@)
            &&& d[n + 3] == at(right, bottom, "┘"@)
            &&& d[n + 4] == (draw::DrawSpec::Text {
                x: a.x + 2,
                y: a.y as int,
                text: " "@ + title + " "@,
                color: draw::Color::White,
            })
            &&& d[n + 5] == (draw::DrawSpec::Text {
                x: right - 2,
                y: a.y as int,
                text: "[X]"@,
                color: draw::Color::Red,
            })
        }),
{
    let g = draw::Color::Gray;
    let right = a.x + a.width - 1;
    let bottom = a.y + a.height - 1;
    lemma_rows_laid_out(a.x as int, a.width as int, a.y as int, bottom, "─"@, g, k);
    lemma_columns_laid_out(a.y as int, a.height as int, a.x as int, right, "│"@, g, k);
}

/// Areas too small for a border have none.
pub proof fn law_small_areas_have_no_border(a: Rect, title: Seq<char>)
    ensures
        a.width < 2 || a.height < 2 ==> draw::map_frame(a).len() == 0,
        a.width < 4 || a.height < 3 ==> draw::popup_border(a, title).len() == 0,
{
}

/// A list of drawing instructions says what each of them says, in order.
pub proof fn law_instructions_are_all_there(ops: Seq<draw::DrawOp>, i: int)
    requires
        0 <= i < ops.len(),
    ensures
        draw::drawing(ops).len() == ops.len(),
        match ops[i] {
            draw::DrawOp::Clear(r) => draw::drawing(ops)[i] == draw::DrawSpec::Clear(r),
            draw::DrawOp::Text { x, y, text, color } => draw::drawing(ops)[i]
                == draw::DrawSpec::Text { x: x as int, y: y as int, text: text@, color },
        },
{
}

// ---------------------------------------------------------------------------
// Keys of the map
// ---------------------------------------------------------------------------

/// Seven keys ask something of the map, and no other key does.
pub proof fn law_keys_of_the_map(code: KeyCode)
    ensures
        input::command_of_key(code) == Some(MapCommand::ToggleBraille) <==> code == KeyCode::Char(
            'c',
        ),
        input::command_of_key(code) == Some(MapCommand::ZoomIn) <==> code == KeyCode::Char('a'),
        input::command_of_key(code) == Some(MapCommand::ZoomOut) <==> code == KeyCode::Char('z'),
        input::command_of_key(code) == Some(MapCommand::PanLeft) <==> code == KeyCode::Left,
        input::command_of_key(code) == Some(MapCommand::PanRight) <==> code == KeyCode::Right,
        input::command_of_key(code) == Some(MapCommand::PanUp) <==> code == KeyCode::Up,
        input::command_of_key(code) == Some(MapCommand::PanDown) <==> code == KeyCode::Down,
{
}

} // verus!
