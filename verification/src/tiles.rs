//! Which tiles a view shows, and how their content is turned into pixels.

use crate::braille::{self, BrailleFrame};
use crate::draw::Color;
use crate::geometry::Rect;
use crate::line::{self, draw_line};
use crate::text::{self, push_decimal};
use vstd::arithmetic::{div_mod, power2};
use vstd::prelude::*;

verus! {

/// The deepest zoom level that vector tiles are fetched for. Deeper views magnify these tiles.
pub const TILE_RANGE: u32 = 14;

/// The most line segments drawn per frame at a zoom level. Dense levels get less.
pub open spec fn segment_budget(base_z: u32) -> usize {
    if base_z <= 5 {
        38_000
    } else if base_z <= 8 {
        22_000
    } else if base_z <= 10 {
        12_000
    } else if base_z <= 12 {
        8_000
    } else {
        5_000
    }
}

/// Caps the raster work per frame; tightened at high zoom, where tiles are dense.
pub fn segment_budget_for_zoom(base_z: u32) -> (r: usize)
    ensures
        r == segment_budget(base_z),
{
    match base_z {
        0..=5 => 38_000,
        6..=8 => 22_000,
        9..=10 => 12_000,
        11..=12 => 8_000,
        _ => 5_000,
    }
}

/// The layers drawn at a zoom level, in drawing order.
pub open spec fn layers_drawn(base_z: u32) -> Seq<Seq<char>> {
    if base_z <= 5 {
        seq![
            "road"@,
            "water"@,
            "landuse"@,
            "building"@,
            "admin"@,
            "place_label"@,
            "poi_label"@,
            "rail_station_label"@,
        ]
    } else if base_z <= 8 {
        seq!["road"@, "water"@, "landuse"@, "building"@, "admin"@]
    } else if base_z <= 10 {
        seq!["road"@, "water"@, "landuse"@, "admin"@]
    } else {
        seq!["road"@, "water"@]
    }
}

/// The texts of a list of names.
pub open spec fn names(v: Seq<&'static str>) -> Seq<Seq<char>> {
    v.map_values(|s: &'static str| s@)
}

/// Fewer layers at high zoom, where buildings and labels dominate the segment count.
pub fn candidate_layers_for_zoom(base_z: u32) -> (r: Vec<&'static str>)
    ensures
        names(r@) == layers_drawn(base_z),
{
    let r: Vec<&'static str> = match base_z {
        0..=5 => vec![
            "road",
            "water",
            "landuse",
            "building",
            "admin",
            "place_label",
            "poi_label",
            "rail_station_label",
        ],
        6..=8 => vec!["road", "water", "landuse", "building", "admin"],
        9..=10 => vec!["road", "water", "landuse", "admin"],
        _ => vec!["road", "water"],
    };
    assert(names(r@) =~= layers_drawn(base_z));
    r
}

/// Zooming in never adds a layer and never raises the segment budget.
pub proof fn law_zooming_in_draws_less(near: u32, far: u32)
    requires
        near >= far,
    ensures
        segment_budget(near) <= segment_budget(far),
        forall|i: int|
            0 <= i < layers_drawn(near).len() ==> layers_drawn(far).contains(
                #[trigger] layers_drawn(near)[i],
            ),
{
    assert forall|i: int| 0 <= i < layers_drawn(near).len() implies layers_drawn(far).contains(
        #[trigger] layers_drawn(near)[i],
    ) by {
        let f = layers_drawn(far);
        let n = layers_drawn(near);
        assert(f[0] == "road"@ && f[1] == "water"@);
        if near <= 10 {
            assert(f[2] == "landuse"@);
            if far <= 8 {
                assert(f[3] == "building"@ && f[4] == "admin"@);
            } else {
                assert(f[3] == "admin"@);
            }
        }
        if near <= 5 {
            assert(f[i] == n[i]);
        }
    }
}

/// The remainder of a division that rounds towards zero; it has the sign of `n`.
pub open spec fn truncated_rem(n: int, m: int) -> int {
    let d = if m >= 0 {
        m
    } else {
        -m
    };
    if n >= 0 {
        n % d
    } else {
        -((-n) % d)
    }
}

/// `n` wrapped around `m`: for a positive `m`, the remainder between zero and `m`.
pub open spec fn wrapped(n: int, m: int) -> int {
    let r = truncated_rem(n, m);
    if r < 0 {
        r + m
    } else {
        r
    }
}

/// Wraps a tile coordinate around a grid.
pub fn mod_wrap(n: i64, m: i64) -> (r: i64)
    requires
        m != 0,
        !(n == i64::MIN && m == -1),
        wrapped(n as int, m as int) >= i64::MIN,
    ensures
        r == wrapped(n as int, m as int),
        m > 0 ==> r == n as int % m as int,
        m > 0 ==> 0 <= r < m,
{
    proof {
        if m > 0 {
            law_wrapping_is_periodic(n as int, 0, m as int);
        }
    }
    let mut v: i64 = n % m;
    proof {
        if m < 0 {
            lemma_mod_by_negative(n as int, m as int);
            lemma_mod_by_negative(-n, m as int);
        }
        assert(v == truncated_rem(n as int, m as int));
    }
    if v < 0 {
        v = v + m;
    }
    v
}

/// Wrapping stays on the grid, leaves coordinates on the grid alone, and does not notice whole
/// turns.
pub proof fn law_wrapping_is_periodic(n: int, turns: int, m: int)
    requires
        m > 0,
    ensures
        0 <= wrapped(n, m) < m,
        wrapped(n, m) == n % m,
        0 <= n < m ==> wrapped(n, m) == n,
        wrapped(n + turns * m, m) == wrapped(n, m),
{
    lemma_wrapped_is_mod(n, m);
    lemma_wrapped_is_mod(n + turns * m, m);
    div_mod::lemma_mod_multiples_vanish(turns, n, m);
    assert(m * turns + n == n + turns * m) by (nonlinear_arith);
    if 0 <= n < m {
        div_mod::lemma_small_mod(n as nat, m as nat);
    }
}

proof fn lemma_mod_by_negative(n: int, m: int)
    requires
        m < 0,
    ensures
        n % m == n % (-m),
{
    assert(n % m == n % (-m)) by (nonlinear_arith)
        requires
            m < 0,
    ;
}

proof fn lemma_wrapped_is_mod(n: int, m: int)
    requires
        m > 0,
    ensures
        wrapped(n, m) == n % m,
        0 <= n % m < m,
{
    if n < 0 {
        let q = (-n) / m;
        let r = (-n) % m;
        assert(-n == m * q + r && 0 <= r < m) by {
            div_mod::lemma_fundamental_div_mod(-n, m);
        }
        if r == 0 {
            assert(n == m * (-q) + 0) by (nonlinear_arith)
                requires
                    -n == m * q,
            ;
            div_mod::lemma_fundamental_div_mod_converse(n, m, -q, 0);
        } else {
            assert(n == m * (-q - 1) + (m - r)) by (nonlinear_arith)
                requires
                    -n == m * q + r,
            ;
            div_mod::lemma_fundamental_div_mod_converse(n, m, -q - 1, m - r);
        }
    }
}

// ---------------------------------------------------------------------------
// The tiles in view
// ---------------------------------------------------------------------------

/// A tile in view: where it lies on the endless map, and which tile of the grid is shown there.
#[derive(Debug, Clone, Copy, PartialEq, Eq, Structural)]
pub struct TileRef {
    pub tx: i64,
    pub ty: i64,
    pub z: u32,
    pub x: u32,
    pub y: u32,
}

/// The row lies on the grid. Rows are not wrapped.
pub open spec fn row_on_grid(ty: int, base_z: u32) -> bool {
    0 <= ty < power2::pow2(base_z as nat)
}

/// The tile shown at a column and a row of the endless map.
pub open spec fn tile_at(tx: int, ty: int, base_z: u32) -> TileRef {
    TileRef {
        tx: tx as i64,
        ty: ty as i64,
        z: base_z,
        x: (tx % (power2::pow2(base_z as nat) as int)) as u32,
        y: ty as u32,
    }
}

/// The three tiles of one row of the view, west to east; none where the row is off the grid.
pub open spec fn row_in_view(center_x: int, ty: int, base_z: u32) -> Seq<TileRef> {
    if row_on_grid(ty, base_z) {
        seq![
            tile_at(center_x - 1, ty, base_z),
            tile_at(center_x, ty, base_z),
            tile_at(center_x + 1, ty, base_z),
        ]
    } else {
        Seq::empty()
    }
}

/// The tiles around the center tile, row by row from the north.
pub open spec fn tiles_in_view(center_x: int, center_y: int, base_z: u32) -> Seq<TileRef> {
    row_in_view(center_x, center_y - 1, base_z) + row_in_view(center_x, center_y, base_z)
        + row_in_view(center_x, center_y + 1, base_z)
}

fn grid_size(base_z: u32) -> (r: i64)
    requires
        base_z <= TILE_RANGE,
    ensures
        r == power2::pow2(base_z as nat),
        1 <= r <= 16_384,
{
    let mut size: i64 = 1;
    let mut z: u32 = 0;
    proof {
        power2::lemma2_to64();
    }
    while z < base_z
        invariant
            z <= base_z <= TILE_RANGE,
            size == power2::pow2(z as nat),
            1 <= size <= power2::pow2(14),
            power2::pow2(14) == 16_384,
        decreases base_z - z,
    {
        proof {
            power2::lemma_pow2_unfold((z + 1) as nat);
            if z + 1 < 14 {
                power2::lemma_pow2_strictly_increases((z + 1) as nat, 14);
            }
        }
        size = size * 2;
        z = z + 1;
    }
    size
}

fn push_row(out: &mut Vec<TileRef>, center_x: i64, ty: i64, base_z: u32, grid: i64)
    requires
        base_z <= TILE_RANGE,
        grid == power2::pow2(base_z as nat),
        1 <= grid <= 16_384,
        i64::MIN < center_x < i64::MAX,
    ensures
        final(out)@ == old(out)@ + row_in_view(center_x as int, ty as int, base_z),
{
    if ty < 0 {
        assert(out@ =~= old(out)@ + row_in_view(center_x as int, ty as int, base_z));
        return;
    }
    if ty >= grid {
        assert(out@ =~= old(out)@ + row_in_view(center_x as int, ty as int, base_z));
        return;
    }
    let mut tx: i64 = center_x - 1;
    let ghost row = row_in_view(center_x as int, ty as int, base_z);
    assert(row.take(0) =~= Seq::empty());
    while tx <= center_x + 1
        invariant
            i64::MIN < center_x < i64::MAX,
            center_x - 1 <= tx <= center_x + 2,
            grid == power2::pow2(base_z as nat),
            1 <= grid <= 16_384,
            0 <= ty < grid,
            row == row_in_view(center_x as int, ty as int, base_z),
            row.len() == 3,
            out@ == old(out)@ + row.take(tx - (center_x - 1)),
        decreases center_x + 2 - tx,
    {
        proof {
            law_wrapping_is_periodic(tx as int, 0, grid as int);
        }
        let wrapped_x: u32 = mod_wrap(tx, grid) as u32;
        let tile = TileRef { tx, ty, z: base_z, x: wrapped_x, y: ty as u32 };
        assert(tile == row[tx - (center_x - 1)]);
        out.push(tile);
        assert(row.take(tx + 1 - (center_x - 1)) =~= row.take(tx - (center_x - 1)).push(tile));
        assert(out@ =~= old(out)@ + row.take(tx + 1 - (center_x - 1)));
        if tx == center_x + 1 {
            assert(row.take(3) =~= row);
            return;
        }
        tx = tx + 1;
    }
}

/// The tiles that a view draws around its center tile. Columns wrap around the world, rows do not.
pub fn visible_tiles(center_tile_x: i64, center_tile_y: i64, base_z: u32) -> (r: Vec<TileRef>)
    requires
        base_z <= TILE_RANGE,
        i64::MIN < center_tile_x < i64::MAX,
        i64::MIN < center_tile_y < i64::MAX,
    ensures
        r@ == tiles_in_view(center_tile_x as int, center_tile_y as int, base_z),
{
    let grid: i64 = grid_size(base_z);
    let mut out: Vec<TileRef> = Vec::new();
    push_row(&mut out, center_tile_x, center_tile_y - 1, base_z, grid);
    push_row(&mut out, center_tile_x, center_tile_y, base_z, grid);
    push_row(&mut out, center_tile_x, center_tile_y + 1, base_z, grid);
    assert(out@ =~= tiles_in_view(center_tile_x as int, center_tile_y as int, base_z));
    out
}

/// Every tile in view is a tile of the grid of its zoom level.
pub proof fn law_tiles_in_view_exist(center_x: int, center_y: int, base_z: u32)
    requires
        base_z <= TILE_RANGE,
    ensures
        forall|i: int|
            0 <= i < tiles_in_view(center_x, center_y, base_z).len() ==> {
                let t = #[trigger] tiles_in_view(center_x, center_y, base_z)[i];
                t.z == base_z && t.x < power2::pow2(base_z as nat) && t.y < power2::pow2(base_z as nat)
            },
        tiles_in_view(center_x, center_y, base_z).len() <= 9,
{
    let g = power2::pow2(base_z as nat) as int;
    power2::lemma2_to64();
    power2::lemma_pow2_pos(base_z as nat);
    if base_z < 14 {
        power2::lemma_pow2_strictly_increases(base_z as nat, 14);
    }
    assert(0 <= (center_x - 1) % g < g);
    assert(0 <= center_x % g < g);
    assert(0 <= (center_x + 1) % g < g);
}

/// The name under which a frame remembers a tile.
pub open spec fn tile_key(z: u32, x: u32, y: u32) -> Seq<char> {
    "z"@ + text::decimal(z as nat) + "-x"@ + text::decimal(x as nat) + "-y"@ + text::decimal(y as nat)
}

// ---------------------------------------------------------------------------
// From tile content to pixels
// ---------------------------------------------------------------------------

/// A pixel position; it may lie off the frame.
#[derive(Debug, Clone, Copy, PartialEq, Eq, Structural)]
pub struct Point {
    pub x: i32,
    pub y: i32,
}

/// A straight line to draw.
#[derive(Debug, Clone, Copy, PartialEq, Eq, Structural)]
pub struct Segment {
    pub from: Point,
    pub to: Point,
}

/// What kind of geometry a feature has.
#[derive(Debug, Clone, Copy, PartialEq, Eq, Structural)]
pub enum FeatureKind {
    /// Every path is a line.
    Lines,
    /// Every path is a ring.
    Polygons,
    /// Not drawn.
    Other,
}

/// A feature of a tile, its paths already in pixel positions.
pub struct ScreenFeature {
    pub kind: FeatureKind,
    pub paths: Vec<Vec<Point>>,
}

/// A named layer of a tile.
pub struct ScreenLayer {
    pub name: String,
    pub features: Vec<ScreenFeature>,
}

/// The segments of a path: from each point to the next, and for a ring from the last point back
/// to the first. A path of fewer than two points has none.
pub open spec fn path_segments(pts: Seq<Point>, ring: bool) -> Seq<Segment> {
    if pts.len() < 2 {
        Seq::empty()
    } else if ring {
        Seq::new(
            pts.len(),
            |j: int| Segment { from: pts[j], to: pts[if j + 1 < pts.len() { j + 1 } else { 0 }] },
        )
    } else {
        Seq::new((pts.len() - 1) as nat, |j: int| Segment { from: pts[j], to: pts[j + 1] })
    }
}

/// The segments of the first `n` paths of a feature.
pub open spec fn paths_segments(paths: Seq<Vec<Point>>, ring: bool, n: int) -> Seq<Segment>
    decreases n,
{
    if n <= 0 {
        Seq::empty()
    } else {
        paths_segments(paths, ring, n - 1) + path_segments(paths[n - 1]@, ring)
    }
}

/// The segments of a feature.
pub open spec fn feature_segments(f: ScreenFeature) -> Seq<Segment> {
    match f.kind {
        FeatureKind::Lines => paths_segments(f.paths@, false, f.paths@.len() as int),
        FeatureKind::Polygons => paths_segments(f.paths@, true, f.paths@.len() as int),
        FeatureKind::Other => Seq::empty(),
    }
}

/// The segments of the first `n` features of a layer.
pub open spec fn features_segments(fs: Seq<ScreenFeature>, n: int) -> Seq<Segment>
    decreases n,
{
    if n <= 0 {
        Seq::empty()
    } else {
        features_segments(fs, n - 1) + feature_segments(fs[n - 1])
    }
}

/// Where the first layer of a name stands, or the number of layers if there is none.
pub open spec fn layer_position(layers: Seq<ScreenLayer>, name: Seq<char>, from: int) -> int
    decreases layers.len() - from,
{
    if from >= layers.len() || layers[from].name@ == name {
        from
    } else {
        layer_position(layers, name, from + 1)
    }
}

/// The segments of the layer of a name; none where the tile has no such layer.
pub open spec fn named_segments(layers: Seq<ScreenLayer>, name: Seq<char>) -> Seq<Segment> {
    let p = layer_position(layers, name, 0);
    if p < layers.len() {
        features_segments(layers[p].features@, layers[p].features@.len() as int)
    } else {
        Seq::empty()
    }
}

/// The segments of the layers of the first `n` names.
pub open spec fn tile_segments(layers: Seq<ScreenLayer>, wanted: Seq<Seq<char>>, n: int) -> Seq<
    Segment,
>
    decreases n,
{
    if n <= 0 {
        Seq::empty()
    } else {
        tile_segments(layers, wanted, n - 1) + named_segments(layers, wanted[n - 1])
    }
}

fn push_path(out: &mut Vec<Segment>, pts: &Vec<Point>, ring: bool)
    ensures
        final(out)@ == old(out)@ + path_segments(pts@, ring),
{
    let n: usize = pts.len();
    if n < 2 {
        assert(out@ =~= old(out)@ + path_segments(pts@, ring));
        return;
    }
    let ghost segs = path_segments(pts@, ring);
    let count: usize = if ring {
        n
    } else {
        n - 1
    };
    let mut j: usize = 0;
    assert(out@ =~= old(out)@ + segs.take(0));
    while j < count
        invariant
            n == pts.len(),
            n >= 2,
            count == (if ring {
                n as int
            } else {
                n - 1
            }),
            j <= count,
            segs == path_segments(pts@, ring),
            segs.len() == count,
            out@ == old(out)@ + segs.take(j as int),
        decreases count - j,
    {
        let next: usize = if j + 1 < n {
            j + 1
        } else {
            0
        };
        let seg = Segment { from: pts[j], to: pts[next] };
        assert(seg == segs[j as int]);
        out.push(seg);
        j = j + 1;
        assert(segs.take(j as int) =~= segs.take(j - 1).push(seg));
        assert(out@ =~= old(out)@ + segs.take(j as int));
    }
    assert(segs.take(count as int) =~= segs);
}

fn push_feature(out: &mut Vec<Segment>, f: &ScreenFeature)
    ensures
        final(out)@ == old(out)@ + feature_segments(*f),
{
    let ring: bool = match f.kind {
        FeatureKind::Lines => false,
        FeatureKind::Polygons => true,
        FeatureKind::Other => {
            assert(out@ =~= old(out)@ + feature_segments(*f));
            return;
        },
    };
    let mut i: usize = 0;
    assert(out@ =~= old(out)@ + paths_segments(f.paths@, ring, 0));
    while i < f.paths.len()
        invariant
            i <= f.paths.len(),
            out@ == old(out)@ + paths_segments(f.paths@, ring, i as int),
        decreases f.paths.len() - i,
    {
        push_path(out, &f.paths[i], ring);
        i = i + 1;
        assert(out@ =~= old(out)@ + paths_segments(f.paths@, ring, i as int));
    }
}

fn find_layer(layers: &Vec<ScreenLayer>, name: &String) -> (p: usize)
    ensures
        p == layer_position(layers@, name@, 0),
        p <= layers.len(),
{
    let mut p: usize = 0;
    while p < layers.len()
        invariant
            p <= layers.len(),
            layer_position(layers@, name@, 0) == layer_position(layers@, name@, p as int),
        decreases layers.len() - p,
    {
        if layers[p].name == *name {
            return p;
        }
        p = p + 1;
    }
    p
}

fn push_layer(out: &mut Vec<Segment>, layers: &Vec<ScreenLayer>, name: &String)
    ensures
        final(out)@ == old(out)@ + named_segments(layers@, name@),
{
    let p: usize = find_layer(layers, name);
    if p >= layers.len() {
        assert(out@ =~= old(out)@ + named_segments(layers@, name@));
        return;
    }
    let layer = &layers[p];
    let mut i: usize = 0;
    assert(out@ =~= old(out)@ + features_segments(layer.features@, 0));
    while i < layer.features.len()
        invariant
            i <= layer.features.len(),
            out@ == old(out)@ + features_segments(layer.features@, i as int),
        decreases layer.features.len() - i,
    {
        push_feature(out, &layer.features[i]);
        i = i + 1;
        assert(out@ =~= old(out)@ + features_segments(layer.features@, i as int));
    }
}

/// All segments of the wanted layers of a tile, in drawing order.
pub fn collect_segments(layers: &Vec<ScreenLayer>, wanted: &Vec<&'static str>) -> (out: Vec<
    Segment,
>)
    ensures
        out@ == tile_segments(layers@, names(wanted@), wanted@.len() as int),
{
    let mut out: Vec<Segment> = Vec::new();
    let mut i: usize = 0;
    while i < wanted.len()
        invariant
            i <= wanted.len(),
            out@ == tile_segments(layers@, names(wanted@), i as int),
        decreases wanted.len() - i,
    {
        push_layer(&mut out, layers, &wanted[i].to_owned());
        assert(names(wanted@)[i as int] == wanted@[i as int]@);
        i = i + 1;
    }
    out
}

/// The pixel lies on one of the segments.
pub open spec fn covered(segs: Seq<Segment>, px: int, py: int) -> bool {
    exists|k: int|
        0 <= k < segs.len() && #[trigger] on_segment(segs[k], px, py)
}

/// The pixel lies on the segment.
pub open spec fn on_segment(s: Segment, px: int, py: int) -> bool {
    line::on_line(s.from.x as int, s.from.y as int, s.to.x as int, s.to.y as int, px, py)
}

/// `after` is `before` with the segments drawn on it, and nothing else changed.
pub open spec fn painted(before: BrailleFrame, after: BrailleFrame, segs: Seq<Segment>) -> bool {
    &&& after.same_size(before)
    &&& forall|px: int, py: int| #[trigger]
        after.lit(px, py) == (before.lit(px, py) || (before.drawable(px, py) && covered(
            segs,
            px,
            py,
        )))
}

/// The smaller of two counts.
pub open spec fn at_most(n: int, limit: int) -> int {
    if n <= limit {
        n
    } else {
        limit
    }
}

/// The drawing of one frame: how much of its segment budget is used, and which tiles it visited.
pub struct RenderPass {
    pub base_z: u32,
    pub budget: usize,
    pub drawn: usize,
    /// A segment was left out because the budget was used up.
    pub exhausted: bool,
    pub tiles_seen: Vec<String>,
}

impl RenderPass {
    /// Never more segments than the budget of the zoom level.
    pub open spec fn wf(self) -> bool {
        &&& self.budget == segment_budget(self.base_z)
        &&& self.drawn <= self.budget
    }

    /// Starts a frame with a blank picture.
    pub fn begin(frame: &mut BrailleFrame, base_z: u32) -> (pass: Self)
        requires
            old(frame).wf(),
        ensures
            final(frame).wf(),
            final(frame).same_size(*old(frame)),
            forall|x: int, y: int| !final(frame).lit(x, y),
            pass.wf(),
            pass.base_z == base_z,
            pass.drawn == 0,
            !pass.exhausted,
            pass.tiles_seen@ == Seq::<String>::empty(),
    {
        frame.clear();
        RenderPass {
            base_z,
            budget: segment_budget_for_zoom(base_z),
            drawn: 0,
            exhausted: false,
            tiles_seen: Vec::new(),
        }
    }

    /// Notes that a tile is part of this frame.
    pub fn visit(&mut self, tile: &TileRef)
        requires
            old(self).wf(),
        ensures
            final(self).wf(),
            final(self).base_z == old(self).base_z,
            final(self).drawn == old(self).drawn,
            final(self).exhausted == old(self).exhausted,
            text::texts(final(self).tiles_seen@) == text::texts(old(self).tiles_seen@).push(
                tile_key(tile.z, tile.x, tile.y),
            ),
    {
        let mut key = "z".to_owned();
        push_decimal(&mut key, tile.z as u64);
        key.append("-x");
        push_decimal(&mut key, tile.x as u64);
        key.append("-y");
        push_decimal(&mut key, tile.y as u64);
        self.tiles_seen.push(key);
        assert(text::texts(self.tiles_seen@) =~= text::texts(old(self).tiles_seen@).push(
            tile_key(tile.z, tile.x, tile.y),
        ));
    }

    /// Draws a tile, as far as the budget goes, and tells whether the frame may go on.
    pub fn draw_tile(&mut self, frame: &mut BrailleFrame, layers: &Vec<ScreenLayer>) -> (go_on: bool)
        requires
            old(self).wf(),
            !old(self).exhausted,
            old(frame).wf(),
        ensures
            final(self).wf(),
            final(self).base_z == old(self).base_z,
            final(self).tiles_seen == old(self).tiles_seen,
            final(frame).wf(),
            go_on == !final(self).exhausted,
            ({
                let wanted = layers_drawn(old(self).base_z);
                let segs = tile_segments(layers@, wanted, wanted.len() as int);
                let room = old(self).budget - old(self).drawn;
                let n = at_most(segs.len() as int, room);
                &&& final(self).drawn == old(self).drawn + n
                &&& final(self).exhausted == (segs.len() > room)
                &&& painted(*old(frame), *final(frame), segs.take(n))
            }),
    {
        let wanted: Vec<&'static str> = candidate_layers_for_zoom(self.base_z);
        let segs: Vec<Segment> = collect_segments(layers, &wanted);
        assert(names(wanted@).len() == wanted@.len());
        let mut i: usize = 0;
        assert(segs@.take(0) =~= Seq::empty());
        while i < segs.len()
            invariant
                i <= segs.len(),
                self.budget == old(self).budget,
                self.base_z == old(self).base_z,
                self.tiles_seen == old(self).tiles_seen,
                !self.exhausted,
                self.wf(),
                self.drawn == old(self).drawn + i,
                frame.wf(),
                painted(*old(frame), *frame, segs@.take(i as int)),
                segs@ == tile_segments(
                    layers@,
                    layers_drawn(old(self).base_z),
                    layers_drawn(old(self).base_z).len() as int,
                ),
            decreases segs.len() - i,
        {
            if self.drawn >= self.budget {
                self.exhausted = true;
                return false;
            }
            let s = segs[i];
            let ghost mid = *frame;
            draw_line(frame, s.from.x, s.from.y, s.to.x, s.to.y);
            self.drawn = self.drawn + 1;
            proof {
                lemma_paint_one(*old(frame), mid, *frame, segs@.take(i as int), s);
                assert(segs@.take(i + 1) =~= segs@.take(i as int).push(s));
            }
            i = i + 1;
        }
        assert(segs@.take(segs@.len() as int) =~= segs@);
        true
    }
}

proof fn lemma_paint_one(
    before: BrailleFrame,
    mid: BrailleFrame,
    after: BrailleFrame,
    segs: Seq<Segment>,
    s: Segment,
)
    requires
        painted(before, mid, segs),
        after.same_size(mid),
        forall|px: int, py: int| #[trigger]
            after.lit(px, py) == (mid.lit(px, py) || (mid.drawable(px, py) && line::on_line(
                s.from.x as int,
                s.from.y as int,
                s.to.x as int,
                s.to.y as int,
                px,
                py,
            ))),
    ensures
        painted(before, after, segs.push(s)),
{
    assert forall|px: int, py: int| #[trigger]
        after.lit(px, py) == (before.lit(px, py) || (before.drawable(px, py) && covered(
            segs.push(s),
            px,
            py,
        ))) by {
        assert(mid.lit(px, py) == mid.lit(px, py));
        let all = segs.push(s);
        if covered(segs, px, py) {
            let k = choose|k: int| 0 <= k < segs.len() && #[trigger] on_segment(segs[k], px, py);
            assert(on_segment(all[k], px, py));
        }
        if on_segment(s, px, py) {
            assert(on_segment(all[segs.len() as int], px, py));
        }
        if covered(all, px, py) {
            let k = choose|k: int| 0 <= k < all.len() && #[trigger] on_segment(all[k], px, py);
            if k < segs.len() {
                assert(on_segment(segs[k], px, py));
            }
        }
    }
}

/// A pixel lies on one of two lists of segments where it lies on either.
pub proof fn lemma_covered_by_either(first: Seq<Segment>, second: Seq<Segment>, px: int, py: int)
    ensures
        covered(first + second, px, py) == (covered(first, px, py) || covered(second, px, py)),
{
    let all = first + second;
    if covered(first, px, py) {
        let k = choose|k: int| 0 <= k < first.len() && #[trigger] on_segment(first[k], px, py);
        assert(on_segment(all[k], px, py));
    }
    if covered(second, px, py) {
        let k = choose|k: int| 0 <= k < second.len() && #[trigger] on_segment(second[k], px, py);
        assert(on_segment(all[first.len() + k], px, py));
    }
    if covered(all, px, py) {
        let k = choose|k: int| 0 <= k < all.len() && #[trigger] on_segment(all[k], px, py);
        if k < first.len() {
            assert(on_segment(first[k], px, py));
        } else {
            assert(on_segment(second[k - first.len()], px, py));
        }
    }
}

/// Drawing never clears a pixel, and two tiles drawn one after the other give the picture of
/// their segments drawn in one go.
pub proof fn law_painting_adds_up(
    a: BrailleFrame,
    b: BrailleFrame,
    c: BrailleFrame,
    first: Seq<Segment>,
    second: Seq<Segment>,
)
    requires
        painted(a, b, first),
        painted(b, c, second),
    ensures
        painted(a, c, first + second),
        forall|px: int, py: int| a.lit(px, py) ==> #[trigger] c.lit(px, py),
{
    let all = first + second;
    assert forall|px: int, py: int| #[trigger]
        c.lit(px, py) == (a.lit(px, py) || (a.drawable(px, py) && covered(all, px, py))) by {
        assert(b.lit(px, py) == b.lit(px, py));
        lemma_covered_by_either(first, second, px, py);
    }
}

// ---------------------------------------------------------------------------
// From pixels to terminal cells
// ---------------------------------------------------------------------------

/// A character to be shown in a terminal cell.
#[derive(Debug, Clone, Copy, PartialEq, Eq, Structural)]
pub struct CellOp {
    pub x: u16,
    pub y: u16,
    pub symbol: char,
}

/// A blank picture for a map panel; none where the panel is too small to show a map.
pub fn map_picture(area: Rect) -> (r: Option<BrailleFrame>)
    ensures
        r is None <==> area.width < 5 || area.height < 5,
        r matches Some(frame) ==> {
            &&& frame.wf()
            &&& frame.width_cells == area.width
            &&& frame.height_cells == area.height
            &&& forall|x: int, y: int| !frame.lit(x, y)
        },
{
    if area.width < 5 || area.height < 5 {
        return None;
    }
    assert(area.width * area.height <= 65535 * 65535) by (nonlinear_arith)
        requires
            0 <= area.width <= 65535,
            0 <= area.height <= 65535,
    ;
    Some(BrailleFrame::new(area.width as u32, area.height as u32))
}

/// The color of the map.
pub fn map_color() -> (c: Color)
    ensures
        c == Color::Cyan,
{
    Color::Cyan
}

/// The character that stands for a cell with dots in block mode.
pub const BLOCK: char = '#';

/// The number of the character that shows a dot mask: a space where no dot is set, and else the
/// dots themselves in Braille mode, or one block for all of them in ASCII block mode.
pub open spec fn symbol_code(mask: u8, braille: bool) -> int {
    if mask == 0 {
        0x20
    } else if braille {
        0x2800 + mask
    } else {
        BLOCK as int
    }
}

/// The cells show the masks, row by row from the top left corner of the panel.
pub open spec fn cells_shown(
    cells: Seq<CellOp>,
    masks: Seq<u8>,
    area: Rect,
    braille: bool,
) -> bool {
    forall|i: int|
        #![trigger cells[i]]
        0 <= i < cells.len() ==> {
            &&& cells[i].x == area.x + i % (area.width as int)
            &&& cells[i].y == area.y + i / (area.width as int)
            &&& cells[i].symbol as u32 == symbol_code(masks[i], braille)
        }
}

/// Both modes leave the same cells blank, and block mode shows ASCII characters only.
pub proof fn law_modes_show_the_same_cells(mask: u8)
    ensures
        symbol_code(mask, true) == 0x20 <==> symbol_code(mask, false) == 0x20,
        symbol_code(mask, false) <= 0x7F,
        mask != 0 ==> symbol_code(mask, true) != symbol_code(mask, false),
{
}

/// The picture as characters, row by row, at their cells of the panel: in Braille, or else in
/// ASCII block mode.
pub fn frame_cells(frame: &BrailleFrame, area: Rect, braille: bool) -> (cells: Vec<CellOp>)
    requires
        frame.wf(),
        frame.width_cells == area.width,
        frame.height_cells == area.height,
        area.x + area.width <= u16::MAX + 1,
        area.y + area.height <= u16::MAX + 1,
    ensures
        cells@.len() == frame.masks@.len(),
        cells_shown(cells@, frame.masks@, area, braille),
        !braille ==> forall|i: int|
            0 <= i < cells@.len() ==> !(0x2800 <= (#[trigger] cells@[i]).symbol as u32 <= 0x28FF),
{
    let mut cells: Vec<CellOp> = Vec::new();
    let ghost w = area.width as int;
    let ghost h = area.height as int;
    let mut cy: u16 = 0;
    while cy < area.height
        invariant
            frame.wf(),
            w == area.width,
            h == area.height,
            frame.masks@.len() == w * h,
            area.x + w <= u16::MAX + 1,
            area.y + h <= u16::MAX + 1,
            cy <= h,
            cells@.len() == w * cy,
            cells_shown(cells@, frame.masks@, area, braille),
        decreases h - cy,
    {
        let mut cx: u16 = 0;
        while cx < area.width
            invariant
                frame.wf(),
                w == area.width,
                h == area.height,
                frame.masks@.len() == w * h,
                area.x + w <= u16::MAX + 1,
                area.y + h <= u16::MAX + 1,
                cy < h,
                cx <= w,
                cells@.len() == cx + w * cy,
                cells_shown(cells@, frame.masks@, area, braille),
            decreases w - cx,
        {
            proof {
                braille::lemma_cell_in_range(w, h, 2 * cx as int, 4 * cy as int);
                assert(w * cy == cy * w) by (nonlinear_arith);
                div_mod::lemma_fundamental_div_mod_converse(
                    cx + w * cy,
                    w,
                    cy as int,
                    cx as int,
                );
            }
            let mask: u8 = frame.masks[cells.len()];
            let symbol: char = if mask == 0 {
                ' '
            } else if braille {
                BrailleFrame::cell_char(mask)
            } else {
                BLOCK
            };
            cells.push(CellOp { x: area.x + cx, y: area.y + cy, symbol });
            cx = cx + 1;
        }
        assert(w * (cy + 1) == w * cy + w) by (nonlinear_arith);
        cy = cy + 1;
    }
    cells
}

} // verus!
