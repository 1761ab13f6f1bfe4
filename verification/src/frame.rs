//! The drawing of one frame of the map: which tiles it looks up, which it draws, which it has
//! downloaded, and where it ends.

use crate::braille::{self, BrailleFrame};
use crate::text;
use crate::tiles::{self, visible_tiles, RenderPass, ScreenLayer, Segment, TileRef, TILE_RANGE};
use vstd::prelude::*;

verus! {

/// What a frame knows.
#[verifier::ext_equal]
pub struct FrameSpec {
    pub width_cells: u32,
    pub height_cells: u32,
    pub base_z: u32,
    /// The tiles in view, in the order in which they are looked up.
    pub tiles: Seq<TileRef>,
    /// What was found of the tiles that were looked up: their segments, or nothing.
    pub found: Seq<Option<Seq<Segment>>>,
}

/// The segments of the tiles that were found, one tile after the other.
pub open spec fn all_found(found: Seq<Option<Seq<Segment>>>) -> Seq<Segment>
    decreases found.len(),
{
    if found.len() == 0 {
        Seq::empty()
    } else {
        all_found(found.drop_last()) + match found.last() {
            Some(segs) => segs,
            None => Seq::empty(),
        }
    }
}

/// The segments that a tile contributes at a zoom level.
pub open spec fn segments_of(base_z: u32, layers: Seq<ScreenLayer>) -> Seq<Segment> {
    let wanted = tiles::layers_drawn(base_z);
    tiles::tile_segments(layers, wanted, wanted.len() as int)
}

/// The names of a list of tiles.
pub open spec fn tile_names(tiles: Seq<TileRef>) -> Seq<Seq<char>> {
    tiles.map_values(|t: TileRef| tiles::tile_key(t.z, t.x, t.y))
}

/// The tiles that nothing was found of.
pub open spec fn missing(tiles: Seq<TileRef>, found: Seq<Option<Seq<Segment>>>) -> Seq<TileRef>
    decreases found.len(),
{
    if found.len() == 0 {
        Seq::empty()
    } else {
        let before = missing(tiles, found.drop_last());
        match found.last() {
            Some(_) => before,
            None => before.push(tiles[found.len() - 1]),
        }
    }
}

impl FrameSpec {
    /// The segments that are drawn: those that were found, as far as the budget goes.
    pub open spec fn shown(self) -> Seq<Segment> {
        let all = all_found(self.found);
        all.take(tiles::at_most(all.len() as int, tiles::segment_budget(self.base_z) as int))
    }

    /// A segment was left out because the budget was used up.
    pub open spec fn exhausted(self) -> bool {
        all_found(self.found).len() > tiles::segment_budget(self.base_z)
    }

    /// No tile is left to look up, or the budget is used up.
    pub open spec fn over(self) -> bool {
        self.exhausted() || self.found.len() >= self.tiles.len()
    }

    /// The names of the tiles that were looked up.
    pub open spec fn seen(self) -> Seq<Seq<char>> {
        tile_names(self.tiles.take(self.found.len() as int))
    }

    /// The tiles that a download was asked for.
    pub open spec fn requested(self) -> Seq<TileRef> {
        missing(self.tiles, self.found)
    }

    /// The next tile was looked up.
    pub open spec fn with(self, content: Option<Seq<Segment>>) -> FrameSpec {
        FrameSpec { found: self.found.push(content), ..self }
    }
}

/// The picture shows these segments and nothing else.
pub open spec fn shows(frame: BrailleFrame, segs: Seq<Segment>) -> bool {
    forall|px: int, py: int| #[trigger]
        frame.lit(px, py) == (frame.drawable(px, py) && tiles::covered(segs, px, py))
}

/// What is done with a tile that was looked up.
#[derive(Debug, Clone, Copy, PartialEq, Eq, Structural)]
pub enum FrameStep {
    /// It was found, and is drawn.
    Drawn,
    /// It was not found, and has to be downloaded.
    Request(TileRef),
}

/// A frame that is being drawn.
pub struct FrameRun {
    pub frame: BrailleFrame,
    pub pass: RenderPass,
    pub tiles: Vec<TileRef>,
    pub found: Ghost<Seq<Option<Seq<Segment>>>>,
}

impl View for FrameRun {
    type V = FrameSpec;

    open spec fn view(&self) -> FrameSpec {
        FrameSpec {
            width_cells: self.frame.width_cells,
            height_cells: self.frame.height_cells,
            base_z: self.pass.base_z,
            tiles: self.tiles@,
            found: self.found@,
        }
    }
}

impl FrameRun {
    /// The picture shows exactly the segments that were found, as far as the budget goes, and the
    /// counts agree with that.
    pub open spec fn wf(self) -> bool {
        &&& self.frame.wf()
        &&& self.pass.wf()
        &&& self@.found.len() <= self@.tiles.len()
        &&& self.pass.drawn == self@.shown().len()
        &&& self.pass.exhausted == self@.exhausted()
        &&& text::texts(self.pass.tiles_seen@) == self@.seen()
        &&& shows(self.frame, self@.shown())
    }

    /// Starts a frame around a center tile. Whatever the picture showed before is cleared.
    pub fn begin(frame: BrailleFrame, center_tile_x: i64, center_tile_y: i64, base_z: u32) -> (r:
        Self)
        requires
            frame.wf(),
            base_z <= TILE_RANGE,
            i64::MIN < center_tile_x < i64::MAX,
            i64::MIN < center_tile_y < i64::MAX,
        ensures
            r.wf(),
            r@ == (FrameSpec {
                width_cells: frame.width_cells,
                height_cells: frame.height_cells,
                base_z,
                tiles: tiles::tiles_in_view(center_tile_x as int, center_tile_y as int, base_z),
                found: Seq::empty(),
            }),
    {
        let mut frame = frame;
        let pass: RenderPass = RenderPass::begin(&mut frame, base_z);
        let tiles: Vec<TileRef> = visible_tiles(center_tile_x, center_tile_y, base_z);
        let r = FrameRun { frame, pass, tiles, found: Ghost(Seq::empty()) };
        proof {
            assert(all_found(r@.found) =~= Seq::empty());
            assert(r@.shown() =~= Seq::empty());
            assert(text::texts(r.pass.tiles_seen@) =~= r@.seen());
        }
        r
    }

    /// The next tile to look up, unless the frame is over.
    pub fn next_tile(&self) -> (r: Option<TileRef>)
        requires
            self.wf(),
        ensures
            r == if self@.over() {
                None
            } else {
                Some(self@.tiles[self@.found.len() as int])
            },
    {
        proof {
            assert(self@.seen().len() == self@.found.len());
            assert(text::texts(self.pass.tiles_seen@).len() == self.pass.tiles_seen@.len());
        }
        let next: usize = self.pass.tiles_seen.len();
        if self.pass.exhausted || next >= self.tiles.len() {
            None
        } else {
            Some(self.tiles[next])
        }
    }

    /// The next tile was looked up: it is drawn if it was found, and is to be downloaded if not.
    pub fn report(&mut self, content: Option<&Vec<ScreenLayer>>) -> (r: FrameStep)
        requires
            old(self).wf(),
            !old(self)@.over(),
        ensures
            final(self).wf(),
            match content {
                Some(layers) => {
                    &&& r == FrameStep::Drawn
                    &&& final(self)@ == old(self)@.with(
                        Some(segments_of(old(self)@.base_z, layers@)),
                    )
                },
                None => {
                    &&& r == FrameStep::Request(old(self)@.tiles[old(self)@.found.len() as int])
                    &&& final(self)@ == old(self)@.with(None)
                },
            },
    {
        let ghost before = self@;
        proof {
            assert(self@.seen().len() == self@.found.len());
            assert(text::texts(self.pass.tiles_seen@).len() == self.pass.tiles_seen@.len());
        }
        let tile: TileRef = self.tiles[self.pass.tiles_seen.len()];
        self.pass.visit(&tile);
        let ghost all = all_found(before.found);
        assert(before.shown() =~= all);
        match content {
            Some(layers) => {
                let ghost segs = segments_of(before.base_z, layers@);
                let ghost picture = self.frame;
                let _ = self.pass.draw_tile(&mut self.frame, layers);
                self.found = Ghost(before.found.push(Some(segs)));
                proof {
                    lemma_found_grows(before.found, Some(segs));
                    let n = tiles::at_most(
                        segs.len() as int,
                        tiles::segment_budget(before.base_z) - all.len(),
                    );
                    assert(self@.shown() =~= all + segs.take(n));
                    lemma_shows_more(picture, self.frame, all, segs.take(n));
                    lemma_seen_grows(before, Some(segs));
                }
                FrameStep::Drawn
            },
            None => {
                self.found = Ghost(before.found.push(None));
                proof {
                    lemma_found_grows(before.found, None);
                    assert(all + Seq::<Segment>::empty() =~= all);
                    assert(self@.shown() =~= all);
                    lemma_seen_grows(before, None);
                }
                FrameStep::Request(tile)
            },
        }
    }
}

proof fn lemma_found_grows(found: Seq<Option<Seq<Segment>>>, content: Option<Seq<Segment>>)
    ensures
        all_found(found.push(content)) == all_found(found) + match content {
            Some(segs) => segs,
            None => Seq::empty(),
        },
{
    assert(found.push(content).drop_last() =~= found);
}

proof fn lemma_seen_grows(s: FrameSpec, content: Option<Seq<Segment>>)
    requires
        s.found.len() < s.tiles.len(),
    ensures
        ({
            let t = s.tiles[s.found.len() as int];
            s.with(content).seen() == s.seen().push(tiles::tile_key(t.z, t.x, t.y))
        }),
{
    let t = s.tiles[s.found.len() as int];
    assert(s.with(content).seen() =~= s.seen().push(tiles::tile_key(t.z, t.x, t.y)));
}

proof fn lemma_shows_more(
    before: BrailleFrame,
    after: BrailleFrame,
    first: Seq<Segment>,
    second: Seq<Segment>,
)
    requires
        shows(before, first),
        tiles::painted(before, after, second),
    ensures
        shows(after, first + second),
{
    let all = first + second;
    assert forall|px: int, py: int| #[trigger]
        after.lit(px, py) == (after.drawable(px, py) && tiles::covered(all, px, py)) by {
        assert(before.lit(px, py) == before.lit(px, py));
        tiles::lemma_covered_by_either(first, second, px, py);
    }
}

// ---------------------------------------------------------------------------
// Laws
// ---------------------------------------------------------------------------

/// A frame depends on its zoom level and on what was found of its tiles alone: two frames of the
/// same size for which the same was found show the same picture, whatever they showed before.
pub proof fn law_frame_depends_on_its_tiles_alone(a: FrameRun, b: FrameRun)
    requires
        a.wf(),
        b.wf(),
        a@.width_cells == b@.width_cells,
        a@.height_cells == b@.height_cells,
        a@.base_z == b@.base_z,
        a@.found == b@.found,
    ensures
        a.frame.masks@ == b.frame.masks@,
{
    assert forall|px: int, py: int| #[trigger] a.frame.lit(px, py) == b.frame.lit(px, py) by {
        assert(a.frame.drawable(px, py) == b.frame.drawable(px, py));
    }
    braille::lemma_same_pixels_same_masks(a.frame, b.frame);
}

/// A frame for which nothing was found is blank.
pub proof fn law_frame_without_tiles_is_blank(a: FrameRun, i: int)
    requires
        a.wf(),
        forall|k: int| 0 <= k < a@.found.len() ==> (#[trigger] a@.found[k]) is None,
        0 <= i < a.frame.masks@.len(),
    ensures
        a.frame.masks@[i] == 0,
{
    lemma_nothing_found(a@.found);
    assert(a@.shown() =~= Seq::empty());
    assert forall|px: int, py: int| !(#[trigger] a.frame.lit(px, py)) by {
        assert(!tiles::covered(a@.shown(), px, py));
    }
    braille::lemma_no_pixels_no_masks(a.frame, i);
}

proof fn lemma_nothing_found(found: Seq<Option<Seq<Segment>>>)
    requires
        forall|k: int| 0 <= k < found.len() ==> (#[trigger] found[k]) is None,
    ensures
        all_found(found) == Seq::<Segment>::empty(),
    decreases found.len(),
{
    if found.len() > 0 {
        lemma_nothing_found(found.drop_last());
        assert(all_found(found) =~= Seq::empty());
    }
}

/// A frame whose budget is not used up looks up every tile in view, in order, before it is over,
/// and its list of tiles is theirs.
pub proof fn law_frame_lists_the_view(s: FrameSpec, center_x: int, center_y: int)
    requires
        s.tiles == tiles::tiles_in_view(center_x, center_y, s.base_z),
        s.found.len() <= s.tiles.len(),
        s.over(),
        !s.exhausted(),
    ensures
        s.seen() == tile_names(tiles::tiles_in_view(center_x, center_y, s.base_z)),
{
    assert(s.tiles.take(s.found.len() as int) =~= s.tiles);
}

/// A download is asked for exactly the tiles that were looked up and not found: one for each, at
/// the step that looked it up.
pub proof fn law_frame_requests_what_is_missing(s: FrameSpec, content: Option<Seq<Segment>>, t: TileRef)
    requires
        s.found.len() < s.tiles.len(),
    ensures
        s.with(content).requested() == (if content is None {
            s.requested().push(s.tiles[s.found.len() as int])
        } else {
            s.requested()
        }),
        s.requested().contains(t) <==> exists|k: int|
            0 <= k < s.found.len() && (#[trigger] s.found[k]) is None && s.tiles[k] == t,
{
    assert(s.found.push(content).drop_last() =~= s.found);
    lemma_missing(s.tiles, s.found, t);
}

proof fn lemma_missing(tiles: Seq<TileRef>, found: Seq<Option<Seq<Segment>>>, t: TileRef)
    ensures
        missing(tiles, found).contains(t) <==> exists|k: int|
            0 <= k < found.len() && (#[trigger] found[k]) is None && tiles[k] == t,
    decreases found.len(),
{
    if found.len() > 0 {
        let rest = found.drop_last();
        let last = found.len() - 1;
        lemma_missing(tiles, rest, t);
        let before = missing(tiles, rest);
        let all = missing(tiles, found);
        if before.contains(t) {
            let k = choose|k: int|
                0 <= k < rest.len() && (#[trigger] rest[k]) is None && tiles[k] == t;
            assert(found[k] is None);
            let j = choose|j: int| 0 <= j < before.len() && before[j] == t;
            assert(all[j] == t);
        }
        if found[last] is None {
            assert(all[before.len() as int] == tiles[last]);
        }
        if all.contains(t) && !before.contains(t) {
            let j = choose|j: int| 0 <= j < all.len() && all[j] == t;
            if j < before.len() {
                assert(before[j] == t);
            }
            assert(found[last] is None && tiles[last] == t);
        }
        if exists|k: int| 0 <= k < found.len() && (#[trigger] found[k]) is None && tiles[k] == t {
            let k = choose|k: int|
                0 <= k < found.len() && (#[trigger] found[k]) is None && tiles[k] == t;
            if k < last {
                assert(rest[k] is None);
            }
        }
    }
}

} // verus!
