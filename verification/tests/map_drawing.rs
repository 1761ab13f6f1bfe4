use openrustmap::braille::{pixel_mask_for, BrailleFrame};
use openrustmap::draw::{render_map_frame, render_popup_border, Color, DrawOp};
use openrustmap::frame::{FrameRun, FrameStep};
use openrustmap::geometry::{centered_popup, in_rect, map_content_rect, Rect};
use openrustmap::input::{
    map_command, Event, KeyCode, KeyEvent, MapCommand, MapInput, MouseEvent, MouseEventKind,
};
use openrustmap::line::draw_line;
use openrustmap::tiles::{
    candidate_layers_for_zoom, collect_segments, frame_cells, map_color, map_picture, mod_wrap,
    segment_budget_for_zoom, visible_tiles, FeatureKind, Point, RenderPass, ScreenFeature,
    ScreenLayer, Segment, TileRef,
};

#[test]
fn braille_pixel_mask_matches_map_scii() {
    // (x%2,y%4) -> dot mask mapping (U+2800 + mask).
    assert_eq!(pixel_mask_for(0, 0), 0x01);
    assert_eq!(pixel_mask_for(1, 0), 0x08);
    assert_eq!(pixel_mask_for(0, 1), 0x02);
    assert_eq!(pixel_mask_for(1, 1), 0x10);
    assert_eq!(pixel_mask_for(0, 2), 0x04);
    assert_eq!(pixel_mask_for(1, 2), 0x20);
    assert_eq!(pixel_mask_for(0, 3), 0x40);
    assert_eq!(pixel_mask_for(1, 3), 0x80);
}

#[test]
fn braille_frame_sets_expected_cell_mask() {
    let mut frame = BrailleFrame::new(3, 2);
    frame.set_pixel(0, 0);
    assert_eq!(frame.masks[0], 0x01);

    frame.set_pixel(1, 0);
    assert_eq!(frame.masks[0], 0x01 | 0x08);
}

#[test]
fn pixel_masks_repeat_for_negative_positions() {
    assert_eq!(pixel_mask_for(-1, -1), 0x80);
    assert_eq!(pixel_mask_for(-2, -4), 0x01);
}

#[test]
fn pixels_off_the_frame_are_ignored() {
    let mut frame = BrailleFrame::new(2, 1);
    frame.set_pixel(-1, 0);
    frame.set_pixel(0, -1);
    frame.set_pixel(4, 0);
    frame.set_pixel(0, 4);
    assert_eq!(frame.masks, vec![0, 0]);
    frame.set_pixel(3, 3);
    assert_eq!(frame.masks, vec![0, 0x80]);
    frame.clear();
    assert_eq!(frame.masks, vec![0, 0]);
}

#[test]
fn cell_chars_are_braille_patterns() {
    assert_eq!(BrailleFrame::cell_char(0), '\u{2800}');
    assert_eq!(BrailleFrame::cell_char(0x47), '\u{2847}');
    assert_eq!(BrailleFrame::cell_char(0xff), '\u{28ff}');
}

#[test]
fn lines_light_both_ends_and_all_between() {
    let mut frame = BrailleFrame::new(4, 1);
    draw_line(&mut frame, 0, 0, 7, 0);
    assert_eq!(frame.masks, vec![0x09, 0x09, 0x09, 0x09]);

    let mut frame = BrailleFrame::new(2, 1);
    draw_line(&mut frame, 0, 0, 3, 3);
    assert_eq!(frame.masks, vec![0x01 | 0x10, 0x04 | 0x80]);

    let mut frame = BrailleFrame::new(1, 1);
    draw_line(&mut frame, 1, 2, 1, 2);
    assert_eq!(frame.masks, vec![0x20]);
}

#[test]
fn lines_may_start_and_end_off_the_frame() {
    let mut frame = BrailleFrame::new(1, 1);
    draw_line(&mut frame, -5, 1, 9, 1);
    assert_eq!(frame.masks, vec![0x02 | 0x10]);
}

#[test]
fn budgets_and_layers_shrink_with_zoom() {
    assert_eq!(segment_budget_for_zoom(0), 38_000);
    assert_eq!(segment_budget_for_zoom(5), 38_000);
    assert_eq!(segment_budget_for_zoom(6), 22_000);
    assert_eq!(segment_budget_for_zoom(8), 22_000);
    assert_eq!(segment_budget_for_zoom(9), 12_000);
    assert_eq!(segment_budget_for_zoom(11), 8_000);
    assert_eq!(segment_budget_for_zoom(12), 8_000);
    assert_eq!(segment_budget_for_zoom(13), 5_000);
    assert_eq!(
        candidate_layers_for_zoom(3),
        vec![
            "road",
            "water",
            "landuse",
            "building",
            "admin",
            "place_label",
            "poi_label",
            "rail_station_label"
        ]
    );
    assert_eq!(
        candidate_layers_for_zoom(7),
        vec!["road", "water", "landuse", "building", "admin"]
    );
    assert_eq!(candidate_layers_for_zoom(10), vec!["road", "water", "landuse", "admin"]);
    assert_eq!(candidate_layers_for_zoom(11), vec!["road", "water"]);
}

#[test]
fn wrapping_is_never_negative() {
    assert_eq!(mod_wrap(-1, 8), 7);
    assert_eq!(mod_wrap(8, 8), 0);
    assert_eq!(mod_wrap(-16, 8), 0);
    assert_eq!(mod_wrap(11, 8), 3);
}

#[test]
fn columns_wrap_and_rows_do_not() {
    let one = TileRef { tx: -1, ty: 0, z: 0, x: 0, y: 0 };
    assert_eq!(
        visible_tiles(0, 0, 0),
        vec![one, TileRef { tx: 0, ..one }, TileRef { tx: 1, ..one }]
    );

    let tiles = visible_tiles(0, 3, 2);
    assert_eq!(tiles.len(), 6);
    assert_eq!(tiles[0], TileRef { tx: -1, ty: 2, z: 2, x: 3, y: 2 });
    assert_eq!(tiles[5], TileRef { tx: 1, ty: 3, z: 2, x: 1, y: 3 });
    assert_eq!(visible_tiles(5, 5, 4).len(), 9);
}

fn pt(x: i32, y: i32) -> Point {
    Point { x, y }
}

fn layer(name: &str, kind: FeatureKind, paths: Vec<Vec<Point>>) -> ScreenLayer {
    ScreenLayer { name: name.to_string(), features: vec![ScreenFeature { kind, paths }] }
}

#[test]
fn lines_are_open_and_rings_are_closed() {
    let wanted = vec!["road", "water"];
    let path = vec![pt(0, 0), pt(2, 0), pt(2, 2)];
    let layers = vec![
        layer("water", FeatureKind::Polygons, vec![path.clone()]),
        layer("place_label", FeatureKind::Lines, vec![path.clone()]),
        layer("road", FeatureKind::Lines, vec![path, vec![pt(9, 9)]]),
    ];
    let seg = |a: Point, b: Point| Segment { from: a, to: b };
    assert_eq!(
        collect_segments(&layers, &wanted),
        vec![
            seg(pt(0, 0), pt(2, 0)),
            seg(pt(2, 0), pt(2, 2)),
            seg(pt(0, 0), pt(2, 0)),
            seg(pt(2, 0), pt(2, 2)),
            seg(pt(2, 2), pt(0, 0)),
        ]
    );
    let other = vec![layer("road", FeatureKind::Other, vec![vec![pt(0, 0), pt(1, 1)]])];
    assert!(collect_segments(&other, &wanted).is_empty());
}

#[test]
fn a_frame_stops_at_its_budget() {
    let mut frame = BrailleFrame::new(5, 5);
    let mut pass = RenderPass::begin(&mut frame, 13);
    pass.visit(&TileRef { tx: 4, ty: 5, z: 13, x: 4, y: 5 });
    assert_eq!(pass.tiles_seen, vec!["z13-x4-y5".to_string()]);
    let long: Vec<Point> = (0..5_001).map(|i| pt(i % 2, 0)).collect();
    let full = vec![layer("road", FeatureKind::Lines, vec![long])];
    assert!(pass.draw_tile(&mut frame, &full));
    assert_eq!(pass.drawn, 5_000);
    let one = vec![layer("road", FeatureKind::Lines, vec![vec![pt(0, 8), pt(1, 8)]])];
    assert!(!pass.draw_tile(&mut frame, &one));
    assert!(pass.exhausted);
    assert_eq!(frame.masks[0], 0x09);
    assert_eq!(frame.masks[10], 0);
}

#[test]
fn a_frame_starts_blank() {
    let mut frame = BrailleFrame::new(5, 5);
    frame.set_pixel(3, 3);
    let pass = RenderPass::begin(&mut frame, 0);
    assert_eq!(pass.budget, 38_000);
    assert!(frame.masks.iter().all(|m| *m == 0));
}

#[test]
fn rows_far_off_the_grid_are_not_shown() {
    assert!(visible_tiles(0, 4_294_967_296, 3).is_empty());
    assert!(visible_tiles(0, -9, 3).is_empty());
}

fn blank_with(pixel: Option<(i32, i32)>) -> BrailleFrame {
    let mut frame = BrailleFrame::new(5, 5);
    if let Some((x, y)) = pixel {
        frame.set_pixel(x, y);
    }
    frame
}

#[test]
fn a_frame_asks_for_what_is_missing() {
    let road = vec![layer("road", FeatureKind::Lines, vec![vec![pt(0, 0), pt(3, 0)]])];
    let mut run = FrameRun::begin(blank_with(None), 0, 0, 1);
    let mut asked = Vec::new();
    let mut looked_up = 0;
    while let Some(tile) = run.next_tile() {
        let content = if looked_up == 1 { Some(&road) } else { None };
        match run.report(content) {
            FrameStep::Drawn => assert_eq!(looked_up, 1),
            FrameStep::Request(t) => {
                assert_eq!(t, tile);
                asked.push((t.x, t.y));
            }
        }
        looked_up += 1;
    }
    assert_eq!(asked, vec![(1, 0), (1, 0), (1, 1), (0, 1), (1, 1)]);
    assert_eq!(
        run.pass.tiles_seen,
        vec!["z1-x1-y0", "z1-x0-y0", "z1-x1-y0", "z1-x1-y1", "z1-x0-y1", "z1-x1-y1"]
    );
    assert_eq!(run.frame.masks[..2], [0x09, 0x09]);
    assert!(run.frame.masks[2..].iter().all(|m| *m == 0));
}

#[test]
fn a_frame_does_not_show_what_was_there_before() {
    let road = vec![layer("road", FeatureKind::Lines, vec![vec![pt(0, 0), pt(5, 7)]])];
    let draw = |frame: BrailleFrame, content: Option<&Vec<ScreenLayer>>| {
        let mut run = FrameRun::begin(frame, 0, 0, 0);
        while run.next_tile().is_some() {
            run.report(content);
        }
        run.frame.masks
    };
    let clean = draw(blank_with(None), Some(&road));
    assert_eq!(draw(blank_with(Some((9, 19))), Some(&road)), clean);
    assert!(draw(blank_with(Some((9, 19))), None).iter().all(|m| *m == 0));
}

#[test]
fn a_frame_ends_once_its_budget_is_used_up() {
    let long: Vec<Point> = (0..5_002).map(|i| pt(i % 2, 0)).collect();
    let dense = vec![layer("road", FeatureKind::Lines, vec![long])];
    let mut run = FrameRun::begin(blank_with(None), 5, 5, 13);
    assert!(run.next_tile().is_some());
    assert_eq!(run.report(Some(&dense)), FrameStep::Drawn);
    assert_eq!(run.next_tile(), None);
    assert_eq!(run.pass.drawn, 5_000);
    assert_eq!(run.pass.tiles_seen.len(), 1);
}

#[test]
fn small_panels_have_no_picture() {
    let area = Rect { x: 1, y: 2, width: 4, height: 9 };
    assert!(map_picture(area).is_none());
    let area = Rect { x: 1, y: 2, width: 5, height: 5 };
    let mut frame = map_picture(area).unwrap();
    frame.set_pixel(2, 4);
    let cells = frame_cells(&frame, area, true);
    assert_eq!(cells.len(), 25);
    assert_eq!((cells[6].x, cells[6].y, cells[6].symbol), (2, 3, '\u{2801}'));
    assert_eq!((cells[0].x, cells[0].y, cells[0].symbol), (1, 2, ' '));
}

#[test]
fn block_mode_shows_blocks_in_place_of_braille() {
    let area = Rect { x: 1, y: 2, width: 5, height: 5 };
    let mut frame = map_picture(area).unwrap();
    draw_line(&mut frame, 0, 0, 9, 19);
    let dots = frame_cells(&frame, area, true);
    let blocks = frame_cells(&frame, area, false);
    assert_eq!(dots.len(), blocks.len());
    assert!(dots.iter().any(|c| ('\u{2801}'..='\u{28ff}').contains(&c.symbol)));
    for (d, b) in dots.iter().zip(blocks.iter()) {
        assert_eq!((d.x, d.y), (b.x, b.y));
        assert_eq!(b.symbol, if d.symbol == ' ' { ' ' } else { '#' });
    }
}

#[test]
fn the_map_is_cyan() {
    assert_eq!(map_color(), Color::Cyan);
}

#[test]
fn popups_are_centered() {
    let area = Rect { x: 10, y: 5, width: 100, height: 40 };
    let r = Rect { x: 34, y: 16, width: 52, height: 18 };
    assert_eq!(centered_popup(area, 52, 45), r);
    assert_eq!(centered_popup(area, 200, 100), area);
}

#[test]
fn frames_need_room() {
    let small = Rect { x: 7, y: 8, width: 3, height: 30 };
    assert_eq!(map_content_rect(small), small);
    let area = Rect { x: 0, y: 1, width: 95, height: 34 };
    assert_eq!(map_content_rect(area), Rect { x: 1, y: 2, width: 93, height: 32 });
}

#[test]
fn rectangles_exclude_their_far_edges() {
    let r = Rect { x: 3, y: 4, width: 2, height: 1 };
    assert!(in_rect(3, 4, r));
    assert!(in_rect(4, 4, r));
    assert!(!in_rect(5, 4, r));
    assert!(!in_rect(3, 5, r));
    assert!(!in_rect(0, 0, Rect { x: 0, y: 0, width: 0, height: 0 }));
    assert!(in_rect(65534, 0, Rect { x: 65533, y: 0, width: 9, height: 1 }));
}

fn text(x: u16, y: u16, s: &str, color: Color) -> DrawOp {
    DrawOp::Text { x, y, text: s.to_string(), color }
}

#[test]
fn the_map_frame_has_corners_and_edges() {
    let area = Rect { x: 1, y: 1, width: 3, height: 3 };
    let c = Color::DarkGray;
    assert_eq!(
        render_map_frame(area),
        vec![
            text(1, 1, "┌", c),
            text(3, 1, "┐", c),
            text(1, 3, "└", c),
            text(3, 3, "┘", c),
            text(2, 1, "─", c),
            text(2, 3, "─", c),
            text(1, 2, "│", c),
            text(3, 2, "│", c),
        ]
    );
    assert!(render_map_frame(Rect { x: 0, y: 0, width: 1, height: 9 }).is_empty());
}

#[test]
fn the_popup_border_has_a_title_and_a_button() {
    let ops = render_popup_border(Rect { x: 0, y: 0, width: 10, height: 3 }, "Radio-map");
    assert_eq!(ops.len(), 20 + 6 + 4 + 2);
    assert_eq!(ops[30], text(2, 0, " Radio-map ", Color::White));
    assert_eq!(ops[31], text(7, 0, "[X]", Color::Red));
    assert!(render_popup_border(Rect { x: 0, y: 0, width: 3, height: 9 }, "x").is_empty());
}

fn key(code: KeyCode, control: bool) -> MapInput {
    MapInput::CEvent(Event::Key(KeyEvent { code, control }))
}

#[test]
fn keys_command_the_map() {
    assert_eq!(map_command(key(KeyCode::Char('a'), false)), Some(MapCommand::ZoomIn));
    assert_eq!(map_command(key(KeyCode::Char('z'), false)), Some(MapCommand::ZoomOut));
    assert_eq!(map_command(key(KeyCode::Char('c'), false)), Some(MapCommand::ToggleBraille));
    assert_eq!(map_command(key(KeyCode::Left, false)), Some(MapCommand::PanLeft));
    assert_eq!(map_command(key(KeyCode::Right, false)), Some(MapCommand::PanRight));
    assert_eq!(map_command(key(KeyCode::Up, false)), Some(MapCommand::PanUp));
    assert_eq!(map_command(key(KeyCode::Down, false)), Some(MapCommand::PanDown));
    assert_eq!(map_command(key(KeyCode::Left, true)), None);
    assert_eq!(map_command(key(KeyCode::Char('q'), false)), None);
    assert_eq!(map_command(MapInput::Tick), None);
    let wheel = MouseEvent { kind: MouseEventKind::ScrollUp, column: 1, row: 1 };
    assert_eq!(map_command(MapInput::CEvent(Event::Mouse(wheel))), None);
}
