use overlay_editor::engine::{run_frame, EngineError, InteractionState, HOVER_SIZE_INCREASE};
use overlay_editor::geometry::ScreenPoint;
use overlay_editor::map_data::{TagDict, Way};
use overlay_editor::visual::{StyleColor, Visualization, MINOR_ROAD_WIDTH};
use std::collections::HashMap;

fn dict(pairs: &[(&str, &str)]) -> TagDict {
    let mut d = TagDict::new();
    for (k, v) in pairs {
        d.insert((*k).to_owned(), (*v).to_owned());
    }
    d
}

fn pt(x: i64, y: i64) -> ScreenPoint {
    ScreenPoint { x, y }
}

fn state() -> InteractionState {
    InteractionState { hovered: None, selected: None }
}

/// Two horizontal residential roads: way 1 along y = 0, way 2 along y = 32.
fn two_roads() -> (Vec<Way>, HashMap<u64, ScreenPoint>) {
    let ways = vec![
        Way { id: 1, nodes: vec![10, 11], tags: Some(dict(&[("highway", "residential")])) },
        Way { id: 2, nodes: vec![20, 21], tags: Some(dict(&[("highway", "residential")])) },
    ];
    let mut nodes = HashMap::new();
    nodes.insert(10, pt(0, 0));
    nodes.insert(11, pt(160, 0));
    nodes.insert(20, pt(0, 32));
    nodes.insert(21, pt(160, 32));
    (ways, nodes)
}

#[test]
fn hover_and_select_nearest_way() {
    let (ways, nodes) = two_roads();
    let mut s = state();
    // Pointer at y = 24: distance 24 to way 1, distance 8 to way 2.
    let r = run_frame(&ways, &nodes, Some(pt(80, 24)), false, Visualization::Default, 100, &mut s);
    assert!(r.is_ok());
    assert_eq!(s.hovered, Some(2));
    assert_eq!(s.selected, Some(2));
}

#[test]
fn nearest_wins_regardless_of_dataset_order() {
    // The same dataset in both iteration orders: the strictly nearer way
    // (way 2) wins either way.
    let (ways, nodes) = two_roads();
    let mut s = state();
    run_frame(&ways, &nodes, Some(pt(80, 24)), false, Visualization::Default, 100, &mut s)
        .unwrap();
    assert_eq!(s.hovered, Some(2));

    let mut reversed = two_roads().0;
    reversed.reverse();
    let mut s2 = state();
    run_frame(&reversed, &nodes, Some(pt(80, 24)), false, Visualization::Default, 100, &mut s2)
        .unwrap();
    assert_eq!(s2.hovered, Some(2));
    assert_eq!(s2.selected, Some(2));
}

#[test]
fn pointer_out_of_range_hits_nothing() {
    let (ways, nodes) = two_roads();
    let mut s = state();
    // Distance 968 to the nearer way: far beyond the range of 128.
    run_frame(&ways, &nodes, Some(pt(80, 1000)), false, Visualization::Default, 100, &mut s)
        .unwrap();
    assert_eq!(s.hovered, None);
    assert_eq!(s.selected, None);
}

#[test]
fn click_on_empty_space_clears_selection() {
    let (ways, nodes) = two_roads();
    let mut s = state();
    run_frame(&ways, &nodes, Some(pt(80, 24)), false, Visualization::Default, 100, &mut s)
        .unwrap();
    assert_eq!(s.selected, Some(2));
    // Pointer far away, click registered: the selection clears.
    run_frame(&ways, &nodes, Some(pt(80, 1000)), true, Visualization::Default, 100, &mut s)
        .unwrap();
    assert_eq!(s.hovered, None);
    assert_eq!(s.selected, None);
}

#[test]
fn selection_persists_without_click() {
    let (ways, nodes) = two_roads();
    let mut s = state();
    run_frame(&ways, &nodes, Some(pt(80, 24)), false, Visualization::Default, 100, &mut s)
        .unwrap();
    assert_eq!(s.selected, Some(2));
    // Pointer leaves: hover clears, the selection stays.
    run_frame(&ways, &nodes, None, false, Visualization::Default, 100, &mut s).unwrap();
    assert_eq!(s.hovered, None);
    assert_eq!(s.selected, Some(2));
}

#[test]
fn unselectable_hovered_way_is_never_selected() {
    // Under the sidewalks strategy a raceway is not selectable: hovering
    // it must not touch the selection.
    let ways = vec![Way {
        id: 7,
        nodes: vec![10, 11],
        tags: Some(dict(&[("highway", "raceway")])),
    }];
    let mut nodes = HashMap::new();
    nodes.insert(10, pt(0, 0));
    nodes.insert(11, pt(160, 0));
    let mut s = InteractionState { hovered: None, selected: Some(3) };
    run_frame(&ways, &nodes, Some(pt(80, 8)), false, Visualization::Sidewalks, 100, &mut s)
        .unwrap();
    assert_eq!(s.hovered, Some(7));
    assert_eq!(s.selected, Some(3));
}

#[test]
fn frame_is_idempotent() {
    let (ways, nodes) = two_roads();
    let mut s = state();
    let p1 = run_frame(&ways, &nodes, Some(pt(80, 24)), true, Visualization::Sidewalks, 100, &mut s)
        .unwrap();
    let s1 = s;
    let p2 = run_frame(&ways, &nodes, Some(pt(80, 24)), true, Visualization::Sidewalks, 100, &mut s)
        .unwrap();
    assert_eq!(s, s1);
    assert_eq!(p1, p2);
}

#[test]
fn highlight_drawn_above_base_layer() {
    let (ways, nodes) = two_roads();
    let mut s = state();
    let prims = run_frame(&ways, &nodes, Some(pt(80, 24)), false, Visualization::Default, 100, &mut s)
        .unwrap();
    // One base primitive per way, then one highlight primitive for the hit
    // way, last in submission order.
    assert_eq!(prims.len(), 3);
    assert_eq!(prims[0].color, StyleColor::White);
    assert_eq!(prims[0].width, MINOR_ROAD_WIDTH);
    assert_eq!(prims[1].color, StyleColor::White);
    let top = prims[2];
    assert_eq!(top.color, StyleColor::Hover);
    assert_eq!(top.width, MINOR_ROAD_WIDTH + HOVER_SIZE_INCREASE);
    assert_eq!(top.start, pt(0, 32));
    assert_eq!(top.end, pt(160, 32));
}

#[test]
fn scale_factor_scales_widths_and_range() {
    let (ways, nodes) = two_roads();
    let mut s = state();
    // At half scale the widths halve.
    let prims = run_frame(&ways, &nodes, Some(pt(80, 24)), false, Visualization::Default, 50, &mut s)
        .unwrap();
    assert_eq!(prims[0].width, MINOR_ROAD_WIDTH / 2);
    // And the search radius halves too: 64 < 100, so a pointer 100 away
    // no longer hits.
    let mut s2 = state();
    run_frame(&ways, &nodes, Some(pt(80, 132)), false, Visualization::Default, 50, &mut s2)
        .unwrap();
    assert_eq!(s2.hovered, None);
}

#[test]
fn missing_node_reference_aborts_frame() {
    let ways = vec![Way { id: 1, nodes: vec![10, 99], tags: None }];
    let mut nodes = HashMap::new();
    nodes.insert(10, pt(0, 0));
    let mut s = InteractionState { hovered: Some(5), selected: Some(5) };
    let r = run_frame(&ways, &nodes, Some(pt(0, 0)), false, Visualization::Default, 100, &mut s);
    assert_eq!(r, Err(EngineError::MissingNode(99)));
    // The state is left untouched.
    assert_eq!(s.hovered, Some(5));
    assert_eq!(s.selected, Some(5));
}

#[test]
fn empty_dataset_draws_nothing() {
    let ways: Vec<Way> = Vec::new();
    let nodes = HashMap::new();
    let mut s = state();
    let prims = run_frame(&ways, &nodes, Some(pt(0, 0)), false, Visualization::Default, 100, &mut s)
        .unwrap();
    assert!(prims.is_empty());
    assert_eq!(s.hovered, None);
}

#[test]
fn sidewalks_strategy_paints_offsets_through_engine() {
    let ways = vec![Way {
        id: 1,
        nodes: vec![10, 11],
        tags: Some(dict(&[("highway", "residential"), ("sidewalk", "both")])),
    }];
    let mut nodes = HashMap::new();
    nodes.insert(10, pt(0, 0));
    nodes.insert(11, pt(160, 0));
    let mut s = state();
    let prims = run_frame(&ways, &nodes, None, false, Visualization::Sidewalks, 100, &mut s)
        .unwrap();
    // Base segment plus the two sidewalk lines; no pointer, so no
    // highlight pass.
    assert_eq!(prims.len(), 3);
    assert_eq!(prims[1].color, StyleColor::SidewalkYes);
    assert_eq!(prims[2].color, StyleColor::SidewalkYes);
    assert_eq!(prims[1].start, pt(0, -80));
    assert_eq!(prims[2].start, pt(0, 80));
}
