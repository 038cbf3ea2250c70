use overlay_editor::geometry::ScreenPoint;
use overlay_editor::map_data::{TagDict, Way};
use overlay_editor::visual::{
    can_select, determine_color_default, determine_width_default, paint, sidewalks,
    sidewalks_relevant, StyleColor, Visualization, BUILDING_WIDTH, DEFAULT_WIDTH,
    MAJOR_ROAD_WIDTH, MINOR_ROAD_WIDTH, PATH_WIDTH, SERVICE_ROAD_WIDTH,
};

fn dict(pairs: &[(&str, &str)]) -> TagDict {
    let mut d = TagDict::new();
    for (k, v) in pairs {
        d.insert((*k).to_owned(), (*v).to_owned());
    }
    d
}

fn way(id: u64, tags: Option<TagDict>) -> Way {
    Way { id, nodes: vec![1, 2], tags }
}

fn pt(x: i64, y: i64) -> ScreenPoint {
    ScreenPoint { x, y }
}

#[test]
fn width_defaults_for_empty_and_absent_tags() {
    assert_eq!(determine_width_default(&way(1, None)), DEFAULT_WIDTH);
    assert_eq!(determine_width_default(&way(1, Some(dict(&[])))), DEFAULT_WIDTH);
}

#[test]
fn width_building_classification() {
    assert_eq!(
        determine_width_default(&way(1, Some(dict(&[("building", "yes")])))),
        BUILDING_WIDTH
    );
    // `building=no` falls back to the default width.
    assert_eq!(
        determine_width_default(&way(1, Some(dict(&[("building", "no")])))),
        DEFAULT_WIDTH
    );
}

#[test]
fn width_highway_classification_table() {
    for (h, w) in [
        ("path", PATH_WIDTH),
        ("footway", PATH_WIDTH),
        ("steps", PATH_WIDTH),
        ("service", SERVICE_ROAD_WIDTH),
        ("track", SERVICE_ROAD_WIDTH),
        ("residential", MINOR_ROAD_WIDTH),
        ("motorway", MAJOR_ROAD_WIDTH),
        ("trunk_link", MAJOR_ROAD_WIDTH),
        ("raceway", DEFAULT_WIDTH),
    ] {
        assert_eq!(
            determine_width_default(&way(1, Some(dict(&[("highway", h)])))),
            w,
            "highway={h}"
        );
    }
}

#[test]
fn color_resolution_is_total() {
    assert_eq!(determine_color_default(&way(1, None)), StyleColor::Default);
    assert_eq!(determine_color_default(&way(1, Some(dict(&[])))), StyleColor::Default);
    assert_eq!(
        determine_color_default(&way(1, Some(dict(&[("building", "yes")])))),
        StyleColor::Building
    );
    assert_eq!(
        determine_color_default(&way(1, Some(dict(&[("building", "no")])))),
        StyleColor::Default
    );
    assert_eq!(
        determine_color_default(&way(1, Some(dict(&[("highway", "path")])))),
        StyleColor::Path
    );
    assert_eq!(
        determine_color_default(&way(1, Some(dict(&[("highway", "footway")])))),
        StyleColor::Footway
    );
    assert_eq!(
        determine_color_default(&way(1, Some(dict(&[("highway", "steps")])))),
        StyleColor::Steps
    );
    assert_eq!(
        determine_color_default(&way(1, Some(dict(&[("highway", "track")])))),
        StyleColor::Track
    );
    assert_eq!(
        determine_color_default(&way(1, Some(dict(&[("highway", "motorway")])))),
        StyleColor::White
    );
}

#[test]
fn default_strategy_single_primitive() {
    let v = overlay_editor::visual::default(pt(0, 0), pt(160, 0), StyleColor::White, 80);
    assert_eq!(v.len(), 1);
    assert_eq!(v[0].start, pt(0, 0));
    assert_eq!(v[0].end, pt(160, 0));
    assert_eq!(v[0].width, 80);
    assert_eq!(v[0].color, StyleColor::White);
}

#[test]
fn sidewalks_residential_three_primitives_and_selectable() {
    let w = way(1, Some(dict(&[("highway", "residential")])));
    let v = sidewalks(&w, pt(0, 0), pt(160, 0), StyleColor::White, 80);
    assert_eq!(v.len(), 3);
    assert!(can_select(Visualization::Sidewalks, &w.tags));
}

#[test]
fn sidewalks_ineligible_highway_single_primitive_not_selectable() {
    let w = way(1, Some(dict(&[("highway", "raceway")])));
    let v = sidewalks(&w, pt(0, 0), pt(160, 0), StyleColor::White, 80);
    assert_eq!(v.len(), 1);
    assert!(!can_select(Visualization::Sidewalks, &w.tags));
    // The default strategy still selects it.
    assert!(can_select(Visualization::Default, &w.tags));
}

#[test]
fn sidewalks_offset_lines_exact() {
    // Horizontal segment of length 160, width 80: the orthogonal offset is
    // (0, -80); left line above (in screen coordinates), right below.
    let w = way(1, Some(dict(&[("highway", "residential"), ("sidewalk", "left")])));
    let v = sidewalks(&w, pt(0, 0), pt(160, 0), StyleColor::White, 80);
    assert_eq!(v.len(), 3);
    // Base first.
    assert_eq!(v[0].start, pt(0, 0));
    assert_eq!(v[0].end, pt(160, 0));
    assert_eq!(v[0].color, StyleColor::White);
    // Left line, translated by +offset, colored by the left value (Yes).
    assert_eq!(v[1].start, pt(0, -80));
    assert_eq!(v[1].end, pt(160, -80));
    assert_eq!(v[1].color, StyleColor::SidewalkYes);
    // Right line, translated by -offset, colored by the right value (No).
    assert_eq!(v[2].start, pt(0, 80));
    assert_eq!(v[2].end, pt(160, 80));
    assert_eq!(v[2].color, StyleColor::SidewalkNo);
}

#[test]
fn sidewalks_unsigned_tags_paint_unknown_colors() {
    let w = way(1, Some(dict(&[("highway", "residential")])));
    let v = sidewalks(&w, pt(0, 0), pt(160, 0), StyleColor::White, 80);
    assert_eq!(v[1].color, StyleColor::SidewalkUnknown);
    assert_eq!(v[2].color, StyleColor::SidewalkUnknown);
}

#[test]
fn sidewalks_degenerate_segment_zero_offset() {
    let w = way(1, Some(dict(&[("highway", "residential")])));
    let v = sidewalks(&w, pt(5, 5), pt(5, 5), StyleColor::White, 80);
    assert_eq!(v.len(), 3);
    assert_eq!(v[1].start, pt(5, 5));
    assert_eq!(v[2].start, pt(5, 5));
}

#[test]
fn sidewalk_allow_list() {
    for h in [
        "unclassified", "residential", "living_street", "pedestrian", "service", "motorway",
        "trunk", "primary", "secondary", "tertiary", "motorway_link", "trunk_link",
        "primary_link", "secondary_link", "tertiary_link",
    ] {
        assert!(sidewalks_relevant(&dict(&[("highway", h)])), "highway={h}");
    }
    for h in ["raceway", "footway", "path", "steps", "track", ""] {
        assert!(!sidewalks_relevant(&dict(&[("highway", h)])), "highway={h}");
    }
    assert!(!sidewalks_relevant(&dict(&[("building", "yes")])));
}

#[test]
fn paint_dispatches_by_strategy() {
    let w = way(1, Some(dict(&[("highway", "residential")])));
    let d = paint(Visualization::Default, &w, pt(0, 0), pt(160, 0), StyleColor::White, 80);
    assert_eq!(d.len(), 1);
    let s = paint(Visualization::Sidewalks, &w, pt(0, 0), pt(160, 0), StyleColor::White, 80);
    assert_eq!(s.len(), 3);
}
