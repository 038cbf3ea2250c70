//! Style resolution and visualization strategies.
//!
//! A way's tags resolve to a render width and a base color through fixed
//! classification tables; resolution is total, so sparse or malformed tags
//! only ever fall back to defaults. A visualization strategy turns one
//! projected segment of a way into an ordered sequence of draw primitives
//! and decides whether the way is selectable while that strategy is active.
//!
//! Widths and coordinates are in fixed-point subpixel units, sixteen units
//! to one pixel.

use crate::attribute2d::{classify_spec, Attribute2D, TagValue};
use crate::geometry::{in_bounds, isqrt, lemma_abs_mul_bound, sqrt_floor, ScreenPoint};
use crate::map_data::{str_eq, way_tag, TagDict, Way};
use vstd::prelude::*;

verus! {

/// Units per pixel of the fixed-point screen space.
pub const SUBPIXELS: u64 = 16;

pub const DEFAULT_WIDTH: u64 = 16;

pub const PATH_WIDTH: u64 = 40;

pub const SERVICE_ROAD_WIDTH: u64 = 64;

pub const MINOR_ROAD_WIDTH: u64 = 80;

pub const MAJOR_ROAD_WIDTH: u64 = 96;

pub const BUILDING_WIDTH: u64 = 32;

/// Widest width any style resolution can produce.
pub const MAX_BASE_WIDTH: u64 = 96;

/// Largest scaled width the painters accept.
pub const WIDTH_LIMIT: u64 = 0x1000;

/// The closed set of colors the overlay draws with; the host maps each
/// variant to its drawing surface's color type.
#[derive(Clone, Copy, Debug, PartialEq, Eq, Structural)]
pub enum StyleColor {
    Hover,
    Default,
    Building,
    Path,
    Footway,
    Steps,
    Track,
    White,
    SidewalkYes,
    SidewalkNo,
    SidewalkSeparate,
    SidewalkUnknown,
}

/// The available visualization strategies.
#[derive(Clone, Copy, Debug, PartialEq, Eq, Hash, Structural)]
pub enum Visualization {
    Default,
    Sidewalks,
}

/// One styled line-segment draw primitive, in submission order the sole
/// output of a frame.
#[derive(Clone, Copy, Debug, PartialEq, Eq, Structural)]
pub struct Primitive {
    pub start: ScreenPoint,
    pub end: ScreenPoint,
    pub width: u64,
    pub color: StyleColor,
}

/// Render width of a way: buildings first, then the highway class table,
/// else the default. Total over every tag dictionary.
pub open spec fn width_spec(tags: Option<TagDict>) -> u64 {
    match way_tag(tags, "building"@) {
        Some(v) => if v == "no"@ {
            DEFAULT_WIDTH
        } else {
            BUILDING_WIDTH
        },
        None => match way_tag(tags, "highway"@) {
            Some(h) => if h == "path"@ || h == "footway"@ || h == "steps"@ {
                PATH_WIDTH
            } else if h == "service"@ || h == "track"@ {
                SERVICE_ROAD_WIDTH
            } else if h == "residential"@ {
                MINOR_ROAD_WIDTH
            } else if h == "tertiary"@ || h == "secondary"@ || h == "primary"@ || h == "trunk"@ || h
                == "motorway"@ || h == "tertiary_link"@ || h == "secondary_link"@ || h
                == "primary_link"@ || h == "trunk_link"@ || h == "motorway_link"@ {
                MAJOR_ROAD_WIDTH
            } else {
                DEFAULT_WIDTH
            },
            None => DEFAULT_WIDTH,
        },
    }
}

/// Base color of a way: buildings first, then the highway color table,
/// else the default. Total over every tag dictionary.
pub open spec fn color_spec(tags: Option<TagDict>) -> StyleColor {
    match way_tag(tags, "building"@) {
        Some(v) => if v == "no"@ {
            StyleColor::Default
        } else {
            StyleColor::Building
        },
        None => match way_tag(tags, "highway"@) {
            Some(h) => if h == "path"@ {
                StyleColor::Path
            } else if h == "footway"@ {
                StyleColor::Footway
            } else if h == "steps"@ {
                StyleColor::Steps
            } else if h == "track"@ {
                StyleColor::Track
            } else {
                StyleColor::White
            },
            None => StyleColor::Default,
        },
    }
}

/// The fixed allow-list of highway classes eligible for the sidewalk
/// overlay.
pub open spec fn sidewalk_highway_spec(h: Seq<char>) -> bool {
    ||| h == "unclassified"@
    ||| h == "residential"@
    ||| h == "living_street"@
    ||| h == "pedestrian"@
    ||| h == "service"@
    ||| h == "motorway"@
    ||| h == "trunk"@
    ||| h == "primary"@
    ||| h == "secondary"@
    ||| h == "tertiary"@
    ||| h == "motorway_link"@
    ||| h == "trunk_link"@
    ||| h == "primary_link"@
    ||| h == "secondary_link"@
    ||| h == "tertiary_link"@
}

/// A way takes part in the sidewalk overlay when its highway class is in
/// the allow-list.
pub open spec fn sidewalks_relevant_spec(tags: Option<TagDict>) -> bool {
    match way_tag(tags, "highway"@) {
        Some(h) => sidewalk_highway_spec(h),
        None => false,
    }
}

/// Whether a way is selectable under a strategy: always under the default
/// strategy, only sidewalk-eligible ways under the sidewalks strategy.
pub open spec fn can_select_spec(vis: Visualization, tags: Option<TagDict>) -> bool {
    match vis {
        Visualization::Default => true,
        Visualization::Sidewalks => sidewalks_relevant_spec(tags),
    }
}

/// Color drawn for one resolved sidewalk side value.
pub open spec fn tag_value_color(v: TagValue) -> StyleColor {
    match v {
        TagValue::Yes => StyleColor::SidewalkYes,
        TagValue::No => StyleColor::SidewalkNo,
        TagValue::Separate => StyleColor::SidewalkSeparate,
        TagValue::Unknown => StyleColor::SidewalkUnknown,
    }
}

/// Horizontal component of the orthogonal offset for the sidewalk lines:
/// the segment direction, rotated a quarter turn, scaled to length `w` and
/// rounded toward zero (zero for a degenerate segment).
pub open spec fn offset_x_spec(a: ScreenPoint, b: ScreenPoint, w: u64) -> int {
    let dx = b.x - a.x;
    let dy = b.y - a.y;
    let len = sqrt_floor(dx * dx + dy * dy);
    if len == 0 {
        0
    } else if dy < 0 {
        -(((-dy) * w) / len)
    } else {
        (dy * w) / len
    }
}

/// Vertical component of the orthogonal offset for the sidewalk lines.
pub open spec fn offset_y_spec(a: ScreenPoint, b: ScreenPoint, w: u64) -> int {
    let dx = b.x - a.x;
    let dy = b.y - a.y;
    let len = sqrt_floor(dx * dx + dy * dy);
    if len == 0 {
        0
    } else if dx < 0 {
        ((-dx) * w) / len
    } else {
        -((dx * w) / len)
    }
}

/// The primitives the sidewalks strategy paints for one segment: the base
/// segment always, and for a sidewalk-eligible way also the two offset
/// lines, colored by the resolved left and right attribute.
pub open spec fn sidewalks_prims_spec(
    tags: Option<TagDict>,
    a: ScreenPoint,
    b: ScreenPoint,
    color: StyleColor,
    width: u64,
) -> Seq<Primitive> {
    let base = Primitive { start: a, end: b, width, color };
    if sidewalks_relevant_spec(tags) {
        let attr = classify_spec(tags, "sidewalk"@);
        let ox = offset_x_spec(a, b, width);
        let oy = offset_y_spec(a, b, width);
        let left = Primitive {
            start: ScreenPoint { x: (a.x + ox) as i64, y: (a.y + oy) as i64 },
            end: ScreenPoint { x: (b.x + ox) as i64, y: (b.y + oy) as i64 },
            width,
            color: tag_value_color(attr.left),
        };
        let right = Primitive {
            start: ScreenPoint { x: (a.x - ox) as i64, y: (a.y - oy) as i64 },
            end: ScreenPoint { x: (b.x - ox) as i64, y: (b.y - oy) as i64 },
            width,
            color: tag_value_color(attr.right),
        };
        seq![base, left, right]
    } else {
        seq![base]
    }
}

/// The primitives a strategy paints for one segment.
pub open spec fn paint_spec(
    vis: Visualization,
    tags: Option<TagDict>,
    a: ScreenPoint,
    b: ScreenPoint,
    color: StyleColor,
    width: u64,
) -> Seq<Primitive> {
    match vis {
        Visualization::Default => seq![Primitive { start: a, end: b, width, color }],
        Visualization::Sidewalks => sidewalks_prims_spec(tags, a, b, color, width),
    }
}

impl TagValue {
    /// The overlay color for this side value.
    pub fn color(self) -> (c: StyleColor)
        ensures
            c == tag_value_color(self),
    {
        match self {
            TagValue::Yes => StyleColor::SidewalkYes,
            TagValue::No => StyleColor::SidewalkNo,
            TagValue::Separate => StyleColor::SidewalkSeparate,
            TagValue::Unknown => StyleColor::SidewalkUnknown,
        }
    }
}

/// Resolve the render width of a way from its tags.
pub fn determine_width_default(w: &Way) -> (r: u64)
    ensures
        r == width_spec(w.tags),
        r <= MAX_BASE_WIDTH,
{
    match &w.tags {
        None => DEFAULT_WIDTH,
        Some(tags) => {
            if let Some(v) = tags.get("building") {
                if str_eq(v.as_str(), "no") {
                    DEFAULT_WIDTH
                } else {
                    BUILDING_WIDTH
                }
            } else if let Some(h) = tags.get("highway") {
                let h = h.as_str();
                if str_eq(h, "path") || str_eq(h, "footway") || str_eq(h, "steps") {
                    PATH_WIDTH
                } else if str_eq(h, "service") || str_eq(h, "track") {
                    SERVICE_ROAD_WIDTH
                } else if str_eq(h, "residential") {
                    MINOR_ROAD_WIDTH
                } else if str_eq(h, "tertiary") || str_eq(h, "secondary") || str_eq(h, "primary")
                    || str_eq(h, "trunk") || str_eq(h, "motorway") || str_eq(h, "tertiary_link")
                    || str_eq(h, "secondary_link") || str_eq(h, "primary_link") || str_eq(
                    h,
                    "trunk_link",
                ) || str_eq(h, "motorway_link") {
                    MAJOR_ROAD_WIDTH
                } else {
                    DEFAULT_WIDTH
                }
            } else {
                DEFAULT_WIDTH
            }
        },
    }
}

/// Resolve the base color of a way from its tags.
pub fn determine_color_default(w: &Way) -> (r: StyleColor)
    ensures
        r == color_spec(w.tags),
{
    match &w.tags {
        None => StyleColor::Default,
        Some(tags) => {
            if let Some(v) = tags.get("building") {
                if str_eq(v.as_str(), "no") {
                    StyleColor::Default
                } else {
                    StyleColor::Building
                }
            } else if let Some(h) = tags.get("highway") {
                let h = h.as_str();
                if str_eq(h, "path") {
                    StyleColor::Path
                } else if str_eq(h, "footway") {
                    StyleColor::Footway
                } else if str_eq(h, "steps") {
                    StyleColor::Steps
                } else if str_eq(h, "track") {
                    StyleColor::Track
                } else {
                    StyleColor::White
                }
            } else {
                StyleColor::Default
            }
        },
    }
}

/// Whether a tag dictionary's highway class is in the sidewalk allow-list.
pub fn sidewalks_relevant(tags: &TagDict) -> (r: bool)
    ensures
        r == sidewalks_relevant_spec(Some(*tags)),
{
    if let Some(h) = tags.get("highway") {
        let h = h.as_str();
        str_eq(h, "unclassified") || str_eq(h, "residential") || str_eq(h, "living_street")
            || str_eq(h, "pedestrian") || str_eq(h, "service") || str_eq(h, "motorway") || str_eq(
            h,
            "trunk",
        ) || str_eq(h, "primary") || str_eq(h, "secondary") || str_eq(h, "tertiary") || str_eq(
            h,
            "motorway_link",
        ) || str_eq(h, "trunk_link") || str_eq(h, "primary_link") || str_eq(h, "secondary_link")
            || str_eq(h, "tertiary_link")
    } else {
        false
    }
}

/// Whether a way is selectable under the active strategy.
pub fn can_select(vis: Visualization, tags: &Option<TagDict>) -> (r: bool)
    ensures
        r == can_select_spec(vis, *tags),
{
    match vis {
        Visualization::Default => true,
        Visualization::Sidewalks => match tags {
            Some(d) => sidewalks_relevant(d),
            None => false,
        },
    }
}

/// Bounds of a nonnegative quotient.
proof fn lemma_div_le(d: int, l: int)
    by (nonlinear_arith)
    requires
        0 <= d,
        1 <= l,
    ensures
        0 <= d / l <= d,
{
}

/// The default strategy: one primitive, the segment with the base style.
pub fn default(a: ScreenPoint, b: ScreenPoint, color: StyleColor, width: u64) -> (v: Vec<
    Primitive,
>)
    ensures
        v@ =~= seq![Primitive { start: a, end: b, width, color }],
{
    let mut v: Vec<Primitive> = Vec::new();
    v.push(Primitive { start: a, end: b, width, color });
    v
}

/// The sidewalks strategy: the base segment first; for sidewalk-eligible
/// ways also a line on each side, offset orthogonally by the width, colored
/// by the resolved left and right sidewalk attribute.
pub fn sidewalks(way: &Way, a: ScreenPoint, b: ScreenPoint, color: StyleColor, width: u64) -> (v:
    Vec<Primitive>)
    requires
        in_bounds(a),
        in_bounds(b),
        width <= WIDTH_LIMIT,
    ensures
        v@ =~= sidewalks_prims_spec(way.tags, a, b, color, width),
        v@.len() == (if sidewalks_relevant_spec(way.tags) {
            3int
        } else {
            1int
        }),
{
    let mut v: Vec<Primitive> = Vec::new();
    v.push(Primitive { start: a, end: b, width, color });
    let relevant: bool = match &way.tags {
        Some(d) => sidewalks_relevant(d),
        None => false,
    };
    if relevant {
        let attr = crate::attribute2d::classify_attribute_by_side(&way.tags, "sidewalk");
        let dxi: i64 = b.x - a.x;
        let dyi: i64 = b.y - a.y;
        let dxm: u64 = if dxi < 0 {
            (-dxi) as u64
        } else {
            dxi as u64
        };
        let dym: u64 = if dyi < 0 {
            (-dyi) as u64
        } else {
            dyi as u64
        };
        proof {
            lemma_abs_mul_bound(dxm as int, dxm as int, 0x80000, 0x80000);
            lemma_abs_mul_bound(dym as int, dym as int, 0x80000, 0x80000);
            assert(dxm * dxm == (dxi as int) * (dxi as int) && dym * dym == (dyi as int) * (
            dyi as int)) by (nonlinear_arith)
                requires
                    dxm == (if dxi < 0 {
                        -(dxi as int)
                    } else {
                        dxi as int
                    }),
                    dym == (if dyi < 0 {
                        -(dyi as int)
                    } else {
                        dyi as int
                    }),
            ;
        }
        let len: u64 = isqrt(dxm * dxm + dym * dym);
        let mut ox: i64 = 0;
        let mut oy: i64 = 0;
        if len > 0 {
            proof {
                lemma_abs_mul_bound(dym as int, width as int, 0x80000, WIDTH_LIMIT as int);
                lemma_abs_mul_bound(dxm as int, width as int, 0x80000, WIDTH_LIMIT as int);
                lemma_div_le((dym * width) as int, len as int);
                lemma_div_le((dxm * width) as int, len as int);
            }
            let oxm: u64 = dym * width / len;
            let oym: u64 = dxm * width / len;
            ox = if dyi < 0 {
                -(oxm as i64)
            } else {
                oxm as i64
            };
            oy = if dxi < 0 {
                oym as i64
            } else {
                -(oym as i64)
            };
        }
        proof {
            assert(ox == offset_x_spec(a, b, width));
            assert(oy == offset_y_spec(a, b, width));
        }
        v.push(
            Primitive {
                start: ScreenPoint { x: a.x + ox, y: a.y + oy },
                end: ScreenPoint { x: b.x + ox, y: b.y + oy },
                width,
                color: attr.left.color(),
            },
        );
        v.push(
            Primitive {
                start: ScreenPoint { x: a.x - ox, y: a.y - oy },
                end: ScreenPoint { x: b.x - ox, y: b.y - oy },
                width,
                color: attr.right.color(),
            },
        );
    }
    v
}

/// Paint one segment of a way under the active strategy.
pub fn paint(
    vis: Visualization,
    way: &Way,
    a: ScreenPoint,
    b: ScreenPoint,
    color: StyleColor,
    width: u64,
) -> (v: Vec<Primitive>)
    requires
        in_bounds(a),
        in_bounds(b),
        width <= WIDTH_LIMIT,
    ensures
        v@ =~= paint_spec(vis, way.tags, a, b, color, width),
{
    match vis {
        Visualization::Default => default(a, b, color, width),
        Visualization::Sidewalks => sidewalks(way, a, b, color, width),
    }
}

} // verus!
