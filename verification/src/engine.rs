//! The per-frame overlay driver.
//!
//! Once per rendered frame the engine walks every way, hit-tests each
//! projected segment against the pointer, paints every segment under the
//! active visualization strategy, re-draws the nearest hit way as a
//! highlight pass on top, and updates the hover/selection state. The draw
//! order is all base primitives in dataset order, then the highlight pass,
//! so the highlight is never occluded.
//!
//! The nearest feature wins across the whole dataset: the search radius
//! starts at a small constant interaction range scaled by the width scale
//! factor and shrinks to each strictly nearer hit, the first-seen way
//! keeping ties. A way that references a node id absent from the node
//! table is a data-integrity violation by the data source: the frame is
//! aborted with an error and the interaction state is left untouched.

use crate::geometry::{
    dist2_den, dist2_num, distance_point_to_segment, in_bounds, rat_wf, rlt, sq, DistSq,
    ScreenPoint,
};
use crate::map_data::{TagDict, Way};
use crate::visual::{
    can_select, can_select_spec, color_spec, determine_color_default, determine_width_default,
    paint, paint_spec, width_spec, Primitive, StyleColor, Visualization, MAX_BASE_WIDTH,
    WIDTH_LIMIT,
};
use std::collections::HashMap;
use vstd::prelude::*;

verus! {

broadcast use vstd::std_specs::hash::group_hash_axioms;

/// Base interaction range of the hit test, eight pixels in fixed-point
/// units, before the width scale factor is applied.
pub const INTERACTION_RANGE: u64 = 128;

/// Largest accepted width scale factor, in percent.
pub const SCALE_LIMIT: u64 = 2000;

/// Extra width given to the highlight pass over the hovered way.
pub const HOVER_SIZE_INCREASE: u64 = 16;

/// The interaction state carried across frames. `hovered` reflects only
/// the current frame's pointer; `selected` persists until cleared by a
/// click on empty space or reassigned to another selectable way.
#[derive(Clone, Copy, Debug, PartialEq, Eq)]
pub struct InteractionState {
    pub hovered: Option<u64>,
    pub selected: Option<u64>,
}

/// A data-integrity failure: a way referenced a node id that the node
/// table does not contain.
#[derive(Clone, Copy, Debug, PartialEq, Eq, Structural)]
pub enum EngineError {
    MissingNode(u64),
}

/// Every projected node position lies within the geometry kernel's bounds.
pub open spec fn nodes_in_bounds(nodes: Map<u64, ScreenPoint>) -> bool {
    forall|id: u64| nodes.contains_key(id) ==> in_bounds(#[trigger] nodes[id])
}

/// Every node id of the way is present in the node table.
pub open spec fn way_refs_ok(way: Way, nodes: Map<u64, ScreenPoint>) -> bool {
    forall|j: int| 0 <= j < way.nodes@.len() ==> nodes.contains_key(#[trigger] way.nodes@[j])
}

/// Referential integrity of the whole dataset.
pub open spec fn refs_ok(ways: Seq<Way>, nodes: Map<u64, ScreenPoint>) -> bool {
    forall|i: int| 0 <= i < ways.len() ==> way_refs_ok(#[trigger] ways[i], nodes)
}

/// Some way of the dataset references the id.
pub open spec fn references(ways: Seq<Way>, id: u64) -> bool {
    exists|i: int, j: int|
        0 <= i < ways.len() && 0 <= j < ways[i].nodes@.len() && #[trigger] ways[i].nodes@[j] == id
}

/// The projected position of the way's `j`-th node.
pub open spec fn way_pt(way: Way, nodes: Map<u64, ScreenPoint>, j: int) -> ScreenPoint {
    nodes[way.nodes@[j]]
}

/// Number of segments of a way's polyline.
pub open spec fn seg_count(way: Way) -> int {
    if way.nodes@.len() == 0 {
        0
    } else {
        way.nodes@.len() - 1
    }
}

/// The way's render width with the scale factor applied.
pub open spec fn scaled_width(tags: Option<TagDict>, scale: u64) -> u64 {
    ((width_spec(tags) * scale) / 100) as u64
}

/// The hit-test search radius: the constant interaction range, scaled.
pub open spec fn seed_radius(scale: u64) -> u64 {
    ((INTERACTION_RANGE * scale) / 100) as u64
}

/// The exact squared distance from `p` to one segment, as a rational pair.
pub open spec fn seg_d2(p: ScreenPoint, a: ScreenPoint, b: ScreenPoint) -> (int, int) {
    (dist2_num(p, a, b), dist2_den(p, a, b))
}

/// The hit-test state after the first `k` segments of one way, starting
/// from best distance `b` and candidate `c`: a segment strictly nearer
/// than the running best makes the way (index `idx`) the candidate.
pub open spec fn scan_way_upto(
    way: Way,
    nodes: Map<u64, ScreenPoint>,
    p: ScreenPoint,
    k: int,
    b: (int, int),
    c: Option<int>,
    idx: int,
) -> ((int, int), Option<int>)
    decreases k,
{
    if k <= 0 {
        (b, c)
    } else {
        let prev = scan_way_upto(way, nodes, p, k - 1, b, c, idx);
        let d = seg_d2(p, way_pt(way, nodes, k - 1), way_pt(way, nodes, k));
        if rlt(d, prev.0) {
            (d, Some(idx))
        } else {
            prev
        }
    }
}

/// The hit-test state after the first `n` ways of the dataset.
pub open spec fn scan_upto(
    ways: Seq<Way>,
    nodes: Map<u64, ScreenPoint>,
    p: ScreenPoint,
    scale: u64,
    n: int,
) -> ((int, int), Option<int>)
    decreases n,
{
    if n <= 0 {
        ((sq(seed_radius(scale) as int), 1), None)
    } else {
        let prev = scan_upto(ways, nodes, p, scale, n - 1);
        scan_way_upto(ways[n - 1], nodes, p, seg_count(ways[n - 1]), prev.0, prev.1, n - 1)
    }
}

/// The index of the nearest way within interaction range, if any.
pub open spec fn frame_cand(
    ways: Seq<Way>,
    nodes: Map<u64, ScreenPoint>,
    pointer: Option<ScreenPoint>,
    scale: u64,
) -> Option<int> {
    match pointer {
        None => None,
        Some(p) => scan_upto(ways, nodes, p, scale, ways.len() as int).1,
    }
}

/// The base-layer primitives of the first `k` segments of one way.
pub open spec fn way_prims_upto(
    way: Way,
    nodes: Map<u64, ScreenPoint>,
    vis: Visualization,
    scale: u64,
    k: int,
) -> Seq<Primitive>
    decreases k,
{
    if k <= 0 {
        Seq::empty()
    } else {
        way_prims_upto(way, nodes, vis, scale, k - 1) + paint_spec(
            vis,
            way.tags,
            way_pt(way, nodes, k - 1),
            way_pt(way, nodes, k),
            color_spec(way.tags),
            scaled_width(way.tags, scale),
        )
    }
}

/// The base-layer primitives of the first `n` ways, in dataset order.
pub open spec fn base_prims_upto(
    ways: Seq<Way>,
    nodes: Map<u64, ScreenPoint>,
    vis: Visualization,
    scale: u64,
    n: int,
) -> Seq<Primitive>
    decreases n,
{
    if n <= 0 {
        Seq::empty()
    } else {
        base_prims_upto(ways, nodes, vis, scale, n - 1) + way_prims_upto(
            ways[n - 1],
            nodes,
            vis,
            scale,
            seg_count(ways[n - 1]),
        )
    }
}

/// The highlight pass over the first `k` segments of the hovered way: the
/// way's scaled width plus the highlight increment, in the highlight color.
pub open spec fn highlight_prims_upto(
    way: Way,
    nodes: Map<u64, ScreenPoint>,
    scale: u64,
    k: int,
) -> Seq<Primitive>
    decreases k,
{
    if k <= 0 {
        Seq::empty()
    } else {
        highlight_prims_upto(way, nodes, scale, k - 1) + seq![
            Primitive {
                start: way_pt(way, nodes, k - 1),
                end: way_pt(way, nodes, k),
                width: (scaled_width(way.tags, scale) + HOVER_SIZE_INCREASE) as u64,
                color: StyleColor::Hover,
            },
        ]
    }
}

/// Everything a frame draws: all base primitives in dataset order, then
/// the highlight pass over the nearest hit way, if any.
pub open spec fn frame_prims(
    ways: Seq<Way>,
    nodes: Map<u64, ScreenPoint>,
    pointer: Option<ScreenPoint>,
    vis: Visualization,
    scale: u64,
) -> Seq<Primitive> {
    let base = base_prims_upto(ways, nodes, vis, scale, ways.len() as int);
    match frame_cand(ways, nodes, pointer, scale) {
        Some(i) => base + highlight_prims_upto(ways[i], nodes, scale, seg_count(ways[i])),
        None => base,
    }
}

/// The interaction state after a frame: the nearest hit way becomes
/// hovered, and also selected when the strategy allows selecting it; with
/// no hit, hover clears, and a click clears the selection.
pub open spec fn frame_state(
    ways: Seq<Way>,
    nodes: Map<u64, ScreenPoint>,
    pointer: Option<ScreenPoint>,
    clicked: bool,
    vis: Visualization,
    scale: u64,
    prev: InteractionState,
) -> InteractionState {
    match frame_cand(ways, nodes, pointer, scale) {
        Some(i) => InteractionState {
            hovered: Some(ways[i].id),
            selected: if can_select_spec(vis, ways[i].tags) {
                Some(ways[i].id)
            } else {
                prev.selected
            },
        },
        None => InteractionState {
            hovered: None,
            selected: if clicked {
                None
            } else {
                prev.selected
            },
        },
    }
}

/// An exec candidate index stands for a spec candidate.
pub open spec fn cand_matches(c: Option<usize>, s: Option<int>) -> bool {
    match c {
        None => s is None,
        Some(u) => s == Some(u as int),
    }
}

/// Look every node of the way up, in order.
fn project_way(way: &Way, nodes: &HashMap<u64, ScreenPoint>) -> (r: Result<
    Vec<ScreenPoint>,
    EngineError,
>)
    ensures
        match r {
            Ok(pts) => way_refs_ok(*way, nodes@) && pts@.len() == way.nodes@.len() && (forall|
                j: int,
            |
                0 <= j < pts@.len() ==> pts@[j] == way_pt(*way, nodes@, j)),
            Err(e) => !way_refs_ok(*way, nodes@) && (match e {
                EngineError::MissingNode(id) => !nodes@.contains_key(id) && (exists|j: int|
                    0 <= j < way.nodes@.len() && way.nodes@[j] == id),
            }),
        },
{
    let mut pts: Vec<ScreenPoint> = Vec::new();
    let mut j: usize = 0;
    while j < way.nodes.len()
        invariant
            j <= way.nodes@.len(),
            pts@.len() == j,
            forall|t: int| 0 <= t < j ==> nodes@.contains_key(#[trigger] way.nodes@[t]),
            forall|t: int| 0 <= t < j ==> #[trigger] pts@[t] == way_pt(*way, nodes@, t),
        decreases way.nodes@.len() - j,
    {
        let id: u64 = way.nodes[j];
        match nodes.get(&id) {
            Some(p) => pts.push(*p),
            None => {
                return Err(EngineError::MissingNode(id));
            },
        }
        j = j + 1;
    }
    Ok(pts)
}

/// Run one frame: hit-test, paint, highlight, and update the interaction
/// state. Returns the frame's ordered draw primitives, or the
/// data-integrity error (leaving the state untouched) when a way
/// references a missing node.
pub fn run_frame(
    ways: &Vec<Way>,
    nodes: &HashMap<u64, ScreenPoint>,
    pointer: Option<ScreenPoint>,
    clicked: bool,
    visualization: Visualization,
    scale_percent: u64,
    state: &mut InteractionState,
) -> (r: Result<Vec<Primitive>, EngineError>)
    requires
        nodes_in_bounds(nodes@),
        (match pointer {
            Some(p) => in_bounds(p),
            None => true,
        }),
        scale_percent <= SCALE_LIMIT,
    ensures
        r is Ok <==> refs_ok(ways@, nodes@),
        (match r {
            Ok(prims) => prims@ == frame_prims(ways@, nodes@, pointer, visualization, scale_percent)
                && *final(state) == frame_state(
                ways@,
                nodes@,
                pointer,
                clicked,
                visualization,
                scale_percent,
                *old(state),
            ),
            Err(e) => *final(state) == *old(state) && (match e {
                EngineError::MissingNode(id) => !nodes@.contains_key(id) && references(ways@, id),
            }),
        }),
{
    let radius: u64 = INTERACTION_RANGE * scale_percent / 100;
    let mut best: DistSq = DistSq::from_radius(radius);
    let mut cand: Option<usize> = None;
    let mut prims: Vec<Primitive> = Vec::new();
    let mut wi: usize = 0;
    while wi < ways.len()
        invariant
            nodes_in_bounds(nodes@),
            (match pointer {
                Some(p) => in_bounds(p),
                None => true,
            }),
            scale_percent <= SCALE_LIMIT,
            wi <= ways@.len(),
            forall|t: int| 0 <= t < wi ==> way_refs_ok(#[trigger] ways@[t], nodes@),
            prims@ == base_prims_upto(ways@, nodes@, visualization, scale_percent, wi as int),
            best.wf(),
            (match pointer {
                Some(p) => {
                    let sc = scan_upto(ways@, nodes@, p, scale_percent, wi as int);
                    best.ratio() == sc.0 && cand_matches(cand, sc.1)
                },
                None => cand is None,
            }),
            (match cand {
                Some(u) => 0 <= u < wi,
                None => true,
            }),
        decreases ways@.len() - wi,
    {
        let way: &Way = &ways[wi];
        let pts: Vec<ScreenPoint> = match project_way(way, nodes) {
            Ok(pts) => pts,
            Err(e) => {
                proof {
                    match e {
                        EngineError::MissingNode(id) => {
                            let j = choose|j: int|
                                0 <= j < way.nodes@.len() && way.nodes@[j] == id;
                            assert(ways@[wi as int].nodes@[j] == id);
                            assert(references(ways@, id));
                        },
                    }
                    assert(!way_refs_ok(ways@[wi as int], nodes@));
                }
                return Err(e);
            },
        };
        let wbase: u64 = determine_width_default(way);
        proof {
            crate::geometry::lemma_abs_mul_bound(
                wbase as int,
                scale_percent as int,
                MAX_BASE_WIDTH as int,
                SCALE_LIMIT as int,
            );
        }
        let wscaled: u64 = wbase * scale_percent / 100;
        let color: StyleColor = determine_color_default(way);
        let ghost b0 = best;
        let ghost c0 = cand;
        let mut k: usize = 0;
        proof {
            assert(prims@ =~= base_prims_upto(
                ways@,
                nodes@,
                visualization,
                scale_percent,
                wi as int,
            ) + way_prims_upto(ways@[wi as int], nodes@, visualization, scale_percent, 0));
        }
        let nsegs: usize = if pts.len() > 0 {
            pts.len() - 1
        } else {
            0
        };
        while k < nsegs
            invariant
                nsegs == seg_count(*way),
                nodes_in_bounds(nodes@),
                (match pointer {
                    Some(p) => in_bounds(p),
                    None => true,
                }),
                scale_percent <= SCALE_LIMIT,
                wi < ways@.len(),
                ways@[wi as int] == *way,
                way_refs_ok(*way, nodes@),
                pts@.len() == way.nodes@.len(),
                forall|t: int| 0 <= t < pts@.len() ==> pts@[t] == way_pt(*way, nodes@, t),
                k <= nsegs,
                wbase == width_spec(way.tags),
                wscaled == scaled_width(way.tags, scale_percent),
                wscaled <= WIDTH_LIMIT,
                color == color_spec(way.tags),
                prims@ == base_prims_upto(ways@, nodes@, visualization, scale_percent, wi as int)
                    + way_prims_upto(*way, nodes@, visualization, scale_percent, k as int),
                best.wf(),
                (match pointer {
                    Some(p) => {
                        let prev = scan_upto(ways@, nodes@, p, scale_percent, wi as int);
                        let sw = scan_way_upto(
                            *way,
                            nodes@,
                            p,
                            k as int,
                            prev.0,
                            prev.1,
                            wi as int,
                        );
                        b0.ratio() == prev.0 && frame_cand_of(c0) == prev.1 && best.ratio() == sw.0
                            && cand_matches(cand, sw.1)
                    },
                    None => cand is None,
                }),
                (match cand {
                    Some(u) => 0 <= u <= wi,
                    None => true,
                }),
            decreases pts@.len() - k,
        {
            let pa: ScreenPoint = pts[k];
            let pb: ScreenPoint = pts[k + 1];
            if let Some(mp) = pointer {
                let d: DistSq = distance_point_to_segment(mp, pa, pb);
                if d.lt(&best) {
                    best = d;
                    cand = Some(wi);
                }
            }
            let mut seg: Vec<Primitive> = paint(visualization, way, pa, pb, color, wscaled);
            prims.append(&mut seg);
            proof {
                assert(prims@ =~= base_prims_upto(
                    ways@,
                    nodes@,
                    visualization,
                    scale_percent,
                    wi as int,
                ) + way_prims_upto(*way, nodes@, visualization, scale_percent, k as int + 1));
            }
            k = k + 1;
        }
        proof {
            assert(seg_count(*way) == (if pts@.len() == 0 {
                0int
            } else {
                pts@.len() - 1
            }));
            assert(prims@ =~= base_prims_upto(
                ways@,
                nodes@,
                visualization,
                scale_percent,
                wi as int + 1,
            ));
        }
        wi = wi + 1;
    }
    match cand {
        Some(i) => {
            let way: &Way = &ways[i];
            let pts: Vec<ScreenPoint> = match project_way(way, nodes) {
                Ok(pts) => pts,
                Err(e) => {
                    proof {
                        assert(way_refs_ok(ways@[i as int], nodes@));
                        assert(false);
                    }
                    return Err(e);
                },
            };
            let wbase: u64 = determine_width_default(way);
            proof {
                crate::geometry::lemma_abs_mul_bound(
                    wbase as int,
                    scale_percent as int,
                    MAX_BASE_WIDTH as int,
                    SCALE_LIMIT as int,
                );
            }
            let wscaled: u64 = wbase * scale_percent / 100;
            let hw: u64 = wscaled + HOVER_SIZE_INCREASE;
            let ghost base_all = prims@;
            let mut k: usize = 0;
            proof {
                assert(prims@ =~= base_all + highlight_prims_upto(*way, nodes@, scale_percent, 0));
            }
            let nsegs: usize = if pts.len() > 0 {
                pts.len() - 1
            } else {
                0
            };
            while k < nsegs
                invariant
                    nsegs == seg_count(*way),
                    wi == ways@.len(),
                    0 <= i < ways@.len(),
                    ways@[i as int] == *way,
                    pts@.len() == way.nodes@.len(),
                    forall|t: int| 0 <= t < pts@.len() ==> pts@[t] == way_pt(*way, nodes@, t),
                    k <= nsegs,
                    wbase == width_spec(way.tags),
                    wscaled == scaled_width(way.tags, scale_percent),
                    hw == (scaled_width(way.tags, scale_percent) + HOVER_SIZE_INCREASE) as u64,
                    prims@ == base_all + highlight_prims_upto(*way, nodes@, scale_percent, k as int),
                decreases pts@.len() - k,
            {
                prims.push(
                    Primitive {
                        start: pts[k],
                        end: pts[k + 1],
                        width: hw,
                        color: StyleColor::Hover,
                    },
                );
                proof {
                    assert(prims@ =~= base_all + highlight_prims_upto(
                        *way,
                        nodes@,
                        scale_percent,
                        k as int + 1,
                    ));
                }
                k = k + 1;
            }
            proof {
                assert(prims@ =~= base_all + highlight_prims_upto(
                    *way,
                    nodes@,
                    scale_percent,
                    seg_count(*way),
                ));
            }
            state.hovered = Some(way.id);
            if can_select(visualization, &way.tags) {
                state.selected = Some(way.id);
            }
            Ok(prims)
        },
        None => {
            state.hovered = None;
            if clicked {
                state.selected = None;
            }
            Ok(prims)
        },
    }
}

/// Identity on spec candidates; names the ghost value in loop invariants.
pub open spec fn frame_cand_of(c: Option<usize>) -> Option<int> {
    match c {
        None => None,
        Some(u) => Some(u as int),
    }
}

/// The smallest squared distance from `p` to any of the first `k` segments
/// of the way, keeping the earliest representative; `None` when the way
/// has no segments.
pub open spec fn way_d2_upto(
    way: Way,
    nodes: Map<u64, ScreenPoint>,
    p: ScreenPoint,
    k: int,
) -> Option<(int, int)>
    decreases k,
{
    if k <= 0 {
        None
    } else {
        let d = seg_d2(p, way_pt(way, nodes, k - 1), way_pt(way, nodes, k));
        match way_d2_upto(way, nodes, p, k - 1) {
            None => Some(d),
            Some(x) => if rlt(d, x) {
                Some(d)
            } else {
                Some(x)
            },
        }
    }
}

/// The way's distance to the pointer: the smallest squared distance over
/// all its segments.
pub open spec fn way_d2(way: Way, nodes: Map<u64, ScreenPoint>, p: ScreenPoint) -> Option<
    (int, int),
> {
    way_d2_upto(way, nodes, p, seg_count(way))
}

/// A squared segment distance is a well-formed rational.
proof fn lemma_seg_d2_wf(p: ScreenPoint, a: ScreenPoint, b: ScreenPoint)
    ensures
        rat_wf(seg_d2(p, a, b)),
{
    assert((b.x - a.x) * (b.x - a.x) >= 0 && (b.y - a.y) * (b.y - a.y) >= 0)
        by (nonlinear_arith);
}

/// A way's distance to the pointer is a well-formed rational.
proof fn lemma_way_d2_wf(way: Way, nodes: Map<u64, ScreenPoint>, p: ScreenPoint, k: int)
    ensures
        match way_d2_upto(way, nodes, p, k) {
            None => true,
            Some(x) => rat_wf(x),
        },
    decreases k,
{
    if k > 0 {
        lemma_way_d2_wf(way, nodes, p, k - 1);
        lemma_seg_d2_wf(p, way_pt(way, nodes, k - 1), way_pt(way, nodes, k));
    }
}

/// Scanning a way's segments against a running best is the same as
/// comparing the way's own minimum distance against it once.
proof fn lemma_scan_way_min(
    way: Way,
    nodes: Map<u64, ScreenPoint>,
    p: ScreenPoint,
    k: int,
    b: (int, int),
    c: Option<int>,
    idx: int,
)
    requires
        rat_wf(b),
    ensures
        scan_way_upto(way, nodes, p, k, b, c, idx) == (match way_d2_upto(way, nodes, p, k) {
            None => (b, c),
            Some(x) => if rlt(x, b) {
                (x, Some(idx))
            } else {
                (b, c)
            },
        }),
    decreases k,
{
    if k > 0 {
        lemma_scan_way_min(way, nodes, p, k - 1, b, c, idx);
        lemma_way_d2_wf(way, nodes, p, k - 1);
        let d = seg_d2(p, way_pt(way, nodes, k - 1), way_pt(way, nodes, k));
        lemma_seg_d2_wf(p, way_pt(way, nodes, k - 1), way_pt(way, nodes, k));
        match way_d2_upto(way, nodes, p, k - 1) {
            None => {},
            Some(x) => {
                if rlt(x, b) {
                    if rlt(d, x) {
                        crate::geometry::lemma_rlt_trans(d, x, b);
                    }
                } else {
                    if rlt(d, b) {
                        crate::geometry::lemma_rlt_rle_trans(d, b, x);
                    }
                }
            },
        }
    }
}

/// Before the nearest way is reached, the running best stays strictly
/// above its distance.
proof fn lemma_scan_before_nearest(
    ways: Seq<Way>,
    nodes: Map<u64, ScreenPoint>,
    p: ScreenPoint,
    scale: u64,
    i: int,
    d: (int, int),
    n: int,
)
    requires
        0 <= i < ways.len(),
        way_d2(ways[i], nodes, p) == Some(d),
        rlt(d, (sq(seed_radius(scale) as int), 1int)),
        forall|j: int|
            0 <= j < ways.len() && j != i ==> (match #[trigger] way_d2(ways[j], nodes, p) {
                Some(dj) => rlt(d, dj),
                None => true,
            }),
        0 <= n <= i,
    ensures
        rat_wf(scan_upto(ways, nodes, p, scale, n).0),
        rlt(d, scan_upto(ways, nodes, p, scale, n).0),
    decreases n,
{
    if n > 0 {
        lemma_scan_before_nearest(ways, nodes, p, scale, i, d, n - 1);
        let prev = scan_upto(ways, nodes, p, scale, n - 1);
        lemma_scan_way_min(ways[n - 1], nodes, p, seg_count(ways[n - 1]), prev.0, prev.1, n - 1);
        lemma_way_d2_wf(ways[n - 1], nodes, p, seg_count(ways[n - 1]));
        let dn = way_d2(ways[n - 1], nodes, p);
        assert(dn == way_d2_upto(ways[n - 1], nodes, p, seg_count(ways[n - 1])));
        match dn {
            None => {},
            Some(x) => {
                assert(rlt(d, x));
            },
        }
    }
}

/// Once the nearest way has been scanned, it stays the candidate through
/// the rest of the dataset.
proof fn lemma_scan_after_nearest(
    ways: Seq<Way>,
    nodes: Map<u64, ScreenPoint>,
    p: ScreenPoint,
    scale: u64,
    i: int,
    d: (int, int),
    n: int,
)
    requires
        0 <= i < ways.len(),
        way_d2(ways[i], nodes, p) == Some(d),
        rlt(d, (sq(seed_radius(scale) as int), 1int)),
        forall|j: int|
            0 <= j < ways.len() && j != i ==> (match #[trigger] way_d2(ways[j], nodes, p) {
                Some(dj) => rlt(d, dj),
                None => true,
            }),
        i < n <= ways.len(),
    ensures
        scan_upto(ways, nodes, p, scale, n).0 == d,
        scan_upto(ways, nodes, p, scale, n).1 == Some(i),
    decreases n,
{
    if n == i + 1 {
        lemma_scan_before_nearest(ways, nodes, p, scale, i, d, i);
        let prev = scan_upto(ways, nodes, p, scale, i);
        lemma_scan_way_min(ways[i], nodes, p, seg_count(ways[i]), prev.0, prev.1, i);
        assert(way_d2(ways[i], nodes, p) == way_d2_upto(ways[i], nodes, p, seg_count(ways[i])));
        assert(scan_upto(ways, nodes, p, scale, n) == scan_way_upto(
            ways[i],
            nodes,
            p,
            seg_count(ways[i]),
            prev.0,
            prev.1,
            i,
        ));
    } else {
        lemma_scan_after_nearest(ways, nodes, p, scale, i, d, n - 1);
        lemma_way_d2_wf(ways[i], nodes, p, seg_count(ways[i]));
        assert(way_d2(ways[i], nodes, p) == way_d2_upto(ways[i], nodes, p, seg_count(ways[i])));
        assert(rat_wf(d));
        lemma_scan_way_min(ways[n - 1], nodes, p, seg_count(ways[n - 1]), d, Some(i), n - 1);
        let dn = way_d2(ways[n - 1], nodes, p);
        assert(dn == way_d2_upto(ways[n - 1], nodes, p, seg_count(ways[n - 1])));
        match dn {
            None => {},
            Some(x) => {
                assert(rlt(d, x));
                assert(!rlt(x, d));
            },
        }
    }
}

/// Nearest wins, independent of dataset order: a way strictly nearer to
/// the pointer than the seeded search radius and than every other way is
/// the frame's hit, wherever it stands in the dataset; it becomes hovered,
/// and selected when the strategy allows selecting it.
pub proof fn lemma_nearest_way_wins(
    ways: Seq<Way>,
    nodes: Map<u64, ScreenPoint>,
    p: ScreenPoint,
    clicked: bool,
    vis: Visualization,
    scale: u64,
    prev: InteractionState,
    i: int,
    d: (int, int),
)
    requires
        0 <= i < ways.len(),
        way_d2(ways[i], nodes, p) == Some(d),
        rlt(d, (sq(seed_radius(scale) as int), 1int)),
        forall|j: int|
            0 <= j < ways.len() && j != i ==> (match #[trigger] way_d2(ways[j], nodes, p) {
                Some(dj) => rlt(d, dj),
                None => true,
            }),
    ensures
        frame_cand(ways, nodes, Some(p), scale) == Some(i),
        frame_state(ways, nodes, Some(p), clicked, vis, scale, prev).hovered == Some(ways[i].id),
        can_select_spec(vis, ways[i].tags) ==> frame_state(
            ways,
            nodes,
            Some(p),
            clicked,
            vis,
            scale,
            prev,
        ).selected == Some(ways[i].id),
{
    lemma_scan_after_nearest(ways, nodes, p, scale, i, d, ways.len() as int);
}

/// A click with no way within range clears the selection, whatever it
/// was, and leaves nothing hovered.
pub proof fn lemma_click_clears(
    ways: Seq<Way>,
    nodes: Map<u64, ScreenPoint>,
    pointer: Option<ScreenPoint>,
    vis: Visualization,
    scale: u64,
    prev: InteractionState,
)
    requires
        frame_cand(ways, nodes, pointer, scale) is None,
    ensures
        frame_state(ways, nodes, pointer, true, vis, scale, prev).selected is None,
        frame_state(ways, nodes, pointer, true, vis, scale, prev).hovered is None,
{
}

/// A hovered way that the active strategy does not allow selecting never
/// becomes selected: the selection stays exactly as it was.
pub proof fn lemma_unselectable_hover_keeps_selection(
    ways: Seq<Way>,
    nodes: Map<u64, ScreenPoint>,
    pointer: Option<ScreenPoint>,
    clicked: bool,
    vis: Visualization,
    scale: u64,
    prev: InteractionState,
    i: int,
)
    requires
        frame_cand(ways, nodes, pointer, scale) == Some(i),
        0 <= i < ways.len(),
        !can_select_spec(vis, ways[i].tags),
    ensures
        frame_state(ways, nodes, pointer, clicked, vis, scale, prev).selected == prev.selected,
        frame_state(ways, nodes, pointer, clicked, vis, scale, prev).hovered == Some(ways[i].id),
{
}

/// Running a frame twice with identical inputs and an unchanged dataset
/// is idempotent: the second frame computes the same interaction state,
/// and the primitive sequence, which does not depend on the incoming
/// state at all, is identical as well.
pub proof fn lemma_frame_idempotent(
    ways: Seq<Way>,
    nodes: Map<u64, ScreenPoint>,
    pointer: Option<ScreenPoint>,
    clicked: bool,
    vis: Visualization,
    scale: u64,
    prev: InteractionState,
)
    ensures
        frame_state(
            ways,
            nodes,
            pointer,
            clicked,
            vis,
            scale,
            frame_state(ways, nodes, pointer, clicked, vis, scale, prev),
        ) == frame_state(ways, nodes, pointer, clicked, vis, scale, prev),
{
}

} // verus!
