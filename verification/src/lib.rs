//! A declarative scene description and per-frame render-dispatch layer for
//! animated two-dimensional vector graphics.
//!
//! A caller describes what to draw as an ordered list of styled geometric
//! primitives; a backend says how to draw by implementing the [`Painter`]
//! contract. The dispatcher [`paint`] clears the surface and issues one draw
//! operation per primitive, in list order, and the frame driver [`tick`]
//! produces one frame from a timestamp and a caller-supplied
//! [`StateContainer`]. The contracts describe every frame as the exact
//! sequence of operations issued on the surface.

use vstd::prelude::*;

pub mod primitives;
pub mod timelines;

use primitives::{
    EllipseData, GeometricPrimitive, LineData, PathData, PathDataView, Point, PrimitiveView,
    RectangleData, StyledGeometricPrimitive, StyledPrimitiveView, Styles, StylesView, TextData,
    TextDataView,
};

verus! {

/// One operation issued on a drawing surface, with the data it received.
#[derive(Debug)]
#[allow(inconsistent_fields)]
pub enum PaintOp {
    Clear,
    Rectangle { data: RectangleData, styles: Styles },
    Line { data: LineData, styles: Styles },
    Ellipse { data: EllipseData, styles: Styles },
    Text { data: TextData, styles: Styles },
    Polyline { points: Vec<Point>, styles: Styles },
    Polygon { points: Vec<Point>, styles: Styles },
    Path { data: PathData, styles: Styles },
}

/// Ghost view of [`PaintOp`]: the same cases over sequences.
#[allow(inconsistent_fields)]
pub enum PaintOpView {
    Clear,
    Rectangle { data: RectangleData, styles: StylesView },
    Line { data: LineData, styles: StylesView },
    Ellipse { data: EllipseData, styles: StylesView },
    Text { data: TextDataView, styles: StylesView },
    Polyline { points: Seq<Point>, styles: StylesView },
    Polygon { points: Seq<Point>, styles: StylesView },
    Path { data: PathDataView, styles: StylesView },
}

impl View for PaintOp {
    type V = PaintOpView;

    open spec fn view(&self) -> PaintOpView {
        match self {
            PaintOp::Clear => PaintOpView::Clear,
            PaintOp::Rectangle { data, styles } => PaintOpView::Rectangle {
                data: *data,
                styles: styles@,
            },
            PaintOp::Line { data, styles } => PaintOpView::Line { data: *data, styles: styles@ },
            PaintOp::Ellipse { data, styles } => PaintOpView::Ellipse {
                data: *data,
                styles: styles@,
            },
            PaintOp::Text { data, styles } => PaintOpView::Text { data: data@, styles: styles@ },
            PaintOp::Polyline { points, styles } => PaintOpView::Polyline {
                points: points@,
                styles: styles@,
            },
            PaintOp::Polygon { points, styles } => PaintOpView::Polygon {
                points: points@,
                styles: styles@,
            },
            PaintOp::Path { data, styles } => PaintOpView::Path { data: data@, styles: styles@ },
        }
    }
}

impl PartialEq for PaintOp {
    /// Equality is structural: the same operation with the same data and
    /// style.
    fn eq(&self, other: &Self) -> (r: bool) {
        match (self, other) {
            (PaintOp::Clear, PaintOp::Clear) => true,
            (
                PaintOp::Rectangle { data: d1, styles: s1 },
                PaintOp::Rectangle { data: d2, styles: s2 },
            ) => *d1 == *d2 && *s1 == *s2,
            (PaintOp::Line { data: d1, styles: s1 }, PaintOp::Line { data: d2, styles: s2 }) => *d1
                == *d2 && *s1 == *s2,
            (
                PaintOp::Ellipse { data: d1, styles: s1 },
                PaintOp::Ellipse { data: d2, styles: s2 },
            ) => *d1 == *d2 && *s1 == *s2,
            (PaintOp::Text { data: d1, styles: s1 }, PaintOp::Text { data: d2, styles: s2 }) => *d1
                == *d2 && *s1 == *s2,
            (
                PaintOp::Polyline { points: p1, styles: s1 },
                PaintOp::Polyline { points: p2, styles: s2 },
            ) => primitives::point_lists_equal(p1, p2) && *s1 == *s2,
            (
                PaintOp::Polygon { points: p1, styles: s1 },
                PaintOp::Polygon { points: p2, styles: s2 },
            ) => primitives::point_lists_equal(p1, p2) && *s1 == *s2,
            (PaintOp::Path { data: d1, styles: s1 }, PaintOp::Path { data: d2, styles: s2 }) => *d1
                == *d2 && *s1 == *s2,
            _ => false,
        }
    }
}

impl vstd::std_specs::cmp::PartialEqSpecImpl for PaintOp {
    open spec fn obeys_eq_spec() -> bool {
        true
    }

    open spec fn eq_spec(&self, other: &Self) -> bool {
        self@ == other@
    }
}

/// The one draw operation that dispatching a styled primitive issues.
pub open spec fn draw_op_of(p: StyledPrimitiveView) -> PaintOpView {
    match p.primitive {
        PrimitiveView::Rectangle { data } => PaintOpView::Rectangle { data, styles: p.styles },
        PrimitiveView::Line { data } => PaintOpView::Line { data, styles: p.styles },
        PrimitiveView::Ellipse { data } => PaintOpView::Ellipse { data, styles: p.styles },
        PrimitiveView::Text { data } => PaintOpView::Text { data, styles: p.styles },
        PrimitiveView::Polyline { points } => PaintOpView::Polyline { points, styles: p.styles },
        PrimitiveView::Polygon { points } => PaintOpView::Polygon { points, styles: p.styles },
        PrimitiveView::RuPath { data } => PaintOpView::Path { data, styles: p.styles },
    }
}

/// The view of a scene: each styled primitive of the list, in order.
pub open spec fn scene_view(prims: Seq<StyledGeometricPrimitive>) -> Seq<StyledPrimitiveView> {
    prims.map_values(|p: StyledGeometricPrimitive| p@)
}

/// The draw operations that dispatching a scene issues: one per styled
/// primitive, in scene order.
pub open spec fn draw_ops_of(scene: Seq<StyledPrimitiveView>) -> Seq<PaintOpView> {
    scene.map_values(|p: StyledPrimitiveView| draw_op_of(p))
}

/// The operations one full repaint of `scene` issues on a surface: a
/// clear, then one draw per primitive in scene order.
pub open spec fn frame_ops_of(scene: Seq<StyledPrimitiveView>) -> Seq<PaintOpView> {
    seq![PaintOpView::Clear] + draw_ops_of(scene)
}

/// One full repaint issues exactly `1 + n` operations for a scene of `n`
/// primitives: first the clear, then the draw of each primitive, in scene
/// order.
pub proof fn lemma_frame_op_count(scene: Seq<StyledPrimitiveView>)
    ensures
        frame_ops_of(scene).len() == 1 + scene.len(),
        frame_ops_of(scene)[0] == PaintOpView::Clear,
        forall|i: int|
            0 <= i < scene.len() ==> frame_ops_of(scene)[i + 1] == draw_op_of(scene[i]),
{
}

/// The capability contract a drawing backend implements: one operation
/// per primitive kind plus a clear.
///
/// The contract models the surface by the ordered sequence of operations
/// issued on it, oldest first: each method appends exactly its own
/// operation, with the data and style it received, and does nothing else
/// to the record. What the operations mean visually is the backend's
/// side: a clear removes all prior visible content, a draw renders its
/// primitive with its style applied (a fill paints the interior, a
/// stroke outlines with the given width, both supported for every kind).
pub trait Painter {
    /// The operations issued on this surface so far, oldest first.
    spec fn ops(&self) -> Seq<PaintOpView>;

    /// Removes all prior visible content from the surface.
    fn clear(&mut self)
        ensures
            final(self).ops() == old(self).ops().push(PaintOpView::Clear),
    ;

    /// Draws a rectangle, with rounded corners where a radius is
    /// positive.
    fn draw_rect(&mut self, data: &RectangleData, styles: &Styles)
        ensures
            final(self).ops() == old(self).ops().push(
                PaintOpView::Rectangle { data: *data, styles: styles@ },
            ),
    ;

    /// Draws a straight line segment.
    fn draw_line(&mut self, data: &LineData, styles: &Styles)
        ensures
            final(self).ops() == old(self).ops().push(
                PaintOpView::Line { data: *data, styles: styles@ },
            ),
    ;

    /// Draws an ellipse.
    fn draw_ellipse(&mut self, data: &EllipseData, styles: &Styles)
        ensures
            final(self).ops() == old(self).ops().push(
                PaintOpView::Ellipse { data: *data, styles: styles@ },
            ),
    ;

    /// Draws a run of text anchored at its position.
    fn draw_text(&mut self, data: &TextData, styles: &Styles)
        ensures
            final(self).ops() == old(self).ops().push(
                PaintOpView::Text { data: data@, styles: styles@ },
            ),
    ;

    /// Draws an open polyline through the points in order.
    fn draw_polyline(&mut self, points: &Vec<Point>, styles: &Styles)
        ensures
            final(self).ops() == old(self).ops().push(
                PaintOpView::Polyline { points: points@, styles: styles@ },
            ),
    ;

    /// Draws a closed polygon: the points in order, then back to the
    /// first.
    fn draw_polygon(&mut self, points: &Vec<Point>, styles: &Styles)
        ensures
            final(self).ops() == old(self).ops().push(
                PaintOpView::Polygon { points: points@, styles: styles@ },
            ),
    ;

    /// Draws a general path from its start point through its segments.
    fn draw_path(&mut self, data: &PathData, styles: &Styles)
        ensures
            final(self).ops() == old(self).ops().push(
                PaintOpView::Path { data: data@, styles: styles@ },
            ),
    ;
}

/// Repaints the surface from scratch: one clear, then exactly one draw
/// operation per primitive, in list order. An empty list clears and
/// draws nothing.
pub fn paint<T: Painter>(painter: &mut T, graphics_primitives: &Vec<StyledGeometricPrimitive>)
    ensures
        final(painter).ops() == old(painter).ops() + frame_ops_of(
            scene_view(graphics_primitives@),
        ),
{
    painter.clear();
    let mut i: usize = 0;
    while i < graphics_primitives.len()
        invariant
            i <= graphics_primitives.len(),
            painter.ops() == old(painter).ops() + frame_ops_of(
                scene_view(graphics_primitives@.take(i as int)),
            ),
        decreases graphics_primitives.len() - i,
    {
        let gp = &graphics_primitives[i];
        match &gp.primitive {
            GeometricPrimitive::Rectangle { data } => {
                painter.draw_rect(data, &gp.styles);
            },
            GeometricPrimitive::Line { data } => {
                painter.draw_line(data, &gp.styles);
            },
            GeometricPrimitive::Ellipse { data } => {
                painter.draw_ellipse(data, &gp.styles);
            },
            GeometricPrimitive::Text { data } => {
                painter.draw_text(data, &gp.styles);
            },
            GeometricPrimitive::Polyline { points } => {
                painter.draw_polyline(points, &gp.styles);
            },
            GeometricPrimitive::Polygon { points } => {
                painter.draw_polygon(points, &gp.styles);
            },
            GeometricPrimitive::RuPath { data } => {
                painter.draw_path(data, &gp.styles);
            },
        }
        proof {
            let prims = graphics_primitives@;
            assert(prims.take(i + 1) =~= prims.take(i as int).push(prims[i as int]));
            assert(scene_view(prims.take(i + 1)) =~= scene_view(prims.take(i as int)).push(
                prims[i as int]@,
            ));
            assert(draw_ops_of(scene_view(prims.take(i + 1))) =~= draw_ops_of(
                scene_view(prims.take(i as int)),
            ).push(draw_op_of(prims[i as int]@)));
            assert(painter.ops() =~= old(painter).ops() + frame_ops_of(
                scene_view(prims.take(i + 1)),
            ));
        }
        i += 1;
    }
    proof {
        assert(graphics_primitives@.take(graphics_primitives@.len() as int)
            =~= graphics_primitives@);
    }
}

/// A surface that renders nothing and records every operation issued on
/// it, in order. It witnesses that the [`Painter`] contract can be met,
/// and lets a caller inspect exactly what a frame asked of the surface.
pub struct RecordingPainter {
    pub operations: Vec<PaintOp>,
}

impl RecordingPainter {
    /// A fresh surface with no operations recorded.
    pub fn new() -> (r: RecordingPainter)
        ensures
            r.ops() == Seq::<PaintOpView>::empty(),
    {
        let r = RecordingPainter { operations: Vec::new() };
        proof {
            assert(r.operations@.map_values(|op: PaintOp| op@) =~= Seq::<PaintOpView>::empty());
        }
        r
    }
}

impl Painter for RecordingPainter {
    /// The views of the recorded operations, oldest first.
    open spec fn ops(&self) -> Seq<PaintOpView> {
        self.operations@.map_values(|op: PaintOp| op@)
    }

    fn clear(&mut self) {
        self.operations.push(PaintOp::Clear);
        proof {
            assert(self.ops() =~= old(self).ops().push(PaintOpView::Clear));
        }
    }

    fn draw_rect(&mut self, data: &RectangleData, styles: &Styles) {
        self.operations.push(PaintOp::Rectangle { data: *data, styles: styles.clone() });
        proof {
            assert(self.ops() =~= old(self).ops().push(
                PaintOpView::Rectangle { data: *data, styles: styles@ },
            ));
        }
    }

    fn draw_line(&mut self, data: &LineData, styles: &Styles) {
        self.operations.push(PaintOp::Line { data: *data, styles: styles.clone() });
        proof {
            assert(self.ops() =~= old(self).ops().push(
                PaintOpView::Line { data: *data, styles: styles@ },
            ));
        }
    }

    fn draw_ellipse(&mut self, data: &EllipseData, styles: &Styles) {
        self.operations.push(PaintOp::Ellipse { data: *data, styles: styles.clone() });
        proof {
            assert(self.ops() =~= old(self).ops().push(
                PaintOpView::Ellipse { data: *data, styles: styles@ },
            ));
        }
    }

    fn draw_text(&mut self, data: &TextData, styles: &Styles) {
        self.operations.push(PaintOp::Text { data: data.clone(), styles: styles.clone() });
        proof {
            assert(self.ops() =~= old(self).ops().push(
                PaintOpView::Text { data: data@, styles: styles@ },
            ));
        }
    }

    fn draw_polyline(&mut self, points: &Vec<Point>, styles: &Styles) {
        self.operations.push(
            PaintOp::Polyline { points: primitives::copy_points(points), styles: styles.clone() },
        );
        proof {
            assert(self.ops() =~= old(self).ops().push(
                PaintOpView::Polyline { points: points@, styles: styles@ },
            ));
        }
    }

    fn draw_polygon(&mut self, points: &Vec<Point>, styles: &Styles) {
        self.operations.push(
            PaintOp::Polygon { points: primitives::copy_points(points), styles: styles.clone() },
        );
        proof {
            assert(self.ops() =~= old(self).ops().push(
                PaintOpView::Polygon { points: points@, styles: styles@ },
            ));
        }
    }

    fn draw_path(&mut self, data: &PathData, styles: &Styles) {
        self.operations.push(PaintOp::Path { data: data.clone(), styles: styles.clone() });
        proof {
            assert(self.ops() =~= old(self).ops().push(
                PaintOpView::Path { data: data@, styles: styles@ },
            ));
        }
    }
}

/// The capability contract a caller's animation source implements: the
/// scene to show at a given timestamp.
pub trait StateContainer {
    /// The scene this source shows at a timestamp.
    spec fn scene_at(&self, timestamp_millis: u64) -> Seq<StyledPrimitiveView>;

    /// Returns the scene to show at the timestamp: the styled primitives
    /// in paint order.
    fn update(&self, timestamp_millis: u64) -> (r: Vec<StyledGeometricPrimitive>)
        ensures
            scene_view(r@) == self.scene_at(timestamp_millis),
    ;
}

/// Drives one frame: queries the state container for the scene at the
/// timestamp, then repaints the surface with exactly that scene. The
/// driver itself keeps no state between frames.
pub fn tick<T: StateContainer, P: Painter>(
    timestamp_millis: u64,
    state_container: &T,
    painter: &mut P,
)
    ensures
        final(painter).ops() == old(painter).ops() + frame_ops_of(
            state_container.scene_at(timestamp_millis),
        ),
{
    let new_primitives = state_container.update(timestamp_millis);
    paint(painter, &new_primitives);
}

} // verus!
