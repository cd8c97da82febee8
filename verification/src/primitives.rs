//! The geometric primitive and styling data model: pure values with
//! structural equality and no behavior of their own.
//!
//! Coordinates and lengths are whole surface units held as `i64`. Types
//! whose fields are all plain numbers are their own mathematical model;
//! the ones that hold a `String` or a `Vec` have a ghost view (`...View`)
//! over `Seq`, and the contracts of this crate speak of those views.

use vstd::prelude::*;

verus! {

/// A coordinate pair in surface units.
#[derive(Clone, Copy, Debug, PartialEq, Eq, Structural)]
pub struct Point {
    pub x: i64,
    pub y: i64,
}

/// An axis-aligned rectangle with corner-rounding radii; `rx == 0` and
/// `ry == 0` mean square corners.
#[derive(Clone, Copy, Debug, PartialEq, Eq, Structural)]
pub struct RectangleData {
    pub left: i64,
    pub top: i64,
    pub width: i64,
    pub height: i64,
    pub rx: i64,
    pub ry: i64,
}

/// A straight line segment between two points.
#[derive(Clone, Copy, Debug, PartialEq, Eq, Structural)]
pub struct LineData {
    pub x1: i64,
    pub y1: i64,
    pub x2: i64,
    pub y2: i64,
}

/// An axis-aligned ellipse given by its center and radii.
#[derive(Clone, Copy, Debug, PartialEq, Eq, Structural)]
pub struct EllipseData {
    pub cx: i64,
    pub cy: i64,
    pub rx: i64,
    pub ry: i64,
}

/// A run of text anchored at `(x, y)`; the font is a backend-interpreted
/// descriptor string.
#[derive(Debug)]
pub struct TextData {
    pub x: i64,
    pub y: i64,
    pub text: String,
    pub font: String,
}

/// Ghost view of [`TextData`]: the same fields with the strings as
/// character sequences.
pub struct TextDataView {
    pub x: i64,
    pub y: i64,
    pub text: Seq<char>,
    pub font: Seq<char>,
}

impl View for TextData {
    type V = TextDataView;

    open spec fn view(&self) -> TextDataView {
        TextDataView { x: self.x, y: self.y, text: self.text@, font: self.font@ }
    }
}

/// One step of a path, relative to an implicit current point that each
/// step moves to its terminal `(to_x, to_y)`.
#[derive(Clone, Copy, Debug, PartialEq, Eq, Structural)]
pub enum PathSegment {
    MoveTo { to_x: i64, to_y: i64 },
    LineTo { to_x: i64, to_y: i64 },
    BezierCurveTo { cp1_x: i64, cp1_y: i64, cp2_x: i64, cp2_y: i64, to_x: i64, to_y: i64 },
    QuadraticCurveTo { cp_x: i64, cp_y: i64, to_x: i64, to_y: i64 },
}

/// A general path: a start point followed by an ordered run of segments.
#[derive(Debug)]
pub struct PathData {
    pub start_x: i64,
    pub start_y: i64,
    pub segments: Vec<PathSegment>,
}

/// Ghost view of [`PathData`]: the segments as a sequence.
pub struct PathDataView {
    pub start_x: i64,
    pub start_y: i64,
    pub segments: Seq<PathSegment>,
}

impl View for PathData {
    type V = PathDataView;

    open spec fn view(&self) -> PathDataView {
        PathDataView { start_x: self.start_x, start_y: self.start_y, segments: self.segments@ }
    }
}

/// The one visual style of a primitive: a filled interior or an outlined
/// stroke, never both. Colors are opaque tokens that the backend
/// resolves.
#[derive(Debug)]
pub enum Styles {
    Fill { color: String },
    Stroke { color: String, width: i64 },
}

/// Ghost view of [`Styles`]: the same cases with the color as a character
/// sequence.
pub enum StylesView {
    Fill { color: Seq<char> },
    Stroke { color: Seq<char>, width: i64 },
}

impl View for Styles {
    type V = StylesView;

    open spec fn view(&self) -> StylesView {
        match self {
            Styles::Fill { color } => StylesView::Fill { color: color@ },
            Styles::Stroke { color, width } => StylesView::Stroke {
                color: color@,
                width: *width,
            },
        }
    }
}

/// A coordinate transform. Declared as part of the data model but not
/// consumed by the dispatch contract: a reserved extension point.
#[derive(Clone, Copy, Debug, PartialEq, Eq, Structural)]
pub enum Transform {
    Translate { x: i64, y: i64 },
    Rotate { a: i64, x: i64, y: i64 },
    Scale { x: i64, y: i64 },
    Skew { x: i64, y: i64 },
}

/// One drawable geometric shape. A polyline is open; a polygon is closed
/// by implicitly repeating its first point at the end.
#[derive(Debug)]
#[allow(inconsistent_fields)]
pub enum GeometricPrimitive {
    Rectangle { data: RectangleData },
    Line { data: LineData },
    Ellipse { data: EllipseData },
    Text { data: TextData },
    Polyline { points: Vec<Point> },
    Polygon { points: Vec<Point> },
    RuPath { data: PathData },
}

/// Ghost view of [`GeometricPrimitive`]: the same cases over sequences.
#[allow(inconsistent_fields)]
pub enum PrimitiveView {
    Rectangle { data: RectangleData },
    Line { data: LineData },
    Ellipse { data: EllipseData },
    Text { data: TextDataView },
    Polyline { points: Seq<Point> },
    Polygon { points: Seq<Point> },
    RuPath { data: PathDataView },
}

impl View for GeometricPrimitive {
    type V = PrimitiveView;

    open spec fn view(&self) -> PrimitiveView {
        match self {
            GeometricPrimitive::Rectangle { data } => PrimitiveView::Rectangle { data: *data },
            GeometricPrimitive::Line { data } => PrimitiveView::Line { data: *data },
            GeometricPrimitive::Ellipse { data } => PrimitiveView::Ellipse { data: *data },
            GeometricPrimitive::Text { data } => PrimitiveView::Text { data: data@ },
            GeometricPrimitive::Polyline { points } => PrimitiveView::Polyline { points: points@ },
            GeometricPrimitive::Polygon { points } => PrimitiveView::Polygon { points: points@ },
            GeometricPrimitive::RuPath { data } => PrimitiveView::RuPath { data: data@ },
        }
    }
}

/// A shape paired with exactly one style: the unit of drawing. A frame's
/// scene is an ordered sequence of these; later entries paint over
/// earlier ones.
#[derive(Debug)]
pub struct StyledGeometricPrimitive {
    pub primitive: GeometricPrimitive,
    pub styles: Styles,
}

/// Ghost view of [`StyledGeometricPrimitive`].
pub struct StyledPrimitiveView {
    pub primitive: PrimitiveView,
    pub styles: StylesView,
}

impl View for StyledGeometricPrimitive {
    type V = StyledPrimitiveView;

    open spec fn view(&self) -> StyledPrimitiveView {
        StyledPrimitiveView { primitive: self.primitive@, styles: self.styles@ }
    }
}

/// Decides whether two point lists hold the same points in the same
/// order.
pub(crate) fn point_lists_equal(a: &Vec<Point>, b: &Vec<Point>) -> (r: bool)
    ensures
        r == (a@ == b@),
{
    if a.len() != b.len() {
        return false;
    }
    let mut i: usize = 0;
    while i < a.len()
        invariant
            i <= a.len(),
            a.len() == b.len(),
            forall|j: int| 0 <= j < i ==> a@[j] == b@[j],
        decreases a.len() - i,
    {
        if a[i] != b[i] {
            return false;
        }
        i += 1;
    }
    proof {
        assert(a@ =~= b@);
    }
    true
}

/// Decides whether two segment lists hold the same segments in the same
/// order.
fn segment_lists_equal(a: &Vec<PathSegment>, b: &Vec<PathSegment>) -> (r: bool)
    ensures
        r == (a@ == b@),
{
    if a.len() != b.len() {
        return false;
    }
    let mut i: usize = 0;
    while i < a.len()
        invariant
            i <= a.len(),
            a.len() == b.len(),
            forall|j: int| 0 <= j < i ==> a@[j] == b@[j],
        decreases a.len() - i,
    {
        if a[i] != b[i] {
            return false;
        }
        i += 1;
    }
    proof {
        assert(a@ =~= b@);
    }
    true
}

impl PartialEq for TextData {
    /// Equality is structural: every field must match.
    fn eq(&self, other: &Self) -> (r: bool) {
        self.x == other.x && self.y == other.y && self.text == other.text && self.font
            == other.font
    }
}

impl vstd::std_specs::cmp::PartialEqSpecImpl for TextData {
    open spec fn obeys_eq_spec() -> bool {
        true
    }

    open spec fn eq_spec(&self, other: &Self) -> bool {
        self@ == other@
    }
}

impl PartialEq for PathData {
    /// Equality is structural: every field must match, the segment lists
    /// element by element.
    fn eq(&self, other: &Self) -> (r: bool) {
        self.start_x == other.start_x && self.start_y == other.start_y && segment_lists_equal(
            &self.segments,
            &other.segments,
        )
    }
}

impl vstd::std_specs::cmp::PartialEqSpecImpl for PathData {
    open spec fn obeys_eq_spec() -> bool {
        true
    }

    open spec fn eq_spec(&self, other: &Self) -> bool {
        self@ == other@
    }
}

impl PartialEq for Styles {
    /// Equality is structural: the same case with the same fields.
    fn eq(&self, other: &Self) -> (r: bool) {
        match (self, other) {
            (Styles::Fill { color: c1 }, Styles::Fill { color: c2 }) => *c1 == *c2,
            (
                Styles::Stroke { color: c1, width: w1 },
                Styles::Stroke { color: c2, width: w2 },
            ) => *c1 == *c2 && *w1 == *w2,
            _ => false,
        }
    }
}

impl vstd::std_specs::cmp::PartialEqSpecImpl for Styles {
    open spec fn obeys_eq_spec() -> bool {
        true
    }

    open spec fn eq_spec(&self, other: &Self) -> bool {
        self@ == other@
    }
}

impl PartialEq for GeometricPrimitive {
    /// Equality is structural: the same shape case with the same fields.
    fn eq(&self, other: &Self) -> (r: bool) {
        match (self, other) {
            (
                GeometricPrimitive::Rectangle { data: d1 },
                GeometricPrimitive::Rectangle { data: d2 },
            ) => *d1 == *d2,
            (GeometricPrimitive::Line { data: d1 }, GeometricPrimitive::Line { data: d2 }) => *d1
                == *d2,
            (
                GeometricPrimitive::Ellipse { data: d1 },
                GeometricPrimitive::Ellipse { data: d2 },
            ) => *d1 == *d2,
            (GeometricPrimitive::Text { data: d1 }, GeometricPrimitive::Text { data: d2 }) => *d1
                == *d2,
            (
                GeometricPrimitive::Polyline { points: p1 },
                GeometricPrimitive::Polyline { points: p2 },
            ) => point_lists_equal(p1, p2),
            (
                GeometricPrimitive::Polygon { points: p1 },
                GeometricPrimitive::Polygon { points: p2 },
            ) => point_lists_equal(p1, p2),
            (GeometricPrimitive::RuPath { data: d1 }, GeometricPrimitive::RuPath { data: d2 }) => *d1
                == *d2,
            _ => false,
        }
    }
}

impl vstd::std_specs::cmp::PartialEqSpecImpl for GeometricPrimitive {
    open spec fn obeys_eq_spec() -> bool {
        true
    }

    open spec fn eq_spec(&self, other: &Self) -> bool {
        self@ == other@
    }
}

impl PartialEq for StyledGeometricPrimitive {
    /// Equality is structural: the shapes must match and the styles must
    /// match.
    fn eq(&self, other: &Self) -> (r: bool) {
        self.primitive == other.primitive && self.styles == other.styles
    }
}

impl vstd::std_specs::cmp::PartialEqSpecImpl for StyledGeometricPrimitive {
    open spec fn obeys_eq_spec() -> bool {
        true
    }

    open spec fn eq_spec(&self, other: &Self) -> bool {
        self@ == other@
    }
}

impl Clone for TextData {
    /// The clone is equal to the original.
    fn clone(&self) -> (r: Self)
        ensures
            r@ == self@,
    {
        TextData { x: self.x, y: self.y, text: self.text.clone(), font: self.font.clone() }
    }
}

impl Clone for PathData {
    /// The clone is equal to the original.
    fn clone(&self) -> (r: Self)
        ensures
            r@ == self@,
    {
        PathData {
            start_x: self.start_x,
            start_y: self.start_y,
            segments: copy_segments(&self.segments),
        }
    }
}

impl Clone for Styles {
    /// The clone is equal to the original.
    fn clone(&self) -> (r: Self)
        ensures
            r@ == self@,
    {
        match self {
            Styles::Fill { color } => Styles::Fill { color: color.clone() },
            Styles::Stroke { color, width } => Styles::Stroke {
                color: color.clone(),
                width: *width,
            },
        }
    }
}

/// Returns a fresh point list holding the same points in the same order.
pub(crate) fn copy_points(points: &Vec<Point>) -> (r: Vec<Point>)
    ensures
        r@ == points@,
{
    let mut r: Vec<Point> = Vec::new();
    let mut i: usize = 0;
    while i < points.len()
        invariant
            i <= points.len(),
            r@ =~= points@.take(i as int),
        decreases points.len() - i,
    {
        r.push(points[i]);
        i += 1;
    }
    proof {
        assert(r@ =~= points@);
    }
    r
}

/// The vertices a renderer visits for an open polyline: the points as
/// given, with no implicit closing edge.
pub open spec fn polyline_outline(points: Seq<Point>) -> Seq<Point> {
    points
}

/// The vertices a renderer visits for a closed polygon: the points as
/// given, then the first point again to close the outline.
pub open spec fn polygon_outline(points: Seq<Point>) -> Seq<Point> {
    if points.len() == 0 {
        points
    } else {
        points.push(points[0])
    }
}

/// A polygon's outline visits all of its points in order and then
/// returns to the first; a polyline with the same points does not.
pub proof fn lemma_polygon_outline_closed(points: Seq<Point>)
    requires
        points.len() >= 1,
    ensures
        polygon_outline(points).len() == points.len() + 1,
        forall|i: int| 0 <= i < points.len() ==> polygon_outline(points)[i] == points[i],
        polygon_outline(points).last() == points[0],
        polyline_outline(points) == points,
{
}

/// Builds the closed outline of a polygon: its points in order, then the
/// first point again. The standard construction a backend may use to
/// implement polygon drawing on a path-based surface.
pub fn polygon_outline_points(points: &Vec<Point>) -> (r: Vec<Point>)
    ensures
        r@ == polygon_outline(points@),
{
    let mut r = copy_points(points);
    if points.len() > 0 {
        let first = points[0];
        r.push(first);
    }
    r
}

/// Returns a fresh segment list holding the same segments in the same
/// order.
fn copy_segments(segments: &Vec<PathSegment>) -> (r: Vec<PathSegment>)
    ensures
        r@ == segments@,
{
    let mut r: Vec<PathSegment> = Vec::new();
    let mut i: usize = 0;
    while i < segments.len()
        invariant
            i <= segments.len(),
            r@ =~= segments@.take(i as int),
        decreases segments.len() - i,
    {
        r.push(segments[i]);
        i += 1;
    }
    proof {
        assert(r@ =~= segments@);
    }
    r
}

} // verus!
