use std::cell::Cell;

use scene2d::primitives::{
    polygon_outline_points, EllipseData, GeometricPrimitive, LineData, PathData, PathSegment,
    Point, RectangleData, StyledGeometricPrimitive, Styles, TextData,
};
use scene2d::{paint, tick, PaintOp, Painter, RecordingPainter, StateContainer};

struct MockPainter {}

impl Painter for MockPainter {
    // `ops` is the ghost model of the surface; it is never called at run
    // time.
    fn ops(&self) -> vstd::seq::Seq<scene2d::PaintOpView> {
        unreachable!()
    }

    fn clear(&mut self) {}
    fn draw_rect(&mut self, _data: &RectangleData, _styles: &Styles) {}
    fn draw_line(&mut self, _data: &LineData, _styles: &Styles) {}
    fn draw_ellipse(&mut self, _data: &EllipseData, _styles: &Styles) {}
    fn draw_text(&mut self, _data: &TextData, _styles: &Styles) {}
    fn draw_polyline(&mut self, _points: &Vec<Point>, _styles: &Styles) {}
    fn draw_polygon(&mut self, _points: &Vec<Point>, _styles: &Styles) {}
    fn draw_path(&mut self, _data: &PathData, _styles: &Styles) {}
}

struct MockStateContainer {}

impl StateContainer for MockStateContainer {
    // `scene_at` is the ghost model of the source; it is never called at
    // run time.
    fn scene_at(&self, _timestamp_millis: u64) -> vstd::seq::Seq<scene2d::primitives::StyledPrimitiveView> {
        unreachable!()
    }

    fn update(&self, _timestamp_millis: u64) -> Vec<StyledGeometricPrimitive> {
        vec![]
    }
}

#[test]
fn test_rainbow_unicorn() {
    let mock_painter = &mut MockPainter {};
    let mock_state_container = MockStateContainer {};

    let timestamp_millis: u64 = 0;

    tick(timestamp_millis, &mock_state_container, mock_painter);
}

fn sample_scene() -> Vec<StyledGeometricPrimitive> {
    vec![
        StyledGeometricPrimitive {
            primitive: GeometricPrimitive::Rectangle {
                data: RectangleData { left: 0, top: 0, width: 10, height: 10, rx: 0, ry: 0 },
            },
            styles: Styles::Fill { color: "red".to_string() },
        },
        StyledGeometricPrimitive {
            primitive: GeometricPrimitive::Line {
                data: LineData { x1: 1, y1: 2, x2: 3, y2: 4 },
            },
            styles: Styles::Stroke { color: "blue".to_string(), width: 2 },
        },
        StyledGeometricPrimitive {
            primitive: GeometricPrimitive::Text {
                data: TextData {
                    x: 5,
                    y: 6,
                    text: "hi".to_string(),
                    font: "Serif".to_string(),
                },
            },
            styles: Styles::Fill { color: "black".to_string() },
        },
    ]
}

#[test]
fn paint_issues_clear_then_one_draw_per_primitive_in_order() {
    let mut painter = RecordingPainter::new();
    let scene = sample_scene();

    paint(&mut painter, &scene);

    assert_eq!(painter.operations.len(), 1 + scene.len());
    assert_eq!(painter.operations[0], PaintOp::Clear);
    assert_eq!(
        painter.operations[1],
        PaintOp::Rectangle {
            data: RectangleData { left: 0, top: 0, width: 10, height: 10, rx: 0, ry: 0 },
            styles: Styles::Fill { color: "red".to_string() },
        }
    );
    assert_eq!(
        painter.operations[2],
        PaintOp::Line {
            data: LineData { x1: 1, y1: 2, x2: 3, y2: 4 },
            styles: Styles::Stroke { color: "blue".to_string(), width: 2 },
        }
    );
    assert_eq!(
        painter.operations[3],
        PaintOp::Text {
            data: TextData { x: 5, y: 6, text: "hi".to_string(), font: "Serif".to_string() },
            styles: Styles::Fill { color: "black".to_string() },
        }
    );
}

#[test]
fn paint_empty_scene_issues_exactly_one_clear() {
    let mut painter = RecordingPainter::new();
    let scene: Vec<StyledGeometricPrimitive> = vec![];

    paint(&mut painter, &scene);

    assert_eq!(painter.operations, vec![PaintOp::Clear]);
}

#[test]
fn repainting_replaces_prior_content_record() {
    let mut painter = RecordingPainter::new();
    paint(&mut painter, &sample_scene());
    paint(&mut painter, &vec![]);

    // The second frame begins with a clear: everything visible afterwards
    // comes from the second scene alone.
    assert_eq!(painter.operations.len(), (1 + sample_scene().len()) + 1);
    assert_eq!(painter.operations[painter.operations.len() - 1], PaintOp::Clear);
}

#[test]
fn polygon_outline_returns_to_first_point_and_polyline_does_not() {
    let points = vec![Point { x: 0, y: 0 }, Point { x: 10, y: 0 }, Point { x: 5, y: 8 }];

    let outline = polygon_outline_points(&points);
    assert_eq!(outline.len(), points.len() + 1);
    assert_eq!(outline[0], points[0]);
    assert_eq!(outline[1], points[1]);
    assert_eq!(outline[2], points[2]);
    assert_eq!(outline[3], points[0]);

    let mut painter = RecordingPainter::new();
    let scene = vec![
        StyledGeometricPrimitive {
            primitive: GeometricPrimitive::Polygon { points: points.clone() },
            styles: Styles::Fill { color: "red".to_string() },
        },
        StyledGeometricPrimitive {
            primitive: GeometricPrimitive::Polyline { points: points.clone() },
            styles: Styles::Stroke { color: "red".to_string(), width: 1 },
        },
    ];
    paint(&mut painter, &scene);

    // The same points dispatch to the closed and to the open operation.
    assert_eq!(
        painter.operations[1],
        PaintOp::Polygon {
            points: points.clone(),
            styles: Styles::Fill { color: "red".to_string() },
        }
    );
    assert_eq!(
        painter.operations[2],
        PaintOp::Polyline {
            points: points.clone(),
            styles: Styles::Stroke { color: "red".to_string(), width: 1 },
        }
    );
}

#[test]
fn paint_dispatches_every_primitive_kind() {
    let mut painter = RecordingPainter::new();
    let path = PathData {
        start_x: 1,
        start_y: 2,
        segments: vec![PathSegment::LineTo { to_x: 3, to_y: 4 }],
    };
    let scene = vec![
        StyledGeometricPrimitive {
            primitive: GeometricPrimitive::Ellipse {
                data: EllipseData { cx: 1, cy: 2, rx: 3, ry: 4 },
            },
            styles: Styles::Fill { color: "a".to_string() },
        },
        StyledGeometricPrimitive {
            primitive: GeometricPrimitive::RuPath {
                data: PathData {
                    start_x: 1,
                    start_y: 2,
                    segments: vec![PathSegment::LineTo { to_x: 3, to_y: 4 }],
                },
            },
            styles: Styles::Stroke { color: "b".to_string(), width: 5 },
        },
    ];
    paint(&mut painter, &scene);

    assert_eq!(painter.operations.len(), 3);
    assert_eq!(
        painter.operations[1],
        PaintOp::Ellipse {
            data: EllipseData { cx: 1, cy: 2, rx: 3, ry: 4 },
            styles: Styles::Fill { color: "a".to_string() },
        }
    );
    assert_eq!(
        painter.operations[2],
        PaintOp::Path {
            data: path,
            styles: Styles::Stroke { color: "b".to_string(), width: 5 },
        }
    );
}

struct CountingSource {
    calls: Cell<u64>,
}

impl StateContainer for CountingSource {
    // `scene_at` is the ghost model of the source; it is never called at
    // run time.
    fn scene_at(&self, _timestamp_millis: u64) -> vstd::seq::Seq<scene2d::primitives::StyledPrimitiveView> {
        unreachable!()
    }

    fn update(&self, timestamp_millis: u64) -> Vec<StyledGeometricPrimitive> {
        self.calls.set(self.calls.get() + 1);
        vec![
            StyledGeometricPrimitive {
                primitive: GeometricPrimitive::Line {
                    data: LineData { x1: 0, y1: 0, x2: timestamp_millis as i64, y2: 0 },
                },
                styles: Styles::Stroke { color: "gray".to_string(), width: 1 },
            },
        ]
    }
}

#[test]
fn tick_queries_the_source_once_and_forwards_its_scene_unchanged() {
    let source = CountingSource { calls: Cell::new(0) };
    let mut painter = RecordingPainter::new();

    tick(42, &source, &mut painter);

    assert_eq!(source.calls.get(), 1);
    assert_eq!(
        painter.operations,
        vec![
            PaintOp::Clear,
            PaintOp::Line {
                data: LineData { x1: 0, y1: 0, x2: 42, y2: 0 },
                styles: Styles::Stroke { color: "gray".to_string(), width: 1 },
            },
        ]
    );
}
