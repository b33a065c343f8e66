use std::rc::Rc;

use vitruvia::geometry::Rect2D;
use vitruvia::geometry::Transform2D;
use vitruvia::geometry::Vec2D;
use vitruvia::paint::Color;
use vitruvia::paint::GradientStop;
use vitruvia::paint::Shadow;
use vitruvia::render::DrawError;
use vitruvia::render::Frame;
use vitruvia::scene::DrawOp;
use vitruvia::scene::Fill;
use vitruvia::scene::LinearGradient;
use vitruvia::scene::Object2D;
use vitruvia::scene::Path;
use vitruvia::scene::Segment;
use vitruvia::scene::StaticObject2D;
use vitruvia::scene::Still;
use vitruvia::scene::Stroke;
use vitruvia::scene::Texture;
use vitruvia::paint::StrokeCapType;
use vitruvia::paint::StrokeJoinType;

fn solid_fill(color: Color) -> Fill {
    Fill { content: Texture::Solid(color) }
}

fn rect_path(w: i64, h: i64, fill: Option<Fill>, stroke: Option<Stroke>) -> Path {
    Path {
        orientation: Transform2D::identity(),
        segments: vec![
            Segment::MoveTo(Vec2D { x: 0, y: 0 }),
            Segment::LineTo(Vec2D { x: w, y: 0 }),
            Segment::LineTo(Vec2D { x: w, y: h }),
            Segment::LineTo(Vec2D { x: 0, y: h }),
        ],
        closed: true,
        fill,
        stroke,
        shadow: None,
    }
}

fn sized_frame(w: i64, h: i64) -> Frame<Still> {
    let mut f: Frame<Still> = Frame::new(1);
    f.resize(Vec2D { x: w, y: h });
    f.set_viewport(Rect2D { position: Vec2D { x: 0, y: 0 }, size: Vec2D { x: w, y: h } });
    f
}

#[test]
fn single_black_rectangle_draws_one_fill() {
    let mut frame = sized_frame(200, 200);
    let path = rect_path(200, 200, Some(solid_fill(Color::black())), None);
    frame.add(Object2D::Static(StaticObject2D {
        orientation: Transform2D::identity(),
        content: vec![path],
    }));
    let ops = frame.draw_ops().unwrap();
    let expected = vec![
        DrawOp::SetTransform(Transform2D { a: 1, b: 0, c: 0, d: 1, e: 0, f: 0 }),
        DrawOp::Clear(Rect2D {
            position: Vec2D { x: 0, y: 0 },
            size: Vec2D { x: 200, y: 200 },
        }),
        DrawOp::Save,
        DrawOp::Restore,
        DrawOp::Save,
        DrawOp::ApplyTransform(Transform2D { a: 1, b: 0, c: 0, d: 1, e: 0, f: 0 }),
        DrawOp::BeginPath,
        DrawOp::MoveTo(Vec2D { x: 0, y: 0 }),
        DrawOp::MoveTo(Vec2D { x: 0, y: 0 }),
        DrawOp::LineTo(Vec2D { x: 200, y: 0 }),
        DrawOp::LineTo(Vec2D { x: 200, y: 200 }),
        DrawOp::LineTo(Vec2D { x: 0, y: 200 }),
        DrawOp::ClosePath,
        DrawOp::ClearShadow,
        DrawOp::SetFill(solid_fill(Color::black())),
        DrawOp::FillPath,
    ];
    assert_eq!(ops, expected);
    assert_eq!(ops.iter().filter(|op| matches!(op, DrawOp::FillPath)).count(), 1);
    assert!(!ops.iter().any(|op| matches!(op, DrawOp::StrokePath | DrawOp::SetStroke(_))));
    assert!(!ops.iter().any(|op| matches!(op, DrawOp::SetShadow(_))));
}

#[test]
fn empty_frame_draws_only_clear() {
    let frame = sized_frame(100, 100);
    let ops = frame.draw_ops().unwrap();
    assert_eq!(ops.len(), 3);
    assert!(matches!(ops[0], DrawOp::SetTransform(_)));
    assert!(matches!(ops[1], DrawOp::Clear(_)));
    assert!(matches!(ops[2], DrawOp::Save));
}

#[test]
fn later_object_paints_over_earlier() {
    let mut frame = sized_frame(100, 100);
    let red = Color::rgba(255, 0, 0, 255);
    let blue = Color::rgba(0, 0, 255, 255);
    frame.add(Object2D::Static(StaticObject2D {
        orientation: Transform2D::identity(),
        content: vec![rect_path(80, 80, Some(solid_fill(red)), None)],
    }));
    frame.add(Object2D::Static(StaticObject2D {
        orientation: Transform2D::identity(),
        content: vec![rect_path(80, 80, Some(solid_fill(blue)), None)],
    }));
    let ops = frame.draw_ops().unwrap();
    let fills: Vec<&DrawOp> = ops
        .iter()
        .filter(|op| matches!(op, DrawOp::SetFill(_)))
        .collect();
    // Both fills are issued, in insertion order: on a backend that applies
    // operations in order, the blue one wins wherever the two overlap.
    assert_eq!(fills.len(), 2);
    assert_eq!(*fills[0], DrawOp::SetFill(solid_fill(red)));
    assert_eq!(*fills[1], DrawOp::SetFill(solid_fill(blue)));
}

#[test]
fn stroke_state_does_not_leak_to_next_path() {
    let mut frame = sized_frame(100, 100);
    let stroke = Stroke {
        content: Texture::Solid(Color::black()),
        width: 4,
        cap: StrokeCapType::Round,
        join: StrokeJoinType::Miter,
    };
    frame.add(Object2D::Static(StaticObject2D {
        orientation: Transform2D::identity(),
        content: vec![
            rect_path(50, 50, None, Some(stroke)),
            rect_path(60, 60, Some(solid_fill(Color::black())), None),
        ],
    }));
    let ops = frame.draw_ops().unwrap();
    // The second path's block starts at the last Restore; no stroke
    // operation may appear in it.
    let last_restore = ops
        .iter()
        .enumerate()
        .rev()
        .find(|(_, op)| matches!(op, DrawOp::Restore))
        .map(|(i, _)| i)
        .unwrap();
    assert!(!ops[last_restore..]
        .iter()
        .any(|op| matches!(op, DrawOp::SetStroke(_) | DrawOp::StrokePath)));
    // The first path did stroke.
    assert_eq!(ops.iter().filter(|op| matches!(op, DrawOp::StrokePath)).count(), 1);
}

#[test]
fn to_image_twice_yields_identical_images() {
    let mut frame = sized_frame(64, 64);
    frame.add(Object2D::Static(StaticObject2D {
        orientation: Transform2D::identity(),
        content: vec![rect_path(64, 64, Some(solid_fill(Color::black())), None)],
    }));
    let first = frame.to_image().unwrap();
    let second = frame.to_image().unwrap();
    assert_eq!(first, second);
}

#[test]
fn degenerate_viewport_fails_traversal() {
    let frame: Frame<Still> = Frame::new(1);
    assert_eq!(frame.draw_ops(), Err(DrawError::DegenerateViewport));
    assert_eq!(frame.to_image(), Err(DrawError::DegenerateViewport));
}

#[test]
fn image_fill_shares_content() {
    let inner = sized_frame(10, 10);
    let snapshot = inner.to_image().unwrap();
    let mut outer = sized_frame(40, 40);
    outer.add(Object2D::Static(StaticObject2D {
        orientation: Transform2D::identity(),
        content: vec![rect_path(
            10,
            10,
            Some(Fill { content: Texture::Image(Rc::new(snapshot.clone())) }),
            None,
        )],
    }));
    let ops = outer.draw_ops().unwrap();
    let fill = ops
        .iter()
        .find_map(|op| match op {
            DrawOp::SetFill(f) => Some(f.clone()),
            _ => None,
        })
        .unwrap();
    match fill.content {
        Texture::Image(img) => assert_eq!(*img, snapshot),
        other => panic!("expected an image fill, got {:?}", other),
    }
}

#[test]
fn gradient_fill_carries_its_stops() {
    let mut frame = sized_frame(50, 50);
    let stops = vec![
        GradientStop { offset: 0, color: Color::black() },
        GradientStop { offset: 1000000, color: Color::rgba(255, 255, 255, 255) },
    ];
    let gradient = LinearGradient {
        start: Vec2D { x: 0, y: 0 },
        end: Vec2D { x: 50, y: 0 },
        stops: stops.clone(),
    };
    frame.add(Object2D::Static(StaticObject2D {
        orientation: Transform2D::identity(),
        content: vec![rect_path(
            50,
            50,
            Some(Fill { content: Texture::LinearGradient(gradient.clone()) }),
            None,
        )],
    }));
    let ops = frame.draw_ops().unwrap();
    let fill = ops
        .iter()
        .find_map(|op| match op {
            DrawOp::SetFill(f) => Some(f.clone()),
            _ => None,
        })
        .unwrap();
    assert_eq!(fill, Fill { content: Texture::LinearGradient(gradient) });
}

#[test]
fn frame_in_frame_renders_snapshot_fill() {
    let inner = sized_frame(10, 10);
    let expected = inner.to_image().unwrap();
    let mut outer: Frame<Frame<Still>> = Frame::new(1);
    outer.resize(Vec2D { x: 40, y: 40 });
    outer.set_viewport(Rect2D {
        position: Vec2D { x: 0, y: 0 },
        size: Vec2D { x: 40, y: 40 },
    });
    outer.add(Object2D::Dynamic(inner));
    let ops = outer.draw_ops().unwrap();
    let fill = ops
        .iter()
        .find_map(|op| match op {
            DrawOp::SetFill(f) => Some(f.clone()),
            _ => None,
        })
        .unwrap();
    match fill.content {
        Texture::Image(img) => assert_eq!(*img, expected),
        other => panic!("expected an image fill, got {:?}", other),
    }
}

#[test]
fn still_dynamic_object_contributes_nothing() {
    let mut frame = sized_frame(50, 50);
    frame.add(Object2D::Dynamic(Still));
    let ops = frame.draw_ops().unwrap();
    // A dynamic source with no content adds no operations to the header.
    assert_eq!(ops.len(), 3);
}

#[test]
fn shadow_is_set_when_present() {
    let mut frame = sized_frame(30, 30);
    let shadow = Shadow { color: Color::black(), blur: 5, offset: Vec2D { x: 2, y: 3 } };
    let mut path = rect_path(20, 20, Some(solid_fill(Color::black())), None);
    path.shadow = Some(shadow);
    frame.add(Object2D::Static(StaticObject2D {
        orientation: Transform2D::identity(),
        content: vec![path],
    }));
    let ops = frame.draw_ops().unwrap();
    assert!(ops.contains(&DrawOp::SetShadow(shadow)));
    assert!(!ops.contains(&DrawOp::ClearShadow));
}

#[test]
fn object_orientation_can_be_changed_through_handle() {
    let mut frame = sized_frame(100, 100);
    let handle = frame.add(Object2D::Static(StaticObject2D {
        orientation: Transform2D::identity(),
        content: vec![rect_path(10, 10, Some(solid_fill(Color::black())), None)],
    }));
    let moved = Transform2D::translate(Vec2D { x: 25, y: 30 });
    frame.set_object_orientation(handle, moved);
    let ops = frame.draw_ops().unwrap();
    assert!(ops.contains(&DrawOp::ApplyTransform(moved)));
}

#[test]
fn traversal_leaves_one_unmatched_save() {
    let mut frame = sized_frame(100, 100);
    frame.add(Object2D::Static(StaticObject2D {
        orientation: Transform2D::identity(),
        content: vec![
            rect_path(10, 10, Some(solid_fill(Color::black())), None),
            rect_path(20, 20, None, None),
        ],
    }));
    frame.add(Object2D::Static(StaticObject2D {
        orientation: Transform2D::identity(),
        content: vec![rect_path(30, 30, Some(solid_fill(Color::black())), None)],
    }));
    let ops = frame.draw_ops().unwrap();
    let saves = ops.iter().filter(|op| matches!(op, DrawOp::Save)).count();
    let restores = ops.iter().filter(|op| matches!(op, DrawOp::Restore)).count();
    assert_eq!(saves, restores + 1);
}

#[test]
fn get_size_reports_logical_size() {
    let frame = sized_frame(120, 90);
    assert_eq!(frame.get_size(), Vec2D { x: 120, y: 90 });
}

#[test]
fn device_transform_scales_viewport_onto_output() {
    // Output 400x300 shown through a 200x100 viewport at (10, 20), ratio 2:
    // scale is size / viewport size * ratio, translate is -position * ratio.
    let mut frame: Frame<Still> = Frame::new(2);
    frame.resize(Vec2D { x: 400, y: 300 });
    frame.set_viewport(Rect2D {
        position: Vec2D { x: 10, y: 20 },
        size: Vec2D { x: 200, y: 100 },
    });
    let ops = frame.draw_ops().unwrap();
    assert_eq!(
        ops[0],
        DrawOp::SetTransform(Transform2D { a: 4, b: 0, c: 0, d: 6, e: -20, f: -40 })
    );
}

#[test]
fn resize_scales_device_output_by_pixel_ratio() {
    let mut frame: Frame<Still> = Frame::new(2);
    frame.resize(Vec2D { x: 300, y: 200 });
    assert_eq!(frame.device_size, Vec2D { x: 600, y: 400 });
    assert_eq!(frame.get_size(), Vec2D { x: 300, y: 200 });
}
