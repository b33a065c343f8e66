//! The rendering contract: a frame and the traversal that turns it into the
//! exact sequence of primitive draw operations a backend must apply.
//!
//! One traversal, per [`frame_ops`]: set the device transform computed from
//! viewport, size and pixel ratio; clear the viewport; save the pass-level
//! state; then for every object in insertion order and every path of it,
//! restore and save again (so no paint state leaks between paths), apply the
//! composed orientation, replay the segments from the local origin, then
//! shadow, stroke and fill — each skipped when absent, the shadow explicitly
//! cleared when absent. The one unmatched save is restored by the caller.

use vstd::prelude::*;

use crate::geometry::COORD_LIMIT;
use crate::geometry::PIXEL_RATIO_LIMIT;
use crate::geometry::Rect2D;
use crate::geometry::Transform2D;
use crate::geometry::Vec2D;
use crate::geometry::affine_apply;
use crate::geometry::compose_transforms;
use crate::geometry::rect_wf;
use crate::geometry::transform_wf;
use crate::geometry::vec2_wf;
use crate::scene::DrawOp;
use crate::scene::DynamicObject2D;
use crate::scene::Image;
use crate::scene::ImageView;
use crate::scene::Object2D;
use crate::scene::OpView;
use crate::scene::Path;
use crate::scene::PathView;
use crate::scene::Segment;
use crate::scene::StaticObject2D;
use crate::scene::lemma_ops_model_push;
use crate::scene::op_model;
use crate::scene::object_model;
use crate::scene::object_wf;
use crate::scene::ops_model;
use crate::scene::path_model;
use crate::scene::path_wf;
use crate::scene::paths_model;
use crate::scene::share_fill;
use crate::scene::share_stroke;
use crate::paint::Shadow;

verus! {

/// Why a traversal could not run. A backend failure (a pattern that cannot
/// be realized) is the backend's to report when it applies the operations;
/// the traversal itself fails only on a viewport it cannot map.
#[derive(Clone, Copy, Debug, PartialEq, Eq, Structural)]
pub enum DrawError {
    /// The viewport has no positive extent on some axis.
    DegenerateViewport,
}

/// A scene: an ordered collection of paintable objects plus the viewport,
/// logical size and pixel ratio that map it onto a device output. Insertion
/// order is paint order, back to front; nothing is sorted.
pub struct Frame<D: DynamicObject2D> {
    pub contents: Vec<Object2D<D>>,
    pub viewport: Rect2D,
    pub size: Vec2D,
    pub pixel_ratio: i64,
    pub device_size: Vec2D,
}

/// A handle returned by [`Frame::add`]: it names the added object so its
/// orientation can be changed later without removing and re-adding it.
#[derive(Clone, Copy, Debug, PartialEq, Eq, Structural)]
pub struct ObjectHandle {
    pub index: usize,
}

pub open spec fn frame_wf<D: DynamicObject2D>(f: Frame<D>) -> bool {
    &&& vec2_wf(f.size)
    &&& 0 <= f.size.x
    &&& 0 <= f.size.y
    &&& rect_wf(f.viewport)
    &&& 1 <= f.pixel_ratio <= PIXEL_RATIO_LIMIT
    &&& f.device_size.x == f.size.x * f.pixel_ratio
    &&& f.device_size.y == f.size.y * f.pixel_ratio
    &&& forall|i: int| 0 <= i < f.contents@.len() ==> object_wf(#[trigger] f.contents@[i])
}

/// A traversal can map the viewport only when it has positive extent.
pub open spec fn viewport_drawable<D: DynamicObject2D>(f: Frame<D>) -> bool {
    0 < f.viewport.size.x && 0 < f.viewport.size.y
}

/// The device transform of a frame: per axis, scale by output size over
/// viewport size times the pixel ratio, and translate by the negated
/// viewport position times the pixel ratio. Independent per-axis scaling is
/// legal; non-uniform zoom is a feature, not an error.
pub open spec fn device_transform(size: Vec2D, viewport: Rect2D, ratio: i64) -> Transform2D {
    Transform2D {
        a: ((size.x * ratio) / (viewport.size.x as int)) as i64,
        b: 0,
        c: 0,
        d: ((size.y * ratio) / (viewport.size.y as int)) as i64,
        e: (-viewport.position.x * ratio) as i64,
        f: (-viewport.position.y * ratio) as i64,
    }
}

pub open spec fn segment_op(s: Segment) -> OpView {
    match s {
        Segment::MoveTo(v) => OpView::MoveTo(v),
        Segment::LineTo(v) => OpView::LineTo(v),
        Segment::QuadraticTo(p, h) => OpView::QuadraticTo(p, h),
        Segment::CubicTo(p, h1, h2) => OpView::CubicTo(p, h1, h2),
    }
}

pub open spec fn segments_ops(s: Seq<Segment>) -> Seq<OpView>
    decreases s.len(),
{
    if s.len() == 0 {
        Seq::empty()
    } else {
        segments_ops(s.drop_last()).push(segment_op(s.last()))
    }
}

pub open spec fn shadow_ops(sh: Option<Shadow>) -> Seq<OpView> {
    match sh {
        Some(s) => seq![OpView::SetShadow(s)],
        None => seq![OpView::ClearShadow],
    }
}

pub open spec fn stroke_ops(st: Option<crate::scene::StrokeView>) -> Seq<OpView> {
    match st {
        Some(s) => seq![OpView::SetStroke(s), OpView::StrokePath],
        None => Seq::empty(),
    }
}

pub open spec fn fill_ops(fl: Option<crate::scene::FillView>) -> Seq<OpView> {
    match fl {
        Some(f) => seq![OpView::SetFill(f), OpView::FillPath],
        None => Seq::empty(),
    }
}

/// The operations one path contributes: return to the pass-level state and
/// isolate this path's own changes, apply the composed orientation, rebuild
/// the outline from the local origin, then shadow, stroke and fill.
pub open spec fn path_ops(obj_t: Transform2D, p: PathView) -> Seq<OpView> {
    seq![
        OpView::Restore,
        OpView::Save,
        OpView::ApplyTransform(compose_transforms(obj_t, p.orientation)),
        OpView::BeginPath,
        OpView::MoveTo(Vec2D { x: 0, y: 0 }),
    ] + segments_ops(p.segments) + (if p.closed {
        seq![OpView::ClosePath]
    } else {
        Seq::empty()
    }) + shadow_ops(p.shadow) + stroke_ops(p.stroke) + fill_ops(p.fill)
}

pub open spec fn paths_ops(obj_t: Transform2D, ps: Seq<PathView>) -> Seq<OpView>
    decreases ps.len(),
{
    if ps.len() == 0 {
        Seq::empty()
    } else {
        paths_ops(obj_t, ps.drop_last()) + path_ops(obj_t, ps.last())
    }
}

pub open spec fn object_ops<D: DynamicObject2D>(o: Object2D<D>) -> Seq<OpView> {
    paths_ops(object_model(o).0, object_model(o).1)
}

pub open spec fn objects_ops<D: DynamicObject2D>(s: Seq<Object2D<D>>) -> Seq<OpView>
    decreases s.len(),
{
    if s.len() == 0 {
        Seq::empty()
    } else {
        objects_ops(s.drop_last()) + object_ops(s.last())
    }
}

/// The three operations that open every traversal.
pub open spec fn frame_header<D: DynamicObject2D>(f: Frame<D>) -> Seq<OpView> {
    seq![
        OpView::SetTransform(device_transform(f.size, f.viewport, f.pixel_ratio)),
        OpView::Clear(f.viewport),
        OpView::Save,
    ]
}

/// Everything one traversal of a frame emits, in order.
pub open spec fn frame_ops<D: DynamicObject2D>(f: Frame<D>) -> Seq<OpView> {
    frame_header(f) + objects_ops(f.contents@)
}

/// The snapshot a frame renders to: its device size and its operations.
pub open spec fn frame_image<D: DynamicObject2D>(f: Frame<D>) -> ImageView {
    ImageView { device_size: f.device_size, ops: frame_ops(f) }
}

proof fn lemma_scale_bound(v: int, r: int)
    requires
        -COORD_LIMIT <= v <= COORD_LIMIT,
        0 <= r <= PIXEL_RATIO_LIMIT,
    ensures
        -(COORD_LIMIT as int * PIXEL_RATIO_LIMIT as int) <= v * r <= COORD_LIMIT as int
            * PIXEL_RATIO_LIMIT as int,
{
    assert(-(COORD_LIMIT as int * PIXEL_RATIO_LIMIT as int) <= v * r <= COORD_LIMIT as int
        * PIXEL_RATIO_LIMIT as int) by (nonlinear_arith)
        requires
            -COORD_LIMIT <= v <= COORD_LIMIT,
            0 <= r <= PIXEL_RATIO_LIMIT,
    ;
}

proof fn lemma_div_le(p: int, d: int)
    requires
        0 <= p,
        1 <= d,
    ensures
        0 <= p / d <= p,
{
    assert(0 <= p / d <= p) by (nonlinear_arith)
        requires
            0 <= p,
            1 <= d,
    ;
}

fn compute_device_transform(size: Vec2D, viewport: Rect2D, ratio: i64) -> (t: Transform2D)
    requires
        vec2_wf(size),
        0 <= size.x,
        0 <= size.y,
        rect_wf(viewport),
        0 < viewport.size.x,
        0 < viewport.size.y,
        1 <= ratio <= PIXEL_RATIO_LIMIT,
    ensures
        t == device_transform(size, viewport, ratio),
{
    proof {
        lemma_scale_bound(size.x as int, ratio as int);
        lemma_scale_bound(size.y as int, ratio as int);
        lemma_scale_bound(viewport.position.x as int, ratio as int);
        lemma_scale_bound(viewport.position.y as int, ratio as int);
        lemma_scale_bound(-viewport.position.x as int, ratio as int);
        lemma_scale_bound(-viewport.position.y as int, ratio as int);
        lemma_div_le(size.x as int * ratio as int, viewport.size.x as int);
        lemma_div_le(size.y as int * ratio as int, viewport.size.y as int);
    }
    let sx = (((size.x as u64) * (ratio as u64)) / (viewport.size.x as u64)) as i64;
    let sy = (((size.y as u64) * (ratio as u64)) / (viewport.size.y as u64)) as i64;
    let ex = (0i64 - viewport.position.x) * ratio;
    let ey = (0i64 - viewport.position.y) * ratio;
    Transform2D { a: sx, b: 0, c: 0, d: sy, e: ex, f: ey }
}

fn emit_segments(ops: &mut Vec<DrawOp>, segments: &Vec<Segment>)
    ensures
        ops_model(final(ops)@) == ops_model(old(ops)@) + segments_ops(segments@),
{
    let ghost base = ops@;
    let mut i: usize = 0;
    while i < segments.len()
        invariant
            i <= segments@.len(),
            ops_model(ops@) == ops_model(base) + segments_ops(segments@.take(i as int)),
        decreases segments@.len() - i,
    {
        let op = match segments[i] {
            Segment::MoveTo(v) => DrawOp::MoveTo(v),
            Segment::LineTo(v) => DrawOp::LineTo(v),
            Segment::QuadraticTo(p, h) => DrawOp::QuadraticTo(p, h),
            Segment::CubicTo(p, h1, h2) => DrawOp::CubicTo(p, h1, h2),
        };
        let ghost before = ops@;
        ops.push(op);
        proof {
            lemma_ops_model_push(before, op);
            let s = segments@;
            assert(segments_ops(s.take(i as int + 1)) == segments_ops(s.take(i as int)).push(
                segment_op(s[i as int]),
            )) by {
                assert(s.take(i as int + 1).drop_last() =~= s.take(i as int));
                assert(s.take(i as int + 1).last() == s[i as int]);
            }
            assert(op_model(op) == segment_op(s[i as int]));
            assert(ops_model(ops@) =~= ops_model(base) + segments_ops(s.take(i as int + 1)));
        }
        i = i + 1;
    }
    proof {
        assert(segments@.take(segments@.len() as int) =~= segments@);
    }
}

#[verifier::rlimit(60)]
fn emit_path(ops: &mut Vec<DrawOp>, obj_t: &Transform2D, p: &Path)
    requires
        transform_wf(*obj_t),
        path_wf(path_model(*p)),
    ensures
        ops_model(final(ops)@) == ops_model(old(ops)@) + path_ops(*obj_t, path_model(*p)),
{
    let ghost base = ops@;
    let ghost pm = path_model(*p);
    push_op(ops, DrawOp::Restore);
    push_op(ops, DrawOp::Save);
    let composed = obj_t.compose(&p.orientation);
    push_op(ops, DrawOp::ApplyTransform(composed));
    push_op(ops, DrawOp::BeginPath);
    push_op(ops, DrawOp::MoveTo(Vec2D { x: 0, y: 0 }));
    proof {
        assert(ops_model(ops@) =~= ops_model(base) + seq![
            OpView::Restore,
            OpView::Save,
            OpView::ApplyTransform(compose_transforms(*obj_t, pm.orientation)),
            OpView::BeginPath,
            OpView::MoveTo(Vec2D { x: 0, y: 0 }),
        ]);
    }
    let ghost head = seq![
        OpView::Restore,
        OpView::Save,
        OpView::ApplyTransform(compose_transforms(*obj_t, pm.orientation)),
        OpView::BeginPath,
        OpView::MoveTo(Vec2D { x: 0, y: 0 }),
    ];
    emit_segments(ops, &p.segments);
    let ghost outline = head + segments_ops(pm.segments);
    proof {
        assert(ops_model(ops@) =~= ops_model(base) + outline);
    }
    if p.closed {
        push_op(ops, DrawOp::ClosePath);
    }
    let ghost closed_part = outline + (if pm.closed {
        seq![OpView::ClosePath]
    } else {
        Seq::empty()
    });
    proof {
        assert(ops_model(ops@) =~= ops_model(base) + closed_part);
    }
    match &p.shadow {
        Some(s) => push_op(ops, DrawOp::SetShadow(*s)),
        None => push_op(ops, DrawOp::ClearShadow),
    }
    let ghost shadowed = closed_part + shadow_ops(pm.shadow);
    proof {
        assert(ops_model(ops@) =~= ops_model(base) + shadowed);
    }
    match &p.stroke {
        Some(s) => {
            let shared = share_stroke(s);
            push_op(ops, DrawOp::SetStroke(shared));
            push_op(ops, DrawOp::StrokePath);
        },
        None => {},
    }
    let ghost stroked = shadowed + stroke_ops(pm.stroke);
    proof {
        assert(ops_model(ops@) =~= ops_model(base) + stroked);
    }
    match &p.fill {
        Some(f) => {
            let shared = share_fill(f);
            push_op(ops, DrawOp::SetFill(shared));
            push_op(ops, DrawOp::FillPath);
        },
        None => {},
    }
    proof {
        assert(ops_model(ops@) =~= ops_model(base) + (stroked + fill_ops(pm.fill)));
        assert(path_ops(*obj_t, pm) =~= stroked + fill_ops(pm.fill));
    }
}

/// Append one operation; its own lemma keeps the model in step.
fn push_op(ops: &mut Vec<DrawOp>, op: DrawOp)
    ensures
        final(ops)@ == old(ops)@.push(op),
        ops_model(final(ops)@) == ops_model(old(ops)@).push(op_model(op)),
{
    let ghost before = ops@;
    ops.push(op);
    proof {
        lemma_ops_model_push(before, op);
    }
}

fn emit_paths(ops: &mut Vec<DrawOp>, obj_t: &Transform2D, paths: &Vec<Path>)
    requires
        transform_wf(*obj_t),
        forall|i: int| 0 <= i < paths@.len() ==> path_wf(#[trigger] path_model(paths@[i])),
    ensures
        ops_model(final(ops)@) == ops_model(old(ops)@) + paths_ops(*obj_t, paths_model(paths@)),
{
    let ghost base = ops@;
    let mut i: usize = 0;
    while i < paths.len()
        invariant
            i <= paths@.len(),
            transform_wf(*obj_t),
            forall|k: int| 0 <= k < paths@.len() ==> path_wf(#[trigger] path_model(paths@[k])),
            ops_model(ops@) == ops_model(base) + paths_ops(
                *obj_t,
                paths_model(paths@.take(i as int)),
            ),
        decreases paths@.len() - i,
    {
        emit_path(ops, obj_t, &paths[i]);
        proof {
            let ps = paths_model(paths@);
            let taken = paths_model(paths@.take(i as int));
            let taken1 = paths_model(paths@.take(i as int + 1));
            assert(taken1.drop_last() =~= taken);
            assert(taken1.last() == path_model(paths@[i as int]));
            assert(paths_ops(*obj_t, taken1) == paths_ops(*obj_t, taken) + path_ops(
                *obj_t,
                path_model(paths@[i as int]),
            ));
            assert(ops_model(ops@) =~= ops_model(base) + paths_ops(*obj_t, taken1));
        }
        i = i + 1;
    }
    proof {
        assert(paths@.take(paths@.len() as int) =~= paths@);
        assert(paths_model(paths@.take(paths@.len() as int)) =~= paths_model(paths@));
    }
}

impl<D: DynamicObject2D> Frame<D> {
    /// An empty scene with nothing to show: no contents, zero size, zero
    /// viewport, the given pixel ratio.
    pub fn new(pixel_ratio: i64) -> (r: Frame<D>)
        requires
            1 <= pixel_ratio <= PIXEL_RATIO_LIMIT,
        ensures
            r.contents@.len() == 0,
            r.viewport == (Rect2D {
                position: Vec2D { x: 0, y: 0 },
                size: Vec2D { x: 0, y: 0 },
            }),
            r.size == (Vec2D { x: 0, y: 0 }),
            r.pixel_ratio == pixel_ratio,
            frame_wf(r),
    {
        Frame {
            contents: Vec::new(),
            viewport: Rect2D { position: Vec2D { x: 0, y: 0 }, size: Vec2D { x: 0, y: 0 } },
            size: Vec2D { x: 0, y: 0 },
            pixel_ratio,
            device_size: Vec2D { x: 0, y: 0 },
        }
    }

    /// Append an object; it will paint after (above) everything added
    /// before. The returned handle names it for later orientation changes.
    pub fn add(&mut self, object: Object2D<D>) -> (h: ObjectHandle)
        requires
            frame_wf(*old(self)),
            object_wf(object),
        ensures
            final(self).contents@ == old(self).contents@.push(object),
            final(self).viewport == old(self).viewport,
            final(self).size == old(self).size,
            final(self).pixel_ratio == old(self).pixel_ratio,
            final(self).device_size == old(self).device_size,
            frame_wf(*final(self)),
            h.index == old(self).contents@.len(),
    {
        let h = ObjectHandle { index: self.contents.len() };
        self.contents.push(object);
        h
    }

    /// Replace the orientation of a static object added earlier; the change
    /// is observed on the next traversal.
    pub fn set_object_orientation(&mut self, h: ObjectHandle, orientation: Transform2D)
        requires
            frame_wf(*old(self)),
            h.index < old(self).contents@.len(),
            old(self).contents@[h.index as int] is Static,
            transform_wf(orientation),
        ensures
            final(self).contents@ == old(self).contents@.update(
                h.index as int,
                Object2D::Static(
                    StaticObject2D {
                        orientation,
                        content: old(self).contents@[h.index as int]->Static_0.content,
                    },
                ),
            ),
            final(self).viewport == old(self).viewport,
            final(self).size == old(self).size,
            final(self).pixel_ratio == old(self).pixel_ratio,
            final(self).device_size == old(self).device_size,
            frame_wf(*final(self)),
    {
        let obj = self.contents.remove(h.index);
        match obj {
            Object2D::Static(s) => {
                self.contents.insert(
                    h.index,
                    Object2D::Static(StaticObject2D { orientation, content: s.content }),
                );
            },
            Object2D::Dynamic(_) => {
                proof {
                    assert(false);
                }
            },
        }
        proof {
            let updated = Object2D::Static(
                StaticObject2D {
                    orientation,
                    content: old(self).contents@[h.index as int]->Static_0.content,
                },
            );
            assert(self.contents@ =~= old(self).contents@.update(h.index as int, updated));
            assert(forall|i: int|
                0 <= i < self.contents@.len() ==> object_wf(#[trigger] self.contents@[i]));
        }
    }

    /// Update the world-space mapping; nothing is recomputed until the next
    /// traversal.
    pub fn set_viewport(&mut self, viewport: Rect2D)
        requires
            frame_wf(*old(self)),
            rect_wf(viewport),
        ensures
            final(self).viewport == viewport,
            final(self).contents == old(self).contents,
            final(self).size == old(self).size,
            final(self).pixel_ratio == old(self).pixel_ratio,
            final(self).device_size == old(self).device_size,
            frame_wf(*final(self)),
    {
        self.viewport = viewport;
    }

    /// Store the new logical size and scale the device output by the pixel
    /// ratio; nothing is recomputed until the next traversal.
    pub fn resize(&mut self, size: Vec2D)
        requires
            frame_wf(*old(self)),
            vec2_wf(size),
            0 <= size.x,
            0 <= size.y,
        ensures
            final(self).size == size,
            final(self).device_size.x == size.x * old(self).pixel_ratio,
            final(self).device_size.y == size.y * old(self).pixel_ratio,
            final(self).contents == old(self).contents,
            final(self).viewport == old(self).viewport,
            final(self).pixel_ratio == old(self).pixel_ratio,
            frame_wf(*final(self)),
    {
        proof {
            lemma_scale_bound(size.x as int, self.pixel_ratio as int);
            lemma_scale_bound(size.y as int, self.pixel_ratio as int);
        }
        self.size = size;
        self.device_size = Vec2D { x: size.x * self.pixel_ratio, y: size.y * self.pixel_ratio };
    }

    /// The logical output size.
    pub fn get_size(&self) -> (s: Vec2D)
        ensures
            s == self.size,
    {
        self.size
    }

    /// One traversal: the operations a backend must apply, in order, or the
    /// error when the viewport cannot be mapped. Succeeds exactly when the
    /// viewport has positive extent on both axes.
    pub fn draw_ops(&self) -> (r: Result<Vec<DrawOp>, DrawError>)
        requires
            frame_wf(*self),
        ensures
            r is Ok <==> viewport_drawable(*self),
            r matches Ok(ops) ==> ops_model(ops@) == frame_ops(*self),
            r is Err ==> r == Err::<Vec<DrawOp>, DrawError>(DrawError::DegenerateViewport),
    {
        if self.viewport.size.x <= 0 || self.viewport.size.y <= 0 {
            return Err(DrawError::DegenerateViewport);
        }
        let mut ops: Vec<DrawOp> = Vec::new();
        let device = compute_device_transform(self.size, self.viewport, self.pixel_ratio);
        push_op(&mut ops, DrawOp::SetTransform(device));
        push_op(&mut ops, DrawOp::Clear(self.viewport));
        push_op(&mut ops, DrawOp::Save);
        proof {
            assert(ops_model(ops@) =~= frame_header(*self));
        }
        let mut oi: usize = 0;
        while oi < self.contents.len()
            invariant
                frame_wf(*self),
                oi <= self.contents@.len(),
                ops_model(ops@) == frame_header(*self) + objects_ops(
                    self.contents@.take(oi as int),
                ),
            decreases self.contents@.len() - oi,
        {
            match &self.contents[oi] {
                Object2D::Static(s) => {
                    emit_paths(&mut ops, &s.orientation, &s.content);
                },
                Object2D::Dynamic(d) => {
                    let t = d.orientation();
                    let rendered = d.render();
                    emit_paths(&mut ops, &t, &rendered);
                },
            }
            proof {
                let s = self.contents@;
                assert(s.take(oi as int + 1).drop_last() =~= s.take(oi as int));
                assert(s.take(oi as int + 1).last() == s[oi as int]);
                assert(objects_ops(s.take(oi as int + 1)) == objects_ops(s.take(oi as int))
                    + object_ops(s[oi as int]));
                assert(ops_model(ops@) =~= frame_header(*self) + objects_ops(
                    s.take(oi as int + 1),
                ));
            }
            oi = oi + 1;
        }
        proof {
            assert(self.contents@.take(self.contents@.len() as int) =~= self.contents@);
        }
        Ok(ops)
    }

    /// Force one traversal and snapshot it: the device size and the exact
    /// operations that produce the frame's current content. Two snapshots of
    /// an unchanged frame are identical.
    pub fn to_image(&self) -> (r: Result<Image, DrawError>)
        requires
            frame_wf(*self),
        ensures
            r is Ok <==> viewport_drawable(*self),
            r matches Ok(img) ==> crate::scene::image_model(img) == frame_image(*self),
            r is Err ==> r == Err::<Image, DrawError>(DrawError::DegenerateViewport),
    {
        match self.draw_ops() {
            Ok(ops) => Ok(Image { device_size: self.device_size, ops }),
            Err(e) => Err(e),
        }
    }
}

// ---------------------------------------------------------------------------
// A frame used as a dynamic object: indirect frame-in-frame composition.
// ---------------------------------------------------------------------------

/// The one path a frame contributes when it is drawn inside another frame:
/// a closed rectangle over its own logical size, filled with the snapshot of
/// its current content.
pub open spec fn frame_path_view<D: DynamicObject2D>(f: Frame<D>) -> PathView {
    PathView {
        orientation: crate::geometry::identity_transform(),
        segments: seq![
            Segment::LineTo(Vec2D { x: 0, y: 0 }),
            Segment::LineTo(Vec2D { x: 0, y: f.size.y }),
            Segment::LineTo(f.size),
            Segment::LineTo(Vec2D { x: f.size.x, y: 0 }),
        ],
        closed: true,
        fill: Some(
            crate::scene::FillView { content: crate::scene::TextureView::Image(frame_image(f)) },
        ),
        stroke: None,
        shadow: None,
    }
}

impl DynamicObject2D for Frame<crate::scene::Still> {
    open spec fn ready(&self) -> bool {
        frame_wf(*self)
    }

    open spec fn current_orientation(&self) -> Transform2D {
        crate::geometry::identity_transform()
    }

    open spec fn current_paths(&self) -> Seq<PathView> {
        if viewport_drawable(*self) {
            seq![frame_path_view(*self)]
        } else {
            Seq::empty()
        }
    }

    fn orientation(&self) -> (r: Transform2D) {
        Transform2D::identity()
    }

    fn render(&self) -> (r: Vec<Path>) {
        match self.to_image() {
            Ok(img) => {
                let size = self.size;
                let mut segments: Vec<Segment> = Vec::new();
                segments.push(Segment::LineTo(Vec2D { x: 0, y: 0 }));
                segments.push(Segment::LineTo(Vec2D { x: 0, y: size.y }));
                segments.push(Segment::LineTo(size));
                segments.push(Segment::LineTo(Vec2D { x: size.x, y: 0 }));
                proof {
                    assert(segments@ =~= frame_path_view(*self).segments);
                }
                let path = Path {
                    orientation: Transform2D::identity(),
                    segments,
                    closed: true,
                    fill: Some(
                        crate::scene::Fill {
                            content: crate::scene::Texture::Image(std::rc::Rc::new(img)),
                        },
                    ),
                    stroke: None,
                    shadow: None,
                };
                let mut r: Vec<Path> = Vec::new();
                r.push(path);
                proof {
                    assert(paths_model(r@) =~= seq![frame_path_view(*self)]) by {
                        assert(paths_model(r@).len() == 1);
                        assert(paths_model(r@)[0] == path_model(r@[0]));
                        assert(path_model(r@[0]) == frame_path_view(*self));
                    }
                }
                r
            },
            Err(_) => {
                let r: Vec<Path> = Vec::new();
                proof {
                    assert(paths_model(r@) =~= Seq::<PathView>::empty());
                }
                r
            },
        }
    }
}

// ---------------------------------------------------------------------------
// Laws of the rendering contract.
// ---------------------------------------------------------------------------

/// The device transform maps the viewport onto the device output: with the
/// viewport anchored at the world origin and dividing the scaled output size
/// evenly, the viewport's origin corner lands on the device origin and its
/// far corner on the output size scaled by the pixel ratio.
pub proof fn lemma_device_transform_maps_viewport(size: Vec2D, viewport: Rect2D, ratio: i64)
    requires
        vec2_wf(size),
        0 <= size.x,
        0 <= size.y,
        rect_wf(viewport),
        1 <= ratio <= PIXEL_RATIO_LIMIT,
        viewport.position == (Vec2D { x: 0, y: 0 }),
        0 < viewport.size.x,
        0 < viewport.size.y,
        (size.x * ratio) % (viewport.size.x as int) == 0,
        (size.y * ratio) % (viewport.size.y as int) == 0,
    ensures
        affine_apply(
            device_transform(size, viewport, ratio)@,
            viewport.position.x as int,
            viewport.position.y as int,
        ) == (0int, 0int),
        affine_apply(
            device_transform(size, viewport, ratio)@,
            viewport.position.x + viewport.size.x as int,
            viewport.position.y + viewport.size.y as int,
        ) == (size.x * ratio, size.y * ratio),
{
    let t = device_transform(size, viewport, ratio);
    let px = size.x * ratio;
    let py = size.y * ratio;
    let vx = viewport.size.x as int;
    let vy = viewport.size.y as int;
    lemma_scale_bound(size.x as int, ratio as int);
    lemma_scale_bound(size.y as int, ratio as int);
    lemma_div_le(px, vx);
    lemma_div_le(py, vy);
    vstd::arithmetic::div_mod::lemma_fundamental_div_mod(px, vx);
    vstd::arithmetic::div_mod::lemma_fundamental_div_mod(py, vy);
    assert(t@.a == px / vx && t@.d == py / vy);
    assert(t@.e == 0 && t@.f == 0 && t@.b == 0 && t@.c == 0);
    assert(t@.a * 0 == 0 && t@.d * 0 == 0 && t@.b * 0 == 0 && t@.c * 0 == 0)
        by (nonlinear_arith);
    assert(vx * (px / vx) == (px / vx) * vx) by (nonlinear_arith);
    assert(vy * (py / vy) == (py / vy) * vy) by (nonlinear_arith);
    assert(affine_apply(t@, vx, vy).0 == t@.a * vx + t@.c * vy + t@.e);
    assert(t@.c * vy == 0) by (nonlinear_arith)
        requires
            t@.c == 0,
    ;
    assert(t@.b * vx == 0) by (nonlinear_arith)
        requires
            t@.b == 0,
    ;
}

/// Paint order: a frame's operations are its header followed by each
/// object's block in insertion order, so for two objects added in order the
/// second one's operations — its fill included — are all issued after the
/// first one's. On a backend that applies operations in order, the later,
/// opaque fill wins wherever the two overlap.
pub proof fn lemma_paint_order<D: DynamicObject2D>(f: Frame<D>, x: Object2D<D>, y: Object2D<D>)
    requires
        f.contents@ == seq![x, y],
    ensures
        frame_ops(f) == frame_header(f) + object_ops(x) + object_ops(y),
{
    let s = seq![x, y];
    assert(s.drop_last() =~= seq![x]);
    assert(s.last() == y);
    let s1 = seq![x];
    assert(s1.drop_last() =~= Seq::<Object2D<D>>::empty());
    assert(s1.last() == x);
    assert(objects_ops(s1) == objects_ops(Seq::<Object2D<D>>::empty()) + object_ops(x));
    assert(objects_ops(Seq::<Object2D<D>>::empty()) + object_ops(x) =~= object_ops(x));
    assert(objects_ops(s) == object_ops(x) + object_ops(y));
    assert(frame_header(f) + (object_ops(x) + object_ops(y)) =~= frame_header(f) + object_ops(x)
        + object_ops(y));
}

/// Whether an operation touches stroke state or strokes the current path.
pub open spec fn op_strokes(v: OpView) -> bool {
    v is SetStroke || v is StrokePath
}

proof fn lemma_segments_ops_build_outline(ss: Seq<Segment>)
    ensures
        forall|k: int| 0 <= k < segments_ops(ss).len() ==> !op_strokes(#[trigger] segments_ops(ss)[k]),
    decreases ss.len(),
{
    if ss.len() > 0 {
        lemma_segments_ops_build_outline(ss.drop_last());
        assert(segments_ops(ss) == segments_ops(ss.drop_last()).push(segment_op(ss.last())));
        assert(!op_strokes(segment_op(ss.last()))) by {
            match ss.last() {
                Segment::MoveTo(_) => {},
                Segment::LineTo(_) => {},
                Segment::QuadraticTo(_, _) => {},
                Segment::CubicTo(_, _, _) => {},
            }
        }
    }
}

/// State isolation: a path without a stroke emits no stroke operation at
/// all, and its block starts by restoring the pass-level state, so a stroke
/// set by an earlier path can never reach it.
pub proof fn lemma_stroke_isolation(obj_t: Transform2D, p: PathView)
    requires
        p.stroke is None,
    ensures
        path_ops(obj_t, p)[0] == OpView::Restore,
        forall|k: int| 0 <= k < path_ops(obj_t, p).len() ==> !op_strokes(
            #[trigger] path_ops(obj_t, p)[k],
        ),
{
    let ops = path_ops(obj_t, p);
    let head = seq![
        OpView::Restore,
        OpView::Save,
        OpView::ApplyTransform(compose_transforms(obj_t, p.orientation)),
        OpView::BeginPath,
        OpView::MoveTo(Vec2D { x: 0, y: 0 }),
    ];
    let segs = segments_ops(p.segments);
    let close = if p.closed {
        seq![OpView::ClosePath]
    } else {
        Seq::<OpView>::empty()
    };
    let shade = shadow_ops(p.shadow);
    lemma_segments_ops_build_outline(p.segments);
    assert(stroke_ops(p.stroke) =~= Seq::<OpView>::empty());
    assert(ops =~= head + segs + close + shade + fill_ops(p.fill));
    assert forall|k: int| 0 <= k < ops.len() implies !op_strokes(#[trigger] ops[k]) by {
        let hl = head.len() as int;
        let sl = segs.len() as int;
        let cl = close.len() as int;
        let dl = shade.len() as int;
        if k < hl {
            assert(ops[k] == head[k]);
        } else if k < hl + sl {
            assert(ops[k] == segs[k - hl]);
        } else if k < hl + sl + cl {
            assert(ops[k] == close[k - hl - sl]);
        } else if k < hl + sl + cl + dl {
            assert(ops[k] == shade[k - hl - sl - cl]);
        } else {
            assert(ops[k] == fill_ops(p.fill)[k - hl - sl - cl - dl]);
        }
    }
}

/// What an operation does to the backend's state stack: a save pushes, a
/// restore pops, everything else leaves it alone.
pub open spec fn save_delta(v: OpView) -> int {
    if v is Save {
        1
    } else if v is Restore {
        -1
    } else {
        0
    }
}

/// The net state-stack growth of an operation sequence.
pub open spec fn stack_delta(s: Seq<OpView>) -> int
    decreases s.len(),
{
    if s.len() == 0 {
        0
    } else {
        stack_delta(s.drop_last()) + save_delta(s.last())
    }
}

proof fn lemma_stack_delta_concat(a: Seq<OpView>, b: Seq<OpView>)
    ensures
        stack_delta(a + b) == stack_delta(a) + stack_delta(b),
    decreases b.len(),
{
    if b.len() == 0 {
        assert(a + b =~= a);
    } else {
        lemma_stack_delta_concat(a, b.drop_last());
        assert((a + b).drop_last() =~= a + b.drop_last());
        assert((a + b).last() == b.last());
    }
}

proof fn lemma_stack_delta_push(s: Seq<OpView>, v: OpView)
    ensures
        stack_delta(s.push(v)) == stack_delta(s) + save_delta(v),
{
    assert(s.push(v).drop_last() =~= s);
    assert(s.push(v).last() == v);
}

proof fn lemma_segments_ops_stack_neutral(ss: Seq<Segment>)
    ensures
        stack_delta(segments_ops(ss)) == 0,
    decreases ss.len(),
{
    if ss.len() > 0 {
        lemma_segments_ops_stack_neutral(ss.drop_last());
        lemma_stack_delta_push(segments_ops(ss.drop_last()), segment_op(ss.last()));
        assert(save_delta(segment_op(ss.last())) == 0) by {
            match ss.last() {
                Segment::MoveTo(_) => {},
                Segment::LineTo(_) => {},
                Segment::QuadraticTo(_, _) => {},
                Segment::CubicTo(_, _, _) => {},
            }
        }
    }
}

/// One path's block leaves the state stack exactly as it found it: the
/// opening restore and save cancel, and nothing else touches the stack.
proof fn lemma_path_ops_stack_neutral(obj_t: Transform2D, p: PathView)
    ensures
        stack_delta(path_ops(obj_t, p)) == 0,
{
    let head = seq![
        OpView::Restore,
        OpView::Save,
        OpView::ApplyTransform(compose_transforms(obj_t, p.orientation)),
        OpView::BeginPath,
        OpView::MoveTo(Vec2D { x: 0, y: 0 }),
    ];
    let segs = segments_ops(p.segments);
    let close = if p.closed {
        seq![OpView::ClosePath]
    } else {
        Seq::<OpView>::empty()
    };
    let shade = shadow_ops(p.shadow);
    let strokes = stroke_ops(p.stroke);
    let fills = fill_ops(p.fill);
    reveal_with_fuel(stack_delta, 7);
    assert(stack_delta(head) == 0) by {
        let h4 = seq![OpView::Restore, OpView::Save, OpView::ApplyTransform(
            compose_transforms(obj_t, p.orientation),
        ), OpView::BeginPath];
        let h3 = seq![OpView::Restore, OpView::Save, OpView::ApplyTransform(
            compose_transforms(obj_t, p.orientation),
        )];
        let h2 = seq![OpView::Restore, OpView::Save];
        let h1 = seq![OpView::Restore];
        assert(head.drop_last() =~= h4);
        assert(h4.drop_last() =~= h3);
        assert(h3.drop_last() =~= h2);
        assert(h2.drop_last() =~= h1);
        assert(h1.drop_last() =~= Seq::<OpView>::empty());
    }
    lemma_segments_ops_stack_neutral(p.segments);
    assert(stack_delta(close) == 0) by {
        if p.closed {
            assert(close.drop_last() =~= Seq::<OpView>::empty());
        }
    }
    assert(stack_delta(shade) == 0) by {
        assert(shade.drop_last() =~= Seq::<OpView>::empty());
    }
    assert(stack_delta(strokes) == 0) by {
        match p.stroke {
            Some(s) => {
                assert(strokes.drop_last() =~= seq![OpView::SetStroke(s)]);
                assert(seq![OpView::SetStroke(s)].drop_last() =~= Seq::<OpView>::empty());
            },
            None => {},
        }
    }
    assert(stack_delta(fills) == 0) by {
        match p.fill {
            Some(f) => {
                assert(fills.drop_last() =~= seq![OpView::SetFill(f)]);
                assert(seq![OpView::SetFill(f)].drop_last() =~= Seq::<OpView>::empty());
            },
            None => {},
        }
    }
    lemma_stack_delta_concat(head, segs);
    lemma_stack_delta_concat(head + segs, close);
    lemma_stack_delta_concat(head + segs + close, shade);
    lemma_stack_delta_concat(head + segs + close + shade, strokes);
    lemma_stack_delta_concat(head + segs + close + shade + strokes, fills);
}

proof fn lemma_paths_ops_stack_neutral(obj_t: Transform2D, ps: Seq<PathView>)
    ensures
        stack_delta(paths_ops(obj_t, ps)) == 0,
    decreases ps.len(),
{
    if ps.len() > 0 {
        lemma_paths_ops_stack_neutral(obj_t, ps.drop_last());
        lemma_path_ops_stack_neutral(obj_t, ps.last());
        lemma_stack_delta_concat(paths_ops(obj_t, ps.drop_last()), path_ops(obj_t, ps.last()));
    }
}

proof fn lemma_objects_ops_stack_neutral<D: DynamicObject2D>(s: Seq<Object2D<D>>)
    ensures
        stack_delta(objects_ops(s)) == 0,
    decreases s.len(),
{
    if s.len() > 0 {
        lemma_objects_ops_stack_neutral(s.drop_last());
        lemma_paths_ops_stack_neutral(object_model(s.last()).0, object_model(s.last()).1);
        lemma_stack_delta_concat(objects_ops(s.drop_last()), object_ops(s.last()));
    }
}

/// The state stack is balanced per pass: one traversal leaves exactly the
/// one unmatched save of its header, which the caller restores when the
/// traversal ends.
pub proof fn lemma_state_stack_balanced<D: DynamicObject2D>(f: Frame<D>)
    ensures
        stack_delta(frame_ops(f)) == 1,
{
    reveal_with_fuel(stack_delta, 5);
    assert(stack_delta(frame_header(f)) == 1) by {
        let h2 = seq![OpView::SetTransform(
            device_transform(f.size, f.viewport, f.pixel_ratio),
        ), OpView::Clear(f.viewport)];
        let h1 = seq![OpView::SetTransform(device_transform(f.size, f.viewport, f.pixel_ratio))];
        assert(frame_header(f).drop_last() =~= h2);
        assert(h2.drop_last() =~= h1);
        assert(h1.drop_last() =~= Seq::<OpView>::empty());
    }
    lemma_objects_ops_stack_neutral(f.contents@);
    lemma_stack_delta_concat(frame_header(f), objects_ops(f.contents@));
}

/// Snapshot idempotence: the image a frame renders to is a function of the
/// frame's state alone ([`Frame::to_image`] pins its result's model to
/// [`frame_image`]), so two snapshots taken from an unchanged frame carry
/// identical content.
pub proof fn lemma_snapshot_idempotent<D: DynamicObject2D>(
    f: Frame<D>,
    first: ImageView,
    second: ImageView,
)
    requires
        first == frame_image(f),
        second == frame_image(f),
    ensures
        first == second,
{
}

} // verus!
