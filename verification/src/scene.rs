//! The scene graph: textures, paths, static and dynamic objects, and the
//! vocabulary of primitive draw operations a backend consumes.
//!
//! Types that own heap storage (gradients, images, paths, operations) have
//! spec-level models ([`TextureView`], [`PathView`], [`OpView`], ...) built
//! from `Seq` so that contracts can pin their content down; the rendering
//! contract is stated over those models.

use vstd::prelude::*;

use std::rc::Rc;

use crate::geometry::Rect2D;
use crate::geometry::Transform2D;
use crate::geometry::Vec2D;
use crate::geometry::transform_wf;
use crate::paint::Color;
use crate::paint::GradientStop;
use crate::paint::Shadow;
use crate::paint::StrokeCapType;
use crate::paint::StrokeJoinType;

verus! {

broadcast use
    vstd::seq::axiom_seq_index_decreases,
    vstd::seq::axiom_seq_subrange_decreases,
    vstd::std_specs::vec::axiom_vec_index_decreases,
    vstd::std_specs::vec::axiom_vec_decreases_to_view,
;

/// A linear gradient between two points, colored by ordered stops.
#[derive(Clone, Debug, PartialEq)]
pub struct LinearGradient {
    pub start: Vec2D,
    pub end: Vec2D,
    pub stops: Vec<GradientStop>,
}

/// A radial gradient between two circles, colored by ordered stops.
#[derive(Clone, Debug, PartialEq)]
pub struct RadialGradient {
    pub start: Vec2D,
    pub start_radius: i64,
    pub end: Vec2D,
    pub end_radius: i64,
    pub stops: Vec<GradientStop>,
}

/// A paint source: a solid color, a gradient, or an image used as pattern.
/// Images are shared handles: cloning a texture never copies pixel content.
#[derive(Clone, Debug, PartialEq)]
pub enum Texture {
    Solid(Color),
    LinearGradient(LinearGradient),
    RadialGradient(RadialGradient),
    Image(Rc<Image>),
}

/// How the interior of a path is painted.
#[derive(Clone, Debug, PartialEq)]
pub struct Fill {
    pub content: Texture,
}

/// How the outline of a path is painted.
#[derive(Clone, Debug, PartialEq)]
pub struct Stroke {
    pub content: Texture,
    pub width: i64,
    pub cap: StrokeCapType,
    pub join: StrokeJoinType,
}

/// A snapshot of a frame: the device size of its output and the exact draw
/// operations that produce its content. Two images with equal models render
/// identically on any conforming backend.
#[derive(Clone, Debug, PartialEq)]
pub struct Image {
    pub device_size: Vec2D,
    pub ops: Vec<DrawOp>,
}

/// One step of a path outline, drawn from the current cursor.
#[derive(Clone, Copy, Debug, PartialEq, Eq, Structural)]
pub enum Segment {
    MoveTo(Vec2D),
    LineTo(Vec2D),
    /// End point, then control handle.
    QuadraticTo(Vec2D, Vec2D),
    /// End point, then the two control handles.
    CubicTo(Vec2D, Vec2D, Vec2D),
}

/// One drawable sub-shape: geometry plus optional fill, stroke and shadow.
/// Absence of a descriptor means the corresponding draw step is skipped.
#[derive(Clone, Debug, PartialEq)]
pub struct Path {
    pub orientation: Transform2D,
    pub segments: Vec<Segment>,
    pub closed: bool,
    pub fill: Option<Fill>,
    pub stroke: Option<Stroke>,
    pub shadow: Option<Shadow>,
}

/// A primitive operation of the backend surface. A traversal of a frame
/// emits a sequence of these; a backend applies them in order.
#[derive(Clone, Debug, PartialEq)]
pub enum DrawOp {
    /// Replace the global transform.
    SetTransform(Transform2D),
    /// Clear a world-space rectangle.
    Clear(Rect2D),
    Save,
    Restore,
    /// Multiply the given transform onto the current one.
    ApplyTransform(Transform2D),
    BeginPath,
    MoveTo(Vec2D),
    LineTo(Vec2D),
    /// End point, then control handle.
    QuadraticTo(Vec2D, Vec2D),
    /// End point, then the two control handles.
    CubicTo(Vec2D, Vec2D, Vec2D),
    ClosePath,
    SetShadow(Shadow),
    /// Reset shadow state; emitted for every path without a shadow so that
    /// no shadow ever leaks over from an earlier path.
    ClearShadow,
    SetStroke(Stroke),
    StrokePath,
    SetFill(Fill),
    /// Fill the current path with a non-zero winding rule.
    FillPath,
}

// ---------------------------------------------------------------------------
// Spec-level models.
// ---------------------------------------------------------------------------

pub struct LinearGradientView {
    pub start: Vec2D,
    pub end: Vec2D,
    pub stops: Seq<GradientStop>,
}

pub struct RadialGradientView {
    pub start: Vec2D,
    pub start_radius: i64,
    pub end: Vec2D,
    pub end_radius: i64,
    pub stops: Seq<GradientStop>,
}

pub enum TextureView {
    Solid(Color),
    LinearGradient(LinearGradientView),
    RadialGradient(RadialGradientView),
    Image(ImageView),
}

pub struct ImageView {
    pub device_size: Vec2D,
    pub ops: Seq<OpView>,
}

pub struct FillView {
    pub content: TextureView,
}

pub struct StrokeView {
    pub content: TextureView,
    pub width: i64,
    pub cap: StrokeCapType,
    pub join: StrokeJoinType,
}

pub struct PathView {
    pub orientation: Transform2D,
    pub segments: Seq<Segment>,
    pub closed: bool,
    pub fill: Option<FillView>,
    pub stroke: Option<StrokeView>,
    pub shadow: Option<Shadow>,
}

pub enum OpView {
    SetTransform(Transform2D),
    Clear(Rect2D),
    Save,
    Restore,
    ApplyTransform(Transform2D),
    BeginPath,
    MoveTo(Vec2D),
    LineTo(Vec2D),
    QuadraticTo(Vec2D, Vec2D),
    CubicTo(Vec2D, Vec2D, Vec2D),
    ClosePath,
    SetShadow(Shadow),
    ClearShadow,
    SetStroke(StrokeView),
    StrokePath,
    SetFill(FillView),
    FillPath,
}

pub open spec fn texture_model(t: Texture) -> TextureView
    decreases t,
{
    match t {
        Texture::Solid(c) => TextureView::Solid(c),
        Texture::LinearGradient(g) => TextureView::LinearGradient(
            LinearGradientView { start: g.start, end: g.end, stops: g.stops@ },
        ),
        Texture::RadialGradient(g) => TextureView::RadialGradient(
            RadialGradientView {
                start: g.start,
                start_radius: g.start_radius,
                end: g.end,
                end_radius: g.end_radius,
                stops: g.stops@,
            },
        ),
        Texture::Image(img) => TextureView::Image(image_model(*img)),
    }
}

pub open spec fn image_model(img: Image) -> ImageView
    decreases img,
{
    ImageView { device_size: img.device_size, ops: ops_model(img.ops@) }
}

pub open spec fn fill_model(f: Fill) -> FillView
    decreases f,
{
    FillView { content: texture_model(f.content) }
}

pub open spec fn stroke_model(s: Stroke) -> StrokeView
    decreases s,
{
    StrokeView { content: texture_model(s.content), width: s.width, cap: s.cap, join: s.join }
}

pub open spec fn op_model(op: DrawOp) -> OpView
    decreases op,
{
    match op {
        DrawOp::SetTransform(t) => OpView::SetTransform(t),
        DrawOp::Clear(r) => OpView::Clear(r),
        DrawOp::Save => OpView::Save,
        DrawOp::Restore => OpView::Restore,
        DrawOp::ApplyTransform(t) => OpView::ApplyTransform(t),
        DrawOp::BeginPath => OpView::BeginPath,
        DrawOp::MoveTo(v) => OpView::MoveTo(v),
        DrawOp::LineTo(v) => OpView::LineTo(v),
        DrawOp::QuadraticTo(v, h) => OpView::QuadraticTo(v, h),
        DrawOp::CubicTo(v, h1, h2) => OpView::CubicTo(v, h1, h2),
        DrawOp::ClosePath => OpView::ClosePath,
        DrawOp::SetShadow(s) => OpView::SetShadow(s),
        DrawOp::ClearShadow => OpView::ClearShadow,
        DrawOp::SetStroke(s) => OpView::SetStroke(stroke_model(s)),
        DrawOp::StrokePath => OpView::StrokePath,
        DrawOp::SetFill(f) => OpView::SetFill(fill_model(f)),
        DrawOp::FillPath => OpView::FillPath,
    }
}

pub open spec fn ops_model(s: Seq<DrawOp>) -> Seq<OpView>
    decreases s,
{
    if s.len() == 0 {
        Seq::empty()
    } else {
        ops_model(s.drop_last()).push(op_model(s.last()))
    }
}

pub open spec fn path_model(p: Path) -> PathView {
    PathView {
        orientation: p.orientation,
        segments: p.segments@,
        closed: p.closed,
        fill: match p.fill {
            Some(f) => Some(fill_model(f)),
            None => None,
        },
        stroke: match p.stroke {
            Some(s) => Some(stroke_model(s)),
            None => None,
        },
        shadow: p.shadow,
    }
}

pub open spec fn paths_model(s: Seq<Path>) -> Seq<PathView> {
    s.map_values(|p: Path| path_model(p))
}

/// A path is well formed when its orientation can be composed exactly.
pub open spec fn path_wf(p: PathView) -> bool {
    transform_wf(p.orientation)
}

// ---------------------------------------------------------------------------
// Scene objects.
// ---------------------------------------------------------------------------

/// A fixed paintable unit: an orientation and the paths drawn under it.
#[derive(Clone, Debug, PartialEq)]
pub struct StaticObject2D {
    pub orientation: Transform2D,
    pub content: Vec<Path>,
}

/// A source of paths recomputed on every traversal: animation, procedural
/// content, or another frame rendered to an image. Implementations report an
/// orientation and a list of paths for the current tick; both are pinned by
/// the implementation's own spec functions, so the rendering contract stays
/// exact over dynamic content.
pub trait DynamicObject2D: Sized {
    /// Whether the object can currently produce content.
    spec fn ready(&self) -> bool;

    /// The orientation the object reports for the current tick.
    spec fn current_orientation(&self) -> Transform2D;

    /// The paths the object produces for the current tick.
    spec fn current_paths(&self) -> Seq<PathView>;

    fn orientation(&self) -> (r: Transform2D)
        requires
            self.ready(),
        ensures
            r == self.current_orientation(),
            transform_wf(r),
    ;

    fn render(&self) -> (r: Vec<Path>)
        requires
            self.ready(),
        ensures
            paths_model(r@) == self.current_paths(),
            forall|i: int| 0 <= i < r@.len() ==> path_wf(#[trigger] path_model(r@[i])),
    ;
}

/// A dynamic source that never produces content; the degenerate capability.
pub struct Still;

impl DynamicObject2D for Still {
    open spec fn ready(&self) -> bool {
        true
    }

    open spec fn current_orientation(&self) -> Transform2D {
        crate::geometry::identity_transform()
    }

    open spec fn current_paths(&self) -> Seq<PathView> {
        Seq::empty()
    }

    fn orientation(&self) -> (r: Transform2D) {
        Transform2D::identity()
    }

    fn render(&self) -> (r: Vec<Path>) {
        let r: Vec<Path> = Vec::new();
        proof {
            assert(paths_model(r@) =~= Seq::<PathView>::empty());
        }
        r
    }
}

/// A paintable unit of a frame: either fixed content or a per-tick source.
pub enum Object2D<D: DynamicObject2D> {
    Static(StaticObject2D),
    Dynamic(D),
}

/// The orientation and path models an object contributes to a traversal.
pub open spec fn object_model<D: DynamicObject2D>(o: Object2D<D>) -> (Transform2D, Seq<PathView>) {
    match o {
        Object2D::Static(s) => (s.orientation, paths_model(s.content@)),
        Object2D::Dynamic(d) => (d.current_orientation(), d.current_paths()),
    }
}

pub open spec fn object_wf<D: DynamicObject2D>(o: Object2D<D>) -> bool {
    match o {
        Object2D::Static(s) => transform_wf(s.orientation) && forall|i: int|
            0 <= i < s.content@.len() ==> path_wf(#[trigger] path_model(s.content@[i])),
        Object2D::Dynamic(d) => d.ready(),
    }
}

// ---------------------------------------------------------------------------
// Sharing helpers: draw operations carry their own paint descriptors, built
// from the scene's without copying image content.
// ---------------------------------------------------------------------------

/// Relies on std's `Rc::clone`: the clone is another handle to the same
/// allocation, so it holds the very same image.
#[verifier::external_body]
fn share_image(img: &Rc<Image>) -> (r: Rc<Image>)
    ensures
        r == *img,
{
    Rc::clone(img)
}

fn clone_stops(stops: &Vec<GradientStop>) -> (r: Vec<GradientStop>)
    ensures
        r@ == stops@,
{
    let mut r: Vec<GradientStop> = Vec::new();
    let mut i: usize = 0;
    while i < stops.len()
        invariant
            i <= stops@.len(),
            r@ == stops@.take(i as int),
        decreases stops@.len() - i,
    {
        r.push(stops[i]);
        proof {
            assert(stops@.take(i as int).push(stops@[i as int]) =~= stops@.take(i as int + 1));
        }
        i = i + 1;
    }
    proof {
        assert(stops@.take(stops@.len() as int) =~= stops@);
    }
    r
}

/// A texture with the same model: colors and geometry are copied, image
/// handles are shared.
pub fn share_texture(t: &Texture) -> (r: Texture)
    ensures
        texture_model(r) == texture_model(*t),
{
    match t {
        Texture::Solid(c) => Texture::Solid(*c),
        Texture::LinearGradient(g) => Texture::LinearGradient(
            LinearGradient { start: g.start, end: g.end, stops: clone_stops(&g.stops) },
        ),
        Texture::RadialGradient(g) => Texture::RadialGradient(
            RadialGradient {
                start: g.start,
                start_radius: g.start_radius,
                end: g.end,
                end_radius: g.end_radius,
                stops: clone_stops(&g.stops),
            },
        ),
        Texture::Image(img) => Texture::Image(share_image(img)),
    }
}

pub fn share_fill(f: &Fill) -> (r: Fill)
    ensures
        fill_model(r) == fill_model(*f),
{
    Fill { content: share_texture(&f.content) }
}

pub fn share_stroke(s: &Stroke) -> (r: Stroke)
    ensures
        stroke_model(r) == stroke_model(*s),
{
    Stroke { content: share_texture(&s.content), width: s.width, cap: s.cap, join: s.join }
}

// ---------------------------------------------------------------------------
// Facts about `ops_model` that traversal proofs lean on.
// ---------------------------------------------------------------------------

pub proof fn lemma_ops_model_push(s: Seq<DrawOp>, op: DrawOp)
    ensures
        ops_model(s.push(op)) == ops_model(s).push(op_model(op)),
{
    assert(s.push(op).drop_last() =~= s);
    assert(s.push(op).last() == op);
}

} // verus!
