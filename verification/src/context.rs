//! The animation and resize scheduler: the per-tick step that reconciles
//! output size and viewport and redraws the root frame.
//!
//! The host drives the loop: it calls [`Graphics::tick`] at its display
//! cadence, delivers resize notifications through [`Graphics::notify_resize`]
//! and applies the operations each tick emits. On a tick that observes a
//! pending resize, the root frame is resized and its viewport reset to the
//! full new output — no independent zoom state survives a resize.

use vstd::prelude::*;

use crate::geometry::PIXEL_RATIO_LIMIT;
use crate::geometry::Rect2D;
use crate::geometry::Vec2D;
use crate::geometry::vec2_wf;
use crate::render::DrawError;
use crate::render::Frame;
use crate::render::frame_ops;
use crate::render::frame_wf;
use crate::render::viewport_drawable;
use crate::scene::DrawOp;
use crate::scene::DynamicObject2D;
use crate::scene::ops_model;

verus! {

/// A single dirty-tracked cell: an external resize notification writes it,
/// the scheduler reads it back with a read-and-clear accessor.
pub struct ObserverCell {
    pub value: Vec2D,
    pub dirty: bool,
}

impl ObserverCell {
    pub fn new(value: Vec2D) -> (r: ObserverCell)
        ensures
            r == (ObserverCell { value, dirty: false }),
    {
        ObserverCell { value, dirty: false }
    }

    /// Record a new value and mark it unread.
    pub fn set(&mut self, value: Vec2D)
        ensures
            *final(self) == (ObserverCell { value, dirty: true }),
    {
        self.value = value;
        self.dirty = true;
    }

    /// Read the value and clear the dirty mark.
    pub fn get(&mut self) -> (v: Vec2D)
        ensures
            v == old(self).value,
            *final(self) == (ObserverCell { value: old(self).value, dirty: false }),
    {
        self.dirty = false;
        self.value
    }

    pub fn is_dirty(&self) -> (d: bool)
        ensures
            d == self.dirty,
    {
        self.dirty
    }
}

/// The top-level context: at most one root frame shown at a time, plus the
/// dirty-tracked output size the host reports resizes into.
pub struct Graphics<D: DynamicObject2D> {
    pub root_frame: Option<Frame<D>>,
    pub size: ObserverCell,
    pub pixel_ratio: i64,
}

pub open spec fn graphics_wf<D: DynamicObject2D>(g: Graphics<D>) -> bool {
    &&& match g.root_frame {
        Some(f) => frame_wf(f),
        None => true,
    }
    &&& vec2_wf(g.size.value)
    &&& 0 <= g.size.value.x
    &&& 0 <= g.size.value.y
    &&& 1 <= g.pixel_ratio <= PIXEL_RATIO_LIMIT
}

/// What one tick produced: nothing to do, a traversal's operations, or the
/// error that made the traversal fail. A failed traversal never stops the
/// loop; the next tick is attempted regardless.
pub enum TickOutcome {
    Idle,
    Drawn(Vec<DrawOp>),
    Failed(DrawError),
}

/// The root frame as a tick leaves it: untouched when no resize is pending,
/// otherwise resized to the pending size with the viewport reset to the
/// full output.
pub open spec fn reconciled<D: DynamicObject2D>(f: Frame<D>, size: Vec2D, dirty: bool) -> Frame<
    D,
> {
    if dirty {
        Frame {
            size,
            device_size: Vec2D {
                x: (size.x * f.pixel_ratio) as i64,
                y: (size.y * f.pixel_ratio) as i64,
            },
            viewport: Rect2D { position: Vec2D { x: 0, y: 0 }, size },
            ..f
        }
    } else {
        f
    }
}

/// A fresh context with no root frame, a clean zero size and pixel ratio
/// one.
pub fn new<D: DynamicObject2D>() -> (g: Graphics<D>)
    ensures
        g.root_frame is None,
        g.size == (ObserverCell { value: Vec2D { x: 0, y: 0 }, dirty: false }),
        g.pixel_ratio == 1,
        graphics_wf(g),
{
    Graphics {
        root_frame: None,
        size: ObserverCell::new(Vec2D { x: 0, y: 0 }),
        pixel_ratio: 1,
    }
}

impl<D: DynamicObject2D> Graphics<D> {
    /// Adopt the pixel ratio the host reports for its output.
    pub fn set_pixel_ratio(&mut self, ratio: i64)
        requires
            graphics_wf(*old(self)),
            old(self).root_frame is None,
            1 <= ratio <= PIXEL_RATIO_LIMIT,
        ensures
            final(self).pixel_ratio == ratio,
            final(self).root_frame == old(self).root_frame,
            final(self).size == old(self).size,
            graphics_wf(*final(self)),
    {
        self.pixel_ratio = ratio;
    }

    /// A fresh, empty frame carrying this context's pixel ratio.
    pub fn frame(&self) -> (f: Frame<D>)
        requires
            graphics_wf(*self),
        ensures
            f.contents@.len() == 0,
            f.pixel_ratio == self.pixel_ratio,
            frame_wf(f),
            f.viewport == (Rect2D {
                position: Vec2D { x: 0, y: 0 },
                size: Vec2D { x: 0, y: 0 },
            }),
            f.size == (Vec2D { x: 0, y: 0 }),
    {
        Frame::new(self.pixel_ratio)
    }

    /// Attach a root frame; done exactly once. The host shows the frame's
    /// output and starts calling [`Graphics::tick`].
    pub fn run(&mut self, root: Frame<D>)
        requires
            graphics_wf(*old(self)),
            frame_wf(root),
            old(self).root_frame is None,
        ensures
            final(self).root_frame == Some(root),
            final(self).size == old(self).size,
            final(self).pixel_ratio == old(self).pixel_ratio,
            graphics_wf(*final(self)),
    {
        self.root_frame = Some(root);
    }

    /// The resize notifier's entry point: record the new logical output
    /// size and mark it pending for the next tick.
    pub fn notify_resize(&mut self, size: Vec2D)
        requires
            graphics_wf(*old(self)),
            vec2_wf(size),
            0 <= size.x,
            0 <= size.y,
        ensures
            final(self).size == (ObserverCell { value: size, dirty: true }),
            final(self).root_frame == old(self).root_frame,
            final(self).pixel_ratio == old(self).pixel_ratio,
            graphics_wf(*final(self)),
    {
        self.size.set(size);
    }

    /// One scheduler tick. With no root frame it does nothing. Otherwise it
    /// first reconciles a pending resize — the root frame takes the pending
    /// size and its viewport is reset to the full output, whatever it was
    /// before — and then draws the root frame, reporting the traversal's
    /// operations or its error.
    pub fn tick(&mut self) -> (r: TickOutcome)
        requires
            graphics_wf(*old(self)),
        ensures
            graphics_wf(*final(self)),
            final(self).pixel_ratio == old(self).pixel_ratio,
            old(self).root_frame is None ==> r is Idle && *final(self) == *old(self),
            old(self).root_frame matches Some(f0) ==> {
                let f1 = reconciled(f0, old(self).size.value, old(self).size.dirty);
                &&& final(self).root_frame == Some(f1)
                &&& final(self).size == (ObserverCell {
                    value: old(self).size.value,
                    dirty: false,
                })
                &&& (r is Drawn <==> viewport_drawable(f1))
                &&& (r matches TickOutcome::Drawn(ops) ==> ops_model(ops@) == frame_ops(f1))
                &&& (r is Failed <==> !viewport_drawable(f1))
            },
            old(self).root_frame is Some && old(self).size.dirty ==> final(self).root_frame
                ->Some_0.viewport == (Rect2D {
                position: Vec2D { x: 0, y: 0 },
                size: old(self).size.value,
            }),
    {
        let taken = self.root_frame.take();
        match taken {
            Some(mut f) => {
                if self.size.is_dirty() {
                    let size = self.size.get();
                    f.resize(size);
                    f.set_viewport(Rect2D { position: Vec2D { x: 0, y: 0 }, size });
                }
                let out = match f.draw_ops() {
                    Ok(ops) => TickOutcome::Drawn(ops),
                    Err(e) => TickOutcome::Failed(e),
                };
                self.root_frame = Some(f);
                out
            },
            None => TickOutcome::Idle,
        }
    }
}

} // verus!
