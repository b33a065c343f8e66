//! A backend-agnostic retained-mode 2D scene graph with a deterministic
//! rendering contract.
//!
//! The library holds the data model for vector paths, paint (fill, stroke,
//! shadow, gradients, images) and affine transforms, the traversal algorithm
//! that turns a scene into a sequence of primitive draw operations, and the
//! scheduling step that reconciles output size and viewport on host frame
//! ticks. Concrete backends consume the emitted operations; they live outside
//! this crate.

pub mod context;
pub mod geometry;
pub mod interaction;
pub mod paint;
pub mod render;
pub mod resource;
pub mod vessel;
pub mod scene;

pub use context::Graphics;
pub use context::ObserverCell;
pub use context::TickOutcome;
pub use context::new;
pub use geometry::Rect2D;
pub use geometry::Transform2D;
pub use geometry::Vec2D;
pub use paint::Color;
pub use paint::GradientStop;
pub use paint::Shadow;
pub use paint::StrokeCapType;
pub use paint::StrokeJoinType;
pub use render::DrawError;
pub use render::Frame;
pub use render::ObjectHandle;
pub use resource::Resource;
pub use resource::ResourceError;
pub use resource::SimpleResourceManager;
pub use scene::DrawOp;
pub use scene::DynamicObject2D;
pub use scene::Fill;
pub use scene::Image;
pub use scene::Object2D;
pub use scene::Path;
pub use scene::Segment;
pub use scene::StaticObject2D;
pub use scene::Still;
pub use scene::Stroke;
pub use scene::Texture;
pub use vessel::VesselEntry;
pub use vessel::VesselReader;
pub use vessel::VesselWriter;
pub use vessel::_vessel_entry_construct;
