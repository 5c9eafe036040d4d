//! Window/backend driver logic: window-target geometry, per-frame event
//! draining, resize/scale-change detection, and the frame-loop state machine
//! that a platform embedder drives against a real windowing and graphics
//! stack.

pub mod driver;
pub mod events;
pub mod geometry;
pub mod laws;

pub use driver::FrameRecord;
pub use driver::IterationInput;
pub use driver::LoopState;

pub use events::DrainOutcome;
pub use events::WindowEvent;

pub use geometry::AspectRatio;
pub use geometry::LogicalSize;
pub use geometry::PhysicalSize;
pub use geometry::ScaleFactor;
pub use geometry::WindowTargets;
