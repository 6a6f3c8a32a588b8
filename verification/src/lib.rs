//! The decision logic of the cce widget gallery: what each child-window kind is called
//! and how it is configured, how a launch is read from its arguments, the bevel ramp
//! file the Ramp editor writes and reads, and which roster slot an event or a query
//! reaches.
pub mod text;
pub mod child_kind;
pub mod ramp_file;
pub mod ramp_laws;
pub mod slots;
pub mod dispatch;
pub mod launch;
pub mod window;

pub use child_kind::ChildKind;
pub use slots::{is_exhibit, is_overlay, Visibility, GALLERY_COUNT, CHILD_COUNT};
pub use launch::spawn_editor;
