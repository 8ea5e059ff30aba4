//! Bootstrap of a GPU rendering context: the choice of a physical accelerator
//! and of its queue families, and the ordered acquisition and release of the
//! graphics API's handles around that choice.
pub mod error;
pub mod lifecycle;
pub mod selector;
pub mod version;
