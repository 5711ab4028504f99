//! Building blocks of a task allocator and of the handle that runs a task.

pub mod layout;
pub mod runnable;
pub mod state;
pub mod utils;

pub use layout::{Layout, LayoutError};
pub use runnable::Runnable;
pub use utils::{extend, padding_needed_for};
