//! A terminal cell-grid renderer. Styled cells live in fixed-size
//! row-major buffers with two verified composition algorithms (merge
//! at a linear position, push at a carried origin); widgets with a
//! uniform lifecycle draw into such buffers; and a render-loop host
//! composes the active widget's buffer into the screen each frame,
//! emitting draw commands only for the cells that changed since the
//! previous frame.

pub mod buffer;
pub mod character;
pub mod colours;
pub mod clock;
pub mod dashboard_widget;
pub mod git_widget;
pub mod host;
pub mod todo_widget;
pub mod utils;
pub mod widget;
mod rng;
