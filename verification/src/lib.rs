use vstd::prelude::*;

pub mod format;
pub mod progress;

pub use progress::{ProgressBar, RenderPlan};

verus! {

/// Width of the textual bar, in glyph cells.
pub const PROGRESS_BAR_WIDTH: usize = 50;

} // verus!
