//! Progress bars and spinners for command-line programs.
//!
//! A caller reports fractional completion or "still working" ticks, and the
//! library renders a single updating line to an output sink, erasing and
//! redrawing in place so the indicator animates without scrolling.

use vstd::prelude::*;

pub mod digits;
pub mod inter;
pub mod output;
pub mod prelude;
pub mod progress;
pub mod silent;
pub mod spinner;
pub mod wheel;
pub mod util;

pub use inter::Display;
pub use inter::ProgressBar;
pub use inter::Spinner;
pub use inter::WithTitle;
pub use util::copy_slice;

verus! {

/// Scale of the fixed-point progress values used throughout the crate:
/// a progress of `PROGRESS_SCALE` means 100%, so one unit is one
/// hundredth of a percent.
pub const PROGRESS_SCALE: u32 = 10_000;

/// Whether standard output has a terminal whose size can be queried, so
/// that bars can be fitted to it. The answer depends on the environment
/// alone.
pub fn has_terminal_output_default() -> bool {
    output::query_terminal_size().is_some()
}

} // verus!
