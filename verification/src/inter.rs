//! The shared capability traits of all indicators.
//!
//! Contracts live on the implementations: each indicator type states
//! exactly what its renders write. The traits themselves only fix the
//! shared surface, so callers can write their own styles against it.

use vstd::prelude::*;
use crate::output::{stdout_print_line, stderr_print_line};

verus! {

/// A trait for all bars' displaying.
pub trait Display {
    /// Refresh the display.
    fn refresh(&mut self);

    /// Blank the display.
    fn blank(&mut self);

    /// Blank, print a line to standard output, and redisplay: log output
    /// scrolls past while the indicator appears to float below it.
    fn println(&mut self, string: &str) {
        self.blank();
        stdout_print_line(string);
        self.refresh();
    }

    /// Blank, print a line to standard error, and redisplay.
    fn eprintln(&mut self, string: &str) {
        self.blank();
        stderr_print_line(string);
        self.refresh();
    }

    /// Get the title for this display.
    fn get_title(&self) -> &str;

    /// Set the title for this display.
    fn set_title(&mut self, from: &str);

    /// Update the maximum render width, for indicators that are sized.
    fn update_dimensions(&mut self, to: usize);
}

/// A trait for any bar with progress. You can implement your own styles
/// through this trait.
///
/// Progress is a fixed-point fraction: `crate::PROGRESS_SCALE` stands for
/// 100%, one unit for a hundredth of a percent.
pub trait ProgressBar: Display {
    /// Report completion.
    fn set_progress(&mut self, value: u32);

    /// Current completion.
    fn get_progress(&self) -> u32;
}

/// A trait for any bar without progress. You can implement your own styles
/// through this trait.
pub trait Spinner: Display {
    /// Cause the spinner to increment once.
    fn bump(&mut self);
}

/// A trait for creating a progress bar or spinner with a title.
pub trait WithTitle: Sized + Display {
    /// Add a title to this indicator.
    fn with_title(self, string: &str) -> Self {
        let mut this = self;
        this.add_title(string);
        this
    }

    /// Add a title to this indicator.
    fn add_title(&mut self, string: &str);

    /// Recompute any cached render state.
    fn update(&mut self);

    /// Consume and finish the indicator.
    fn complete(self);
}

} // verus!
