//! The prelude exposes the traits for spinners and progress bars, and the
//! `spinner::Spin`, `progress::Bar` and `silent::Silent` types, for easy
//! access and use.

pub use crate::inter::Display;
pub use crate::inter::ProgressBar;
pub use crate::inter::Spinner;
pub use crate::inter::WithTitle;
pub use crate::progress::Bar;
pub use crate::silent::Silent;
pub use crate::spinner::Spin;
