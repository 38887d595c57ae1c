//! The commands that the embedded interface invokes.
//!
//! A command that needs the windowing system comes in two halves. The first
//! decides, from the open windows and what the settings say, which window to
//! create and which to close: a plan. The host creates the window, and the
//! second half takes its answer and brings the registry up to date.

pub mod system;
pub mod validation;
pub mod window;

pub use self::system::get_total_memory_gb;
pub use self::validation::validate_key;
pub use self::window::{finish, initialize_app, load_window, show_main, show_window};
