//! Command handlers behind a desktop window's front-end: a greeting, the
//! window's click-through, opacity and always-on-top flags, a system
//! notification, and the decisions taken when the application starts.
//!
//! The windowing and notification toolkits are reached by the host program;
//! this library decides what is asked of them and what is reported back.

pub mod greeting;
pub mod notification;
pub mod reply;
pub mod startup;
pub mod window;

pub use greeting::greet;
pub use notification::{after_build, after_show, NotificationStep};
pub use reply::{error_message, reply};
pub use startup::{settle_startup, startup_action, StartupAction};
pub use window::{check, WindowCommand, WindowFlags};
