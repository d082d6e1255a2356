//! Decision logic of a desktop "caffeine" applet: it keeps the session awake
//! on request, and lets go of that request when the battery runs low or the
//! laptop lid is closed.

pub mod text;
pub mod applet;
pub mod battery;
pub mod desktop;
pub mod laws;
pub mod lid;
pub mod locale;

pub use applet::{CaffeineApplet, Effect, Inhibitor, Message, Notice};
pub use battery::BatteryStatus;
pub use desktop::{CaffeineIcon, Poll, WaylandGlobal, WaylandStep};
pub use lid::LidState;
pub use locale::{Language, Locale, Translations};
