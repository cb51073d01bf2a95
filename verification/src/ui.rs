//! The state behind the terminal interface and what each key does to it.

pub mod app;
pub mod events;

pub use app::App;
pub use app::AppMode;
pub use app::Pane;
pub use events::handle_key_event;
pub use events::AppEvent;
pub use events::Key;
