//! Reconciles a local collection of named teleport groups with a remote catalog.

pub mod config;
pub mod error;
pub mod manager;
pub mod remote;
pub mod sync;
pub mod text;
pub mod types;
pub mod ui;

pub use error::TeleportError;
pub use manager::TeleportManager;
pub use types::KeyBind;
pub use types::MainWindow;
pub use types::PopoutGroupStates;
pub use types::Teleport;
pub use types::TeleportConfig;
pub use types::TeleportGroup;
