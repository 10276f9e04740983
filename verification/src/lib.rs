//! Core of a clipboard-history agent: a bounded history of captured text,
//! JSON persistence of that history, a listening toggle, key-chord detection,
//! debounced capture decisions, menu projection and control dispatch.

pub mod capture;
pub mod dispatch;
pub mod history;
pub mod ids;
pub mod keys;
pub mod listening;
pub mod menu;
pub mod persist;

pub use history::HistoryStore;
pub use history::add_to_clipboard_history;
pub use menu::create_tray_menu;
pub use persist::load_history;
pub use persist::save_history;
