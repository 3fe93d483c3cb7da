//! Native shell logic of a desktop image-comparison application: the static
//! application menu, the splash-to-main window transition, the dispatch of
//! menu-action identifiers to front-end events, and the rebuild of the
//! recent-files submenu.

pub mod dispatch;
pub mod menu;
pub mod shell;
pub mod text;
pub mod windows;

pub use dispatch::MenuAction;
pub use dispatch::dispatch_menu_action;
pub use menu::AboutMetadata;
pub use menu::MenuEntry;
pub use menu::MenuTree;
pub use menu::app_menu;
pub use menu::build_recent_entries;
pub use menu::menu_with_recent;
pub use shell::Shell;
pub use text::recent_action_id;
pub use text::u64_to_dec;
pub use windows::FatalError;
pub use windows::ShellWindows;
pub use windows::WindowState;
