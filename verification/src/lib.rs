//! A picker for named kitty sessions: the rules for session names, how names
//! reach kitty's command line and match expressions, which session files are
//! listed, and the decisions of each picker operation (open, create, rename,
//! delete, and going to a tab outside every session).
//!
//! The operations talk to kitty and to the file system through requests
//! ([`flow::Effect`]) that the caller carries out and answers
//! ([`flow::Event`]); every decision in between is made here.
pub mod chars;
pub mod create;
pub mod delete;
pub mod flow;
pub mod goto;
pub mod kitty;
pub mod listing;
pub mod names;
pub mod picker;
pub mod rename;
pub mod snapshot;
pub mod tabs;
pub mod text;

pub use create::create_session;
pub use delete::delete_session;
pub use flow::{fatal, show_message};
pub use goto::goto_session;
pub use kitty::{quote_action_arg, regex_escape, session_match};
pub use listing::{list_sessions, session_dir};
pub use names::{session_filename, validate_session_name, NO_SESSION};
pub use rename::rename_session;
pub use tabs::goto_no_session;
