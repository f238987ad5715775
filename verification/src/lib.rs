//! The decisions of the Nanuak dictionary workspace tool.
//!
//! The tool keeps a workspace of numbered versions (`v1`, `v2-name`, ...),
//! creates a new version from a template version, and walks the user
//! through a small state machine.  Everything that reads the terminal or the
//! file system happens outside this crate: the state machines here take the
//! answers as events and say what to do next as commands.
pub mod lexical;
pub mod text;
pub mod paths;
pub mod versions;
pub mod cargo_toml;
pub mod effects;
pub mod create_new_version_state;
pub mod define_word_state;
pub mod state;
pub mod create_new_version;
pub mod action;
pub mod runs;
