//! Small self-contained helpers: arithmetic, string editing, and the pure
//! name and path rules for the files under the user's SSH directory.

pub mod data_parsing;
pub mod files;
pub mod math;
pub mod strings;
pub mod textarea_state;
