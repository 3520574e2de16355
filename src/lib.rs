//! Keeps group ownership and permission bits consistent below a watched
//! directory: the decisions of the watch loop, the suppression of the echoes
//! of its own writes, and the writes that each entry needs, with their
//! contracts. The caller performs the file-system calls and reports back.

pub mod dispatcher;
pub mod enforcer;
pub mod mode;
pub mod suppression;
