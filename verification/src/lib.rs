//! A minimal desktop application shell: the decisions behind its window
//! setup sequence, its drag-and-drop event forwarding, and its two request
//! handlers (a greeting formatter and the reply shaping of a file reader).
//!
//! The hosting window framework itself (window handles, event dispatch,
//! file I/O) lives outside this library; these modules hold the logic that
//! decides what the host does, stated and proved over plain values.

pub mod events;
pub mod file_read;
pub mod greeting;
pub mod startup;
