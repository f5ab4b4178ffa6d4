//! Core logic of a native-side backend dispatcher for a desktop application.
//!
//! The library covers everything that decides or computes: percent-decoding
//! and request-line parsing for a tiny loopback HTTP endpoint, response
//! building, selection of the backend artifact (packaged binary or script
//! with interpreter) together with its command-line arguments, normalization
//! of user-chosen paths to directories, and the state machine that provisions
//! the backup directory with its system-wide/per-user fallback.  The
//! surrounding process performs the filesystem probes, the child-process
//! launches and the socket I/O, and feeds their outcomes back in as plain
//! values.

pub mod backup;
pub mod decode;
pub mod dispatch;
pub mod paths;
pub mod payload;
pub mod request;
pub mod response;
pub mod text;
