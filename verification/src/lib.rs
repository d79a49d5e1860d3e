//! Verified core of the opencode runtime: control-plane routing, session
//! runtime bookkeeping and storage-side rule handling.

pub mod bus;
pub mod control_plane;
pub mod dto;
pub mod errors;
pub mod ids;
pub mod json;
pub mod keyed;
pub mod seqs;
pub mod server;
pub mod session;
pub mod storage;
pub mod text;
