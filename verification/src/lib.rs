//! A persistent, multi-session remote terminal server, apart from its input and output.
//!
//! Sessions, operations on them and connections to them are state machines: the
//! functions here decide what happens, and the program around them makes it happen.

pub mod api;
pub mod args;
pub mod bookkeeping;
pub mod column;
pub mod conduct;
pub mod connection;
pub mod conversation;
pub mod history;
pub mod keeping;
pub mod keyboard;
pub mod lifecycle;
pub mod operation;
pub mod payload;
pub mod process;
pub mod proto;
pub mod record;
pub mod session;
pub mod session_id;
pub mod sql;
pub mod storage;
pub mod text;
pub mod timestamp;
pub mod undertaking;
