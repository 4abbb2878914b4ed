//! A program with one instruction, `initialize`. The instruction takes no
//! accounts, writes one greeting that names the program by its own address,
//! and succeeds.
//!
//! Nothing here performs input or output: a call is plain values, and the
//! greeting is added to a log that the caller owns and passes in.

pub mod address;
pub mod context;
pub mod identity;
pub mod program;

pub use address::Address;
pub use context::{Context, ErrorKind, Initialize};
pub use identity::{check_id, id, ID_BYTES};
pub use program::{entry, greeting_line, initialize, GREETING_WORDS};
