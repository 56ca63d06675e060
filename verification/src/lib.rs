//! probe-web core: the decisions of a probe-rs RPC client for browsers.
//!
//! Nothing here does I/O. A call on a client, session or core says which request is to be
//! made, or why it is refused; the reply is handed back, and says what the caller is
//! answered. What the two ends of the wire alone look into is carried through unread.
//!
//! - [`client`]: connecting, closing, attaching to a target.
//! - [`session`]: an attached target, and its RTT client.
//! - [`job`]: operations that take several requests.
//! - [`core_handle`]: one core of the target.
//! - [`monitor`]: what a running target says.
//! - [`ops`]: the requests themselves.
//! - [`stlink`]: which open failures mean an unclaimed ST-Link interface.
//! - [`symbols`]: symbol addresses in ELF images.
//! - [`rejection`]: what a refused request is answered with.
//! - [`laws`]: what every call promises of its result.
pub mod client;
pub mod core_handle;
pub mod job;
pub mod laws;
pub mod monitor;
pub mod ops;
pub mod rejection;
pub mod session;
pub mod stlink;
pub mod symbols;
