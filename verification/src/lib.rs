//! A bridge that carries log events from native code to a callback owned by a
//! managed host runtime.
//!
//! The crate holds the decisions of that bridge: how a log record becomes the
//! line that is delivered, which filter configuration wins, which backend is
//! installed, how an event is marshalled for the host method, and how a
//! delivery proceeds step by step when the host's function tables are used
//! directly. Talking to the host runtime and to the process (environment,
//! standard streams, the global logger) is left to the caller.

pub mod level;
pub mod filter;
pub mod logging;
pub mod greeting;
pub mod util;
pub mod callback;
pub mod status;
pub mod delivery;
