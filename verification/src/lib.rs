//! Launcher-side supervision of a local backend ("sidecar") process.
//!
//! The library holds the decision logic of a desktop launcher that starts one
//! backend process on an ephemeral port, polls its HTTP health endpoint until
//! it is ready, and terminates it when the window closes:
//!
//! * [`digits`] — verified decimal rendering of the port number;
//! * [`urls`] — the spawn arguments, health-check URL and navigation URL,
//!   all guaranteed to carry the same port;
//! * [`locator`] — resolution of the sidecar executable's path;
//! * [`poller`] — the health-polling state machine and its timeout rules;
//! * [`supervisor`] — the single owned slot for the child-process handle.
//!
//! All I/O (sockets, process spawning, HTTP requests, sleeping) stays outside
//! the library: callers perform it and feed the observed plain values back in.

pub mod digits;
pub mod locator;
pub mod poller;
pub mod supervisor;
pub mod urls;
