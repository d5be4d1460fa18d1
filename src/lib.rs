//! A batch engine that downloads images to local files. The library holds
//! its decisions: which failures are worth another attempt, how long to wait,
//! when a task or a pass is over, whether a file is an acceptable image, what
//! cookie a request carries and which proxies the client uses.
pub mod error;
pub mod content;
pub mod backoff;
pub mod retry;
pub mod cookie;
pub mod proxy;
