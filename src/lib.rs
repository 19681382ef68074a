//! Request logic of a small container demonstration service: uptime
//! tracking, probe payloads, a deliberately naive Fibonacci load generator,
//! the environment whitelist of the info page, metrics exposition, the
//! landing page, the crash trigger and the listening-port setting.
pub mod clock;
pub mod crash;
pub mod decimal;
pub mod environment;
pub mod fib;
pub mod health;
pub mod info;
pub mod landing;
pub mod metrics;
