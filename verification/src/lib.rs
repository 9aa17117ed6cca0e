//! Verified core of an OpenGL context manager.
//!
//! The crate decides; a native layer acts. Every call into a driver is
//! described by a [`protocol::Request`], and what the driver answered by a
//! [`protocol::Reply`]. The state machines in [`context`] turn replies into
//! the next request, so that the order of native calls, the candidates that
//! are tried and the moment at which construction is given up are all fixed
//! here and proved against their specifications.
//!
//! - [`protocol`]: requests and replies.
//! - [`egl`], [`pixel_format`]: the priority lists, attribute lists and the
//!   pixel format that are asked of a driver, and the EGL binding.
//! - [`context`]: construction, use and release of a context.
//! - [`library`], [`loader`]: shared libraries and the table of graphics
//!   entry points.
//! - [`manager`]: a context together with its table.
//! - [`ledger`]: what a native layer holds, and the proofs that a context
//!   is current when it is handed out and leaves nothing behind when it is
//!   released.

pub mod context;
pub mod egl;
pub mod ledger;
pub mod library;
pub mod loader;
pub mod manager;
pub mod pixel_format;
pub mod protocol;
