//! An adapter from a callable to `Display` and `Debug`.
//!
//! [`debug_fn`] wraps any `Fn(&mut Formatter<'_>) -> fmt::Result` in a [`DebugFn`]. Rendering
//! the adapter, with `{}` or with `{:?}`, is one call of that callable on the formatter that
//! the rendering was given, and the callable's result is the rendering's result. The adapter
//! adds no text, no state and no failure of its own.
//!
//! ```
//! use core::fmt::{self, Formatter};
//! use debug_fn::debug_fn;
//!
//! fn salute(f: &mut Formatter<'_>, name: Option<&str>) -> fmt::Result {
//!     match name {
//!         Some(name) => {
//!             f.write_str("dear ")?;
//!             f.write_str(name)
//!         }
//!         None => f.write_str("dear reader"),
//!     }
//! }
//!
//! assert_eq!(format!("To {}", debug_fn(|f| salute(f, Some("Ada")))), "To dear Ada");
//! assert_eq!(format!("To {:?}", debug_fn(|f| salute(f, None))), "To dear reader");
//! ```
//!
//! - [`sink`] declares the formatter to the verifier.
//! - [`adapter`] holds the adapter, its constructor and its two renderings, each with its
//!   contract.
//! - [`laws`] proves what follows for every adapter: that a rendering is a call of the callable,
//!   that it writes what the callable writes, fails as the callable fails, and gives the same
//!   again when the callable does.

pub mod adapter;
pub mod laws;
pub mod sink;

pub use adapter::{accepts_every_sink, debug_fn, DebugFn};
