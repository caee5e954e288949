//! Error propagation with one primary, matchable error type per function,
//! over a type-erased chain that absorbs every other failure.
//!
//! A function declares the error that its callers should match on as the tag
//! of a [`TError`]. Whatever else goes wrong on the way is carried in the same
//! container, with the context frames attached while it travelled up, and can
//! still be recovered by downcast or folded into a catch-all variant.
//!
//! * [`chain`] holds the dynamic error chain: a root cause of erased type
//!   under frames of plain text, with its summary and its full listing.
//! * [`TError`] tags a chain with the primary error type. `try_get`, `get_ref`
//!   and `get` recover a value of that type; `downcast` and `downcast_ref`
//!   recover any other; `context` attaches a frame; `change_err` changes the
//!   tag and nothing else.
//! * [`Context`] and [`IntoTError`] lead from a plain `Result` into a
//!   container; [`DefaultError`] is the catch-all rule that `get` falls back
//!   on.
//! * [`laws`] states what holds of every chain.
//!
//! The `?` operator erases a failure as it is: inside a function that returns
//! a `TError<MyError>`, an `io::Error` propagated with `?` becomes the root
//! cause as an `io::Error`, and `get` hands it to the catch-all rule. To have
//! it classified as the variant of `MyError` that it converts into, lift it
//! with `terror()` first.

pub mod chain;
mod error;
pub mod laws;
pub mod prelude;
pub(crate) mod private;

pub use error::{
    absorbs, converts, lemma_retag_round_trip, settles, Context, DefaultError, IntoTError, Result,
    TError,
};
