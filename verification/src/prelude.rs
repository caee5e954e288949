//! The names that a caller of this crate usually wants in scope.

pub use crate::error::Result as TEResult;
pub use crate::error::{Context, DefaultError, IntoTError, TError};
