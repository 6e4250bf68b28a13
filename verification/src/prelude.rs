//! The items a macro implementation needs, for one `use` item.

pub use crate::result::{error, ok, warn_spanned, DiagnosticResult};
