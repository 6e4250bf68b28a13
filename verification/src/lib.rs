//! Multi-level compiler messages for procedural macros, carried in a `Result`-like
//! type: a valid value, a valid value with a warning, or an error.
//!
//! - Top-level messages are errors or warnings.
//! - Only helps and notes can be attached to them, and nothing to those in turn.
//! - An error spans the macro call site; a message that spans neither the call
//!   site nor has anything attached that does gets a note at the call site when
//!   it goes to the compiler.

pub mod diagnostic;
pub mod level;
pub mod prelude;
pub mod result;
pub mod span;

pub use diagnostic::Diagnostic;
pub use level::Level;
pub use result::{error, ok, warn_spanned, DiagnosticResult, DiagnosticResultKind, Outcome, Step};
pub use span::{LineColumn, MultiSpan, SpanLocation};
