//! Small helpers shared by the option resolvers.

pub mod diagnostic;
pub mod outcome;
pub mod present;
pub mod text;

pub use diagnostic::{Diagnostic, DiagnosticView};
pub use present::{ensure_not_present, IsPresent};
