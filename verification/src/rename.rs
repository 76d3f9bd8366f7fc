//! Renaming of fields and variants.

pub mod rename;
pub mod rule;

pub use rename::Rename;
pub use rename::RenameView;
pub use rule::RenameRule;
