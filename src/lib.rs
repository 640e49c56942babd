//! Runtime failures of a JSON filter evaluator, and their messages.

pub mod decimal;
pub mod error;
pub mod laws;
pub mod provenance;
pub mod value;

pub use error::Error;
pub use provenance::commit_label;
pub use value::Show;
