//! Structural navigation over the syntax nodes of a source file: which
//! constructs enclose a line, and a cursor that steps through them in order.

pub mod ast;
pub mod error;
pub mod navigator;
pub mod parser;

pub use ast::CodeNode;
pub use error::Error;
pub use navigator::Navigator;
pub use parser::Parser;
