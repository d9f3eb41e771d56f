//! Message dispatch, document tracking and completion-context classification
//! for a language server of the LC-3 assembly dialect.

pub mod completion;
pub mod diagnostics;
pub mod dispatcher;
pub mod lsp;
pub mod parser;
pub mod store;
pub mod text;
