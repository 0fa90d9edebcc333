//! An incremental parsing session over tree-sitter grammars: it keeps the
//! current grammar, the last syntax tree and the current source text, applies
//! byte-range edits to them, and flattens each new tree into highlight spans.

pub mod edit;
pub mod error;
pub mod highlight;
pub mod language;
pub mod session;
pub mod tree;

pub use edit::DiffRange;
pub use error::TSBridgeError;
pub use highlight::{Highlight, SyntaxNode};
pub use language::TSLang;
pub use session::TSBridge;
