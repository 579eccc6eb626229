//! Front end of a small C-like toy language compiler, verified with Verus.
//!
//! The grammar of the language is written down once, as a mathematical
//! parser over token sequences (`grammar`); the executable parser
//! (`parser`) carries contracts that pin its results, token movement and
//! error messages to that grammar.  `token` and `ast` hold the data model
//! with its ghost mirrors, `error` renders diagnostics with a source
//! snippet, and `text` assembles pinned character buffers.

pub mod ast;
pub mod error;
pub mod grammar;
pub mod ir;
pub mod parser;
pub mod text;
pub mod token;
