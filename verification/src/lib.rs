//! Link files of installed packages return what they require and nothing else, so the
//! types that the required module exports do not reach the user of the link. This
//! library finds the module behind a link in the sourcemap of the project, and gives the
//! link a new text that forwards the exported types of the module.
//!
//! - `sourcemap`: the tree of the project and the files behind its nodes.
//! - `require_parser`: the path that a link requires.
//! - `link_mutator`: the exported type declarations of a module, and the link that
//!   forwards them.
//! - `resolver`: the way from a link to the node and the file of its module.
//! - `command`: the work on one link step by step, and the outcome of a run.
//! - `syntax`: a parsed program, as far as a link and its module are read. The library
//!   parses no text itself: whoever calls it hands it what the parser gave.
//! - `text`, `error`: strings and failures.

pub mod command;
pub mod error;
pub mod link_mutator;
pub mod require_parser;
pub mod resolver;
pub mod sourcemap;
pub mod syntax;
pub mod text;
