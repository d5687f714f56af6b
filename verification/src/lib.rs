//! A recursive-descent parser for exception-handling statements:
//! `try { ... } catch (A|B $e) { ... } finally { ... }`.
//!
//! The parser works over an in-memory token stream ([`state::State`]) and
//! builds one immutable AST node per construct.  Every parsing function is
//! proved equal to a mathematical description of the grammar in
//! [`grammar`], so the exact tokens consumed, the node returned, and the
//! error raised on every input are pinned down by the contracts.

pub mod ast;
pub mod error;
pub mod grammar;
pub mod literals;
pub mod state;
pub mod token;
pub mod try_block;
