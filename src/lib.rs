//! Syntax tree of a markup template language, with the source ranges that
//! every node occupies.

pub mod ast;
pub mod span;
pub mod tokens;

pub use ast::{Attr, AttrType, Block, ElementBody, Markup, MatchArm, NamedAttr, Special, Toggler};
pub use span::{join_ranges, SpanRange};
pub use tokens::{name_to_string, span_tokens, Token, TokenRun};
