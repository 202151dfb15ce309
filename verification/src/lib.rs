//! The evaluation engine of Hurl, a plain-text format for sequences of HTTP requests.
//!
//! An entry of a Hurl file holds templates, body literals and the operands of assertions.
//! This library evaluates them against a variable environment: a template to a text, a
//! body literal to the body of a request, an operand to a typed value. Files that a
//! literal names are read by the caller, and only where the file root allows it. The
//! library also holds the rule by which a failed entry is run again, and the options that
//! a command line gives to a run.
//!
//! Every function states what it returns, and each statement is proved.

pub mod ast;
pub mod body;
pub mod error;
pub mod expr;
pub mod http;
pub mod json;
pub mod logger;
pub mod multiline;
pub mod options;
pub mod path;
pub mod predicate_value;
pub mod retry;
pub mod template;
pub mod text;
pub mod value;
pub mod variables;
