//! Compile-time rewriting of asynchronous functions so that the deferred
//! computation they produce is typed as transferable between threads.
//!
//! The crate models the annotated function as a plain syntax tree
//! ([`ast::FnDecl`]), validates the annotation's arguments ([`processor`]),
//! and, when asked to, rewrites the body so that it runs inside the
//! transferability adapter ([`adapter::SendFuture`]).

pub mod adapter;
pub mod ast;
pub mod processor;
