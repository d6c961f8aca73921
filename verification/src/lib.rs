//! Command-processing core of an interactive harness that drives a
//! Lightning node in one of two roles: a consumer wallet ("user") or a
//! liquidity service provider ("lsp").
//!
//! The verified logic here covers everything the harness itself decides:
//! tokenizing an input line, recognizing a command and its argument shape,
//! validating arguments, choosing the node operation to perform, and
//! formatting satoshi amounts and console output. The node operations
//! themselves (networking, channels, payments) are carried out by an
//! unverified front end that interprets the [`dispatch::Step`] values this
//! library produces.

pub mod amount;
pub mod checks;
pub mod command;
pub mod config;
pub mod digits;
pub mod dispatch;
pub mod render;
pub mod tokenize;
