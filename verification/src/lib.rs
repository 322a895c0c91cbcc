//! Choosing the UEFI boot entry to restart into.
//!
//! The crate holds the decisions of a small front-end over a firmware
//! boot-entry tool: reading the tool's listing into a catalog, resolving an
//! identifier against it, the key-driven selection, and the order in which the
//! firmware and restart commands are issued.  Running those commands and
//! drawing the list is left to the caller.

pub mod action;
pub mod catalog;
pub mod cli;
pub mod decimal;
pub mod dispatch;
pub mod parser;
pub mod scan;
pub mod selection;
pub mod text;
