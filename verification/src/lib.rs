//! Symbolication core: resolves a program address to a symbol name and,
//! when line-number debug information is available, a source file and line.
//!
//! The native debug-info backend is an external collaborator reached over a
//! C-style callback interface; everything that crosses that boundary is raw
//! pointers and foreign stack frames, and lives in the unverified shell
//! around this crate.  This crate holds the decisions: the `Symbol` record
//! and its accessors, the callback-bridge rules that turn one raw callback
//! firing into at most one typed record, the write-once cache of the
//! backend's resolver state, and the two-tier lookup protocol (line table
//! first, flat symbol table as the fallback).

pub mod bridge;
pub mod resolver;
pub mod symbol;
