//! A lazy, cycle-safe abstraction over a native file hierarchy.
//!
//! The core is a traversal engine over plain values: a storage session that
//! tracks symlink targets already entered (the cycle guard), a node type
//! that unifies files and directories, per-entry resolution that classifies
//! a raw directory entry into a node, and a forward-only entry iterator.
//! All operating-system calls (stat, directory listing, canonicalization,
//! reading) happen outside the library; callers hand their results in as
//! plain values and the library makes every decision about them.

pub mod local;
pub mod repo;
