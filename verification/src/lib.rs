//! Synchronization engine that mirrors a remote store of flat,
//! parent-pointing file records into a local directory tree.
//!
//! The crate holds the decisions of the engine: how a record's path follows
//! from its chain of parents, which paths the configured filters drop, how
//! the metadata cache takes a record in, and what is to be done with each
//! file in a poll cycle. Transfers and storage on disk are left to the caller.
//!
//! - [`record`], [`remote`], [`timestamp`]: the data.
//! - [`hierarchy`]: paths from parent pointers.
//! - [`config`]: the filters.
//! - [`dbcontext`]: the cache, and [`storage`]: its form on disk.
//! - [`reconcile`], [`transfer`], [`local`]: what a cycle decides.
//! - [`drive`]: the engine that ties them together.

pub mod config;
pub mod dbcontext;
pub mod drive;
pub mod hierarchy;
pub mod local;
pub mod reconcile;
pub mod record;
pub mod remote;
pub mod storage;
pub mod text;
pub mod timestamp;
pub mod transfer;
