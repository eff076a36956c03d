//! A memory-safe model of the RDMA verbs resource layer.
//!
//! Every provider-backed object (device context, protection domain,
//! completion channel, completion queue, memory registration, address handle,
//! queue pair) is a record in a [`table::ResourceTable`]. The table counts the
//! owners of each record and the live resources that depend on it, and decides
//! which provider teardown calls are owed, and in which order, when an owner
//! lets go. The provider itself is never called from here: callers hand in what
//! the provider answered and carry out the teardown steps that are handed back.
pub mod ah;
pub mod casts;
pub mod cc;
pub mod cq;
pub mod ctx;
pub mod device;
pub mod dm;
pub mod error;
pub mod handle;
pub mod laws;
pub mod lemmas;
pub mod model;
pub mod mr;
pub mod mw;
pub mod pd;
pub mod qp;
pub mod resource;
pub mod srq;
pub mod table;
pub mod utils;
pub mod wc;
pub mod wr;
pub mod weakset;
