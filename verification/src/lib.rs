//! The core of a small paste service: pastes are short texts published under a
//! unique slug, optionally protected by a view key and an edit key of which
//! only a one-way hash is kept.
//!
//! Everything in this crate is free of I/O. The decisions of each request are
//! functions from plain values to plain values ([`flow`]), so that a server can
//! run them against any storage. [`store::PasteStore`] is an in-memory
//! repository, [`service`] runs whole requests against it, and [`pasta`] holds
//! the handlers that answer in the form of the HTTP API.

use crate::store::{PasteStore, StoreView};
use vstd::prelude::*;

pub mod cli;
pub mod config;
pub mod error;
pub mod extractor;
pub mod flow;
pub mod guard;
pub mod hasher;
pub mod lookup;
pub mod pasta;
pub mod service;
pub mod slug;
pub mod store;

verus! {

/// What every handler works on: the repository. It is handed to each call;
/// nothing is kept in globals.
#[derive(Debug)]
pub struct AppState {
    pub db: PasteStore,
}

impl AppState {
    /// A state with an empty repository.
    pub fn new() -> (state: Self)
        ensures
            state.db.wf(),
            state.db@ == StoreView::empty(),
    {
        AppState { db: PasteStore::new() }
    }
}

} // verus!
