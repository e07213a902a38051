//! Core of an interactive terminal list application.
//!
//! The application shows a selectable list of entries, lets the user toggle a
//! per-entry status, and refreshes the list from a slow external source on a
//! background worker thread.  This crate holds everything with real logic in
//! it: the entry and event types, the pure state-transition function applied
//! once per event, the FIFO dispatcher that merges input and worker events
//! into one stream, the worker's request queue, and the key-to-event table.
//! Terminal I/O, rendering and thread plumbing live outside the crate and only
//! exchange plain values with it.

pub mod dispatcher;
pub mod event;
pub mod input;
pub mod items;
pub mod laws;
pub mod state;
pub mod worker;
