//! Entity cache, query predicates, event decoding and handler dispatch for a
//! chat-automation client whose backend is reached through a puppet service.
//!
//! The library holds the decisions; whoever drives it performs the backend
//! calls and hands their results back (see `PayloadStore::lookup` and
//! `PayloadStore::finish_fetch`, `EntityCache::dirty_payload` and
//! `EntityCache::dirty_room_members`, `EventListenerInner::begin_dispatch`).

pub mod cache;
pub mod context;
pub mod decode;
pub mod dispatch;
pub mod entity;
pub mod error;
pub mod events;
pub mod filebox;
pub mod listener;
pub mod lru_model;
pub mod lru_store;
pub mod message;
pub mod query;
pub mod schemas;
pub mod service;
