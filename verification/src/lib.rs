//! A registry of salons.
//!
//! A salon is a row of one table. [`entity`] holds the salon as callers see
//! it, [`region`] its classification and the tag that stands for it in
//! storage, [`row`] the row as storage holds it and how it is decoded, and
//! [`merge`] the rule by which a partial change is merged into a row.
//!
//! [`store`] is the table in memory with the operations on it: setting up
//! the schema, creating, listing, reading, updating and deleting. What holds
//! across these operations is proved in [`lifecycle`] and [`history`].
//!
//! [`statement`] and [`reply`] carry the same operations to a relational
//! store: the text and the bound values to send, and what to make of the
//! answer.

pub mod entity;
pub mod error;
pub mod history;
pub mod lifecycle;
pub mod merge;
pub mod region;
pub mod reply;
pub mod row;
pub mod statement;
pub mod store;

pub use entity::{InsertReturnCols, NewSalone, Salon_QR, Salons, Timestamp, UpdateSalone};
pub use error::StoreError;
pub use region::Sector;
pub use store::{create, delete_by_id, list, read, table_init, update, SalonStore};
