//! Tracks repair-shop tickets through intake, the customer's confirmation of
//! the intake, the completion report and the customer's confirmation of
//! completion.
//!
//! A ticket's fields live in two SQLite tables with the same key. The
//! `database` module allocates ids, reads a task from both tables and writes
//! to each the columns of the step that is recorded, and no others; `store`
//! is one table; `record` is the mathematical model that
//! the contracts speak of; `network` derives the tokens and links of the
//! four operations that a front end offers. Every statement reaches the
//! database through the functions of `sqlite`, whose contracts are taken on
//! trust; everything else is proved.

pub mod allocator;
pub mod check_state;
pub mod database;
pub mod error;
pub mod laws;
pub mod link;
pub mod network;
pub mod record;
pub mod sqlite;
pub mod store;
pub mod text;
