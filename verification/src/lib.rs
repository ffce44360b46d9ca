//! A registry that links social-media identities to chain addresses, with a
//! donation operation that splits a payment between a recipient and the
//! registry's owner.
//!
//! The persistent state lives in the host's key-value storage and is reached
//! through `cw-storage-plus`; everything the library decides on top of it is
//! stated in contracts and proved.
//!
//! - [`contract`]: the operations, as the chain calls them.
//! - [`registry`]: the table of links and its two indexes.
//! - [`payment`]: accepted payments and the fee split.
//! - [`state`]: what is stored, and the calls into the storage layer.
//! - [`chain`], [`msg`], [`error`]: the values that go in and come out.
//! - [`text`]: keys, their order, and amounts in decimal.
//! - [`laws`]: what holds of the operations together.

pub mod chain;
pub mod contract;
pub mod error;
pub mod laws;
pub mod msg;
pub mod payment;
pub mod registry;
pub mod state;
pub mod text;
