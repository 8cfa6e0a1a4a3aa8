//! An in-process, typed publish/subscribe event bus.
//!
//! Independently running workers register with a bus, declare interest in
//! event types by a stable type tag, and receive, over a bounded channel of
//! their own, a shared envelope for every dispatched event whose tag they
//! subscribed to. A merge handle folds several event types into one
//! caller-defined sum type.

pub mod bus;
pub mod channel;
pub mod errors;
pub mod event;
pub mod identity;
pub mod worker;

pub use bus::{Bus, EntryOfBus, SimpleBus};
pub use errors::BusError;
pub use event::{BusEvent, Event, Merge};
pub use identity::{IdentityOfMerge, IdentityOfRx, IdentityOfSimple};
pub use worker::{CopyOfWorker, ToWorker, Worker, WorkerId};
