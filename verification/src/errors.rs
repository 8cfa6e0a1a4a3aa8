//! The error taxonomy of the bus.
//!
//! Every fallible operation reports its failure to the immediate caller;
//! the bus never retries and never suppresses an error.

use vstd::prelude::*;

verus! {

/// Everything that can go wrong on the bus.
///
/// - `DowncastErr`: an erased event did not match the requested or declared type.
/// - `ChannelFull`: a delivery failed because the target worker's bounded
///   channel was at capacity.
/// - `ChannelClosed`: a delivery or receive failed because the channel's other
///   end was dropped.
/// - `RegistryFull`: a registration was refused because the bus is at its
///   fixed capacity (or no fresh identity number is left).
/// - `UnknownWorker`: an operation named a worker identity that was never
///   registered on this bus.
#[derive(Clone, Copy, Debug, PartialEq, Eq, Structural)]
pub enum BusError {
    DowncastErr,
    ChannelFull,
    ChannelClosed,
    RegistryFull,
    UnknownWorker,
}

} // verus!
