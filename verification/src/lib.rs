//! A single-owner transferable ticket record with ownership-gated mutation.
//!
//! The library is split in two layers. The record store ([`store`]) holds
//! one mutable ticket record per ticket identity and performs no
//! authorization of its own. The authorization layer ([`gate`]) refuses any
//! mutating call whose caller is not the record's current owner, and encodes
//! the field resets each transition must perform: in particular, a transfer
//! always resets the resale price to zero.

/// The ownership authorization layer: every mutating operation reads the
/// record, requires the caller to be its current owner, and only then
/// delegates the mutation to the store. The ownership test and the mutation
/// form one atomic all-or-nothing unit, so a failed operation leaves the
/// store exactly as it was.
pub mod gate;
/// The per-identity record store and its create / read / write primitives.
pub mod store;
/// The ticket record, the identities that own and key it, and their models.
pub mod ticket;
