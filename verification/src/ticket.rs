use vstd::prelude::*;

verus! {

/// A principal's identity: a fixed-width 256-bit public identifier, held as
/// four 64-bit words. The platform's signer substrate authenticates a caller
/// as one of these before the core logic runs; the core only ever compares
/// identities for equality.
#[derive(Clone, Copy, PartialEq, Eq, Structural, Debug)]
pub struct Identity {
    pub w0: u64,
    pub w1: u64,
    pub w2: u64,
    pub w3: u64,
}

impl Identity {
    pub fn new(w0: u64, w1: u64, w2: u64, w3: u64) -> (r: Identity)
        ensures
            r == (Identity { w0, w1, w2, w3 }),
    {
        Identity { w0, w1, w2, w3 }
    }
}

/// The unique key under which one ticket's record is stored: a fixed-width
/// 256-bit identifier, supplied by the caller or platform at mint time.
#[derive(Clone, Copy, PartialEq, Eq, Structural, Debug)]
pub struct TicketId {
    pub w0: u64,
    pub w1: u64,
    pub w2: u64,
    pub w3: u64,
}

impl TicketId {
    pub fn new(w0: u64, w1: u64, w2: u64, w3: u64) -> (r: TicketId)
        ensures
            r == (TicketId { w0, w1, w2, w3 }),
    {
        TicketId { w0, w1, w2, w3 }
    }
}

/// One ticket record. `price == 0` is the reserved sentinel meaning "not
/// listed for resale"; a positive price means the owner has listed it.
pub struct Ticket {
    pub owner: Identity,
    pub metadata: String,
    pub price: u64,
}

/// The mathematical model of one ticket record, used by every contract.
#[verifier::ext_equal]
pub struct TicketModel {
    pub owner: Identity,
    pub metadata: Seq<char>,
    pub price: u64,
}

impl View for Ticket {
    type V = TicketModel;

    open spec fn view(&self) -> TicketModel {
        TicketModel { owner: self.owner, metadata: self.metadata@, price: self.price }
    }
}

impl Ticket {
    /// A value copy of the record, as handed to readers: callers receive
    /// copies, never a handle into the store.
    pub fn duplicate(&self) -> (t: Ticket)
        ensures
            t@ == self@,
    {
        Ticket { owner: self.owner, metadata: self.metadata.clone(), price: self.price }
    }
}

/// A freshly minted record: owned by its minter and not listed.
pub open spec fn fresh_ticket(owner: Identity, metadata: Seq<char>) -> TicketModel {
    TicketModel { owner, metadata, price: 0 }
}

/// The record after its owner (re)sets the resale price; `price == 0`
/// degenerates to "unlist". Owner and metadata are untouched.
pub open spec fn with_price(t: TicketModel, price: u64) -> TicketModel {
    TicketModel { price, ..t }
}

/// The record after an ownership transfer: the new owner takes over and the
/// resale price is unconditionally reset to zero.
pub open spec fn handed_over(t: TicketModel, new_owner: Identity) -> TicketModel {
    TicketModel { owner: new_owner, metadata: t.metadata, price: 0 }
}

/// Whether a record is currently listed for resale.
pub open spec fn is_listed(t: TicketModel) -> bool {
    t.price > 0
}

/// Why an operation was refused. Every failure aborts the whole operation
/// with no observable side effect.
#[derive(Clone, Copy, PartialEq, Eq, Structural, Debug)]
pub enum TicketError {
    /// The named ticket identity has no record.
    NotFound,
    /// A mint targeted a ticket identity already in use.
    AlreadyExists,
    /// The caller is not the record's current owner.
    InvalidOwner,
}

} // verus!
