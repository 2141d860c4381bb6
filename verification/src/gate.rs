use vstd::prelude::*;

use crate::store::TicketStore;
use crate::ticket::{
    fresh_ticket, handed_over, is_listed, with_price, Identity, Ticket, TicketError, TicketId,
    TicketModel,
};

verus! {

/// The one authorization combinator: reads the record under `ticket_id` and
/// requires `caller` to be its current owner. Every mutating operation goes
/// through it, so the "must be current owner" rule is defined once.
fn authorize(store: &TicketStore, ticket_id: TicketId, caller: Identity) -> (r: Result<
    Ticket,
    TicketError,
>)
    requires
        store.wf(),
    ensures
        match r {
            Ok(t) => store.contents().contains_key(ticket_id) && t@ == store.contents()[ticket_id]
                && t@.owner == caller,
            Err(e) => (e == TicketError::NotFound && !store.contents().contains_key(ticket_id))
                || (e == TicketError::InvalidOwner && store.contents().contains_key(ticket_id)
                && store.contents()[ticket_id].owner != caller),
        },
{
    match store.read(ticket_id) {
        Ok(t) => {
            if t.owner == caller {
                Ok(t)
            } else {
                Err(TicketError::InvalidOwner)
            }
        },
        Err(e) => Err(e),
    }
}

/// Mint: allocates a fresh ticket record under `ticket_id`, owned by the
/// caller, carrying the given metadata, and not listed (`price == 0`).
/// Minting assigns fresh ownership rather than contesting existing
/// ownership, so no check beyond the identity collision is needed: it fails
/// with `AlreadyExists`, changing nothing, if `ticket_id` is already in use.
pub fn mint_ticket(
    store: &mut TicketStore,
    ticket_id: TicketId,
    caller: Identity,
    ticket_data: String,
) -> (r: Result<(), TicketError>)
    requires
        old(store).wf(),
    ensures
        final(store).wf(),
        old(store).contents().contains_key(ticket_id) ==> r == Err::<(), TicketError>(
            TicketError::AlreadyExists,
        ) && *final(store) == *old(store),
        !old(store).contents().contains_key(ticket_id) ==> r == Ok::<(), TicketError>(())
            && final(store).contents() == old(store).contents().insert(
            ticket_id,
            fresh_ticket(caller, ticket_data@),
        ),
{
    store.create(ticket_id, caller, ticket_data)
}

/// ListForResale: the current owner (re)sets the resale price; any other
/// caller fails with `InvalidOwner` and mutates nothing. A `price` of zero
/// is legal and degenerates to "unlist". Owner and metadata are unchanged,
/// as is every other ticket's record.
pub fn list_ticket_for_resell(
    store: &mut TicketStore,
    ticket_id: TicketId,
    caller: Identity,
    price: u64,
) -> (r: Result<(), TicketError>)
    requires
        old(store).wf(),
    ensures
        final(store).wf(),
        !old(store).contents().contains_key(ticket_id) ==> r == Err::<(), TicketError>(
            TicketError::NotFound,
        ) && *final(store) == *old(store),
        old(store).contents().contains_key(ticket_id) && old(store).contents()[ticket_id].owner
            != caller ==> r == Err::<(), TicketError>(TicketError::InvalidOwner) && *final(store)
            == *old(store),
        old(store).contents().contains_key(ticket_id) && old(store).contents()[ticket_id].owner
            == caller ==> r == Ok::<(), TicketError>(()) && final(store).contents()
            == old(store).contents().insert(
            ticket_id,
            with_price(old(store).contents()[ticket_id], price),
        ),
{
    match authorize(store, ticket_id, caller) {
        Ok(t) => {
            let mut updated = t;
            updated.price = price;
            match store.write(ticket_id, updated) {
                Ok(u) => Ok(u),
                Err(e) => Err(e),
            }
        },
        Err(e) => Err(e),
    }
}

/// Transfer: the current owner hands the record to `new_owner`, and the
/// resale price is unconditionally reset to zero in the same atomic update —
/// a transferred ticket is never left listed at its old price under its new
/// owner. Any caller but the current owner fails with `InvalidOwner` and
/// mutates nothing. `new_owner` is accepted as an opaque identity with no
/// further validation; a self-transfer is legal and just resets the price.
pub fn transfer_ticket(
    store: &mut TicketStore,
    ticket_id: TicketId,
    caller: Identity,
    new_owner: Identity,
) -> (r: Result<(), TicketError>)
    requires
        old(store).wf(),
    ensures
        final(store).wf(),
        !old(store).contents().contains_key(ticket_id) ==> r == Err::<(), TicketError>(
            TicketError::NotFound,
        ) && *final(store) == *old(store),
        old(store).contents().contains_key(ticket_id) && old(store).contents()[ticket_id].owner
            != caller ==> r == Err::<(), TicketError>(TicketError::InvalidOwner) && *final(store)
            == *old(store),
        old(store).contents().contains_key(ticket_id) && old(store).contents()[ticket_id].owner
            == caller ==> r == Ok::<(), TicketError>(()) && final(store).contents()
            == old(store).contents().insert(
            ticket_id,
            handed_over(old(store).contents()[ticket_id], new_owner),
        ),
{
    match authorize(store, ticket_id, caller) {
        Ok(t) => {
            let mut updated = t;
            updated.owner = new_owner;
            updated.price = 0;
            match store.write(ticket_id, updated) {
                Ok(u) => Ok(u),
                Err(e) => Err(e),
            }
        },
        Err(e) => Err(e),
    }
}

/// GetTicket: returns a value copy of the record under `ticket_id`, or
/// `NotFound` if no ticket was ever minted under it. Read access is
/// unrestricted: no authorization, no mutation.
pub fn get_ticket(store: &TicketStore, ticket_id: TicketId) -> (r: Result<Ticket, TicketError>)
    requires
        store.wf(),
    ensures
        store.contents().contains_key(ticket_id) ==> (r matches Ok(t) && t@
            == store.contents()[ticket_id]),
        !store.contents().contains_key(ticket_id) ==> r == Err::<Ticket, TicketError>(
            TicketError::NotFound,
        ),
{
    store.read(ticket_id)
}

/// Law: after a mint by a caller, the new record is present, owned by that
/// caller, and not listed — its price is the zero sentinel.
pub proof fn lemma_mint_gives_owner_unlisted(
    m: Map<TicketId, TicketModel>,
    ticket_id: TicketId,
    caller: Identity,
    metadata: Seq<char>,
)
    ensures
        ({
            let m1 = m.insert(ticket_id, fresh_ticket(caller, metadata));
            m1.contains_key(ticket_id) && m1[ticket_id].owner == caller && m1[ticket_id].price == 0
                && !is_listed(m1[ticket_id]) && m1[ticket_id].metadata == metadata
        }),
{
}

/// Law: a listing by the owner sets exactly the price — the record's owner
/// and metadata are untouched, and so is every other ticket's record.
pub proof fn lemma_list_sets_price_only(
    m: Map<TicketId, TicketModel>,
    ticket_id: TicketId,
    price: u64,
)
    requires
        m.contains_key(ticket_id),
    ensures
        ({
            let m1 = m.insert(ticket_id, with_price(m[ticket_id], price));
            m1[ticket_id].price == price && m1[ticket_id].owner == m[ticket_id].owner
                && m1[ticket_id].metadata == m[ticket_id].metadata && forall|k: TicketId|
                k != ticket_id && m.contains_key(k) ==> m1.contains_key(k) && #[trigger] m1[k]
                    == m[k]
        }),
{
}

/// Law: a transfer by the owner hands the record to the new owner and
/// unconditionally unlists it, whatever the price was beforehand; the
/// metadata and every other ticket's record are untouched.
pub proof fn lemma_transfer_resets_price(
    m: Map<TicketId, TicketModel>,
    ticket_id: TicketId,
    new_owner: Identity,
)
    requires
        m.contains_key(ticket_id),
    ensures
        ({
            let m1 = m.insert(ticket_id, handed_over(m[ticket_id], new_owner));
            m1[ticket_id].owner == new_owner && m1[ticket_id].price == 0 && !is_listed(
                m1[ticket_id],
            ) && m1[ticket_id].metadata == m[ticket_id].metadata && forall|k: TicketId|
                k != ticket_id && m.contains_key(k) ==> m1.contains_key(k) && #[trigger] m1[k]
                    == m[k]
        }),
{
}

/// Law: listing at a price is idempotent — repeating the same listing by
/// the same owner leaves the store exactly as after the first time.
pub proof fn lemma_list_idempotent(m: Map<TicketId, TicketModel>, ticket_id: TicketId, price: u64)
    requires
        m.contains_key(ticket_id),
    ensures
        ({
            let m1 = m.insert(ticket_id, with_price(m[ticket_id], price));
            m1.insert(ticket_id, with_price(m1[ticket_id], price)) == m1
        }),
{
    let m1 = m.insert(ticket_id, with_price(m[ticket_id], price));
    assert(with_price(m1[ticket_id], price) =~= with_price(m[ticket_id], price));
    assert(m1.insert(ticket_id, with_price(m1[ticket_id], price)) =~= m1);
}

} // verus!
