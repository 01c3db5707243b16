//! Laws of the ledger: properties that relate several operations, proved
//! over the transition functions of [`crate::model`].

use vstd::prelude::*;

use crate::model::{
    close_next, close_outcome, create_project_next, current_project, LedgerView,
    list_resource_next, listed, new_project_id, new_resource_id, observed_resource,
    release_next, release_outcome, rent_next, rent_outcome, resource_at,
};
use crate::types::LedgerError;

verus! {

/// Releasing an already-available resource succeeds and leaves the ledger
/// exactly unchanged.
pub proof fn lemma_release_idempotent(s: LedgerView, resource_id: u64)
    requires
        s.wf(),
        listed(s, resource_id),
        resource_at(s, resource_id).available,
    ensures
        release_outcome(s, resource_id) == Ok::<(), LedgerError>(()),
        release_next(s, resource_id) == s,
{
    assert(release_next(s, resource_id).resources =~= s.resources);
    assert(release_next(s, resource_id) =~= s);
}

/// Resource ids are minted sequentially: on a fresh ledger the first
/// listing returns 1, and each listing raises the id the next listing
/// returns by exactly 1.
pub proof fn lemma_resource_ids_sequential(
    s: LedgerView,
    owner: Seq<char>,
    resource_type: Seq<char>,
    price_per_hour: u64,
)
    requires
        s.resource_seq + 1 < u64::MAX,
    ensures
        new_resource_id(LedgerView::init()) == 1,
        new_resource_id(list_resource_next(s, owner, resource_type, price_per_hour))
            == new_resource_id(s) + 1,
{
}

/// Project ids are minted sequentially: on a fresh ledger the first
/// creation returns 1, and each creation raises the id the next creation
/// returns by exactly 1.
pub proof fn lemma_project_ids_sequential(s: LedgerView, title: Seq<char>, description: Seq<char>)
    requires
        s.project_seq + 1 < u64::MAX,
    ensures
        new_project_id(LedgerView::init()) == 1,
        new_project_id(create_project_next(s, title, description)) == new_project_id(s) + 1,
{
}

/// A successful rental followed at once by a release of the same id
/// restores the ledger exactly — in particular the resource reads as
/// available again.
pub proof fn lemma_rent_then_release_restores(s: LedgerView, resource_id: u64, hours: u64)
    requires
        s.wf(),
        rent_outcome(s, resource_id, hours) is Ok,
    ensures
        release_outcome(rent_next(s, resource_id, hours), resource_id) == Ok::<
            (),
            LedgerError,
        >(()),
        release_next(rent_next(s, resource_id, hours), resource_id) == s,
        observed_resource(
            release_next(rent_next(s, resource_id, hours), resource_id),
            resource_id,
        ).available,
{
    let rented = rent_next(s, resource_id, hours);
    let released = release_next(rented, resource_id);
    assert(released.resources =~= s.resources);
    assert(released =~= s);
}

/// Guard correctness of rentals: an id that was never listed fails with
/// `ResourceNotFound`, a listed but unavailable resource fails with
/// `ResourceUnavailable`, and either failure leaves the ledger unchanged.
pub proof fn lemma_rent_guards(s: LedgerView, resource_id: u64, hours: u64)
    requires
        s.wf(),
    ensures
        !listed(s, resource_id) ==> rent_outcome(s, resource_id, hours) == Err::<
            u64,
            LedgerError,
        >(LedgerError::ResourceNotFound),
        listed(s, resource_id) && !resource_at(s, resource_id).available ==> rent_outcome(
            s,
            resource_id,
            hours,
        ) == Err::<u64, LedgerError>(LedgerError::ResourceUnavailable),
        rent_outcome(s, resource_id, hours) is Err ==> rent_next(s, resource_id, hours) == s,
{
}

/// Guard correctness of closing: a ledger whose observed project is
/// inactive — a closed project, or the empty slot's sentinel — fails with
/// `AlreadyClosed` and is left unchanged, so a view after the failed close
/// observes the same project; a successful close leaves the observed
/// project inactive, so closing twice in a row always fails the second
/// time.
pub proof fn lemma_close_guard(s: LedgerView)
    requires
        s.wf(),
    ensures
        !current_project(s).active ==> close_outcome(s) == Err::<(), LedgerError>(
            LedgerError::AlreadyClosed,
        ) && close_next(s) == s && current_project(close_next(s)) == current_project(s),
        close_outcome(s) is Ok ==> !current_project(close_next(s)).active,
        close_outcome(s) is Ok ==> close_outcome(close_next(s)) == Err::<(), LedgerError>(
            LedgerError::AlreadyClosed,
        ),
{
}

/// The resource map is append-only and ids are never reused: creating or
/// closing a project leaves the map alone, a listing adds exactly one entry
/// and touches no existing one, and renting or releasing keeps every entry's
/// id. Only a listing moves the resource counter, and only upward.
pub proof fn lemma_resource_map_append_only(
    s: LedgerView,
    title: Seq<char>,
    description: Seq<char>,
    owner: Seq<char>,
    resource_type: Seq<char>,
    price_per_hour: u64,
    resource_id: u64,
    hours: u64,
)
    requires
        s.wf(),
        s.resource_seq < u64::MAX,
    ensures
        create_project_next(s, title, description).resources == s.resources,
        create_project_next(s, title, description).resource_seq == s.resource_seq,
        list_resource_next(s, owner, resource_type, price_per_hour).resources.len()
            == s.resources.len() + 1,
        forall|i: int|
            0 <= i < s.resources.len() ==> list_resource_next(
                s,
                owner,
                resource_type,
                price_per_hour,
            ).resources[i] == s.resources[i],
        list_resource_next(s, owner, resource_type, price_per_hour).resource_seq
            == s.resource_seq + 1,
        rent_next(s, resource_id, hours).resources.len() == s.resources.len(),
        rent_next(s, resource_id, hours).resource_seq == s.resource_seq,
        release_next(s, resource_id).resources.len() == s.resources.len(),
        release_next(s, resource_id).resource_seq == s.resource_seq,
        close_next(s).resources == s.resources,
        close_next(s).resource_seq == s.resource_seq,
{
}

} // verus!
