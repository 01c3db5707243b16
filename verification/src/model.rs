//! Mathematical model of the ledger state and of its transitions.
//!
//! [`LedgerView`] is the abstract value of one contract instance's entire
//! persistent state. Every operation of the executable ledger is specified
//! against a transition function here: one spec function gives the state
//! after the operation, a second gives its result. A failed operation
//! commits nothing, so its transition returns the state unchanged.

use vstd::prelude::*;

use crate::types::{LedgerError, ProjectView, ResourceView};

verus! {

/// Abstract state of a contract instance: the project singleton slot, the
/// two id counters, and the resource map. Resource ids are minted densely
/// starting at 1, so the map is a sequence in which id `i` lives at
/// index `i - 1`.
#[verifier::ext_equal]
pub struct LedgerView {
    /// The project singleton slot; `None` until the first creation.
    pub project: Option<ProjectView>,
    /// Monotonic counter minting project ids.
    pub project_seq: u64,
    /// Monotonic counter minting resource ids.
    pub resource_seq: u64,
    /// All resources ever listed, in listing order, never removed.
    pub resources: Seq<ResourceView>,
}

impl LedgerView {
    /// The state of a freshly deployed instance: nothing stored yet.
    pub open spec fn init() -> LedgerView {
        LedgerView {
            project: None,
            project_seq: 0,
            resource_seq: 0,
            resources: Seq::empty(),
        }
    }

    /// Well-formedness: the resource counter counts exactly the listed
    /// resources, and the project's running total never outruns the
    /// counter (listing is the only operation that raises either).
    pub open spec fn wf(self) -> bool {
        &&& self.resources.len() == self.resource_seq
        &&& (self.project matches Some(p) ==> p.total_resources <= self.resource_seq)
    }
}

/// The sentinel project that read-only views substitute when the singleton
/// slot is empty.
pub open spec fn sentinel_project() -> ProjectView {
    ProjectView {
        project_id: 0,
        title: "Not Found"@,
        description: "Not Found"@,
        total_resources: 0,
        active: false,
    }
}

/// The sentinel resource that read-only views substitute for an id that was
/// never listed.
pub open spec fn sentinel_resource() -> ResourceView {
    ResourceView {
        owner: "Not Found"@,
        resource_type: "Not Found"@,
        price_per_hour: 0,
        available: false,
    }
}

/// The project a reader observes: the stored singleton, or the sentinel.
pub open spec fn current_project(s: LedgerView) -> ProjectView {
    match s.project {
        Some(p) => p,
        None => sentinel_project(),
    }
}

/// True when `resource_id` names a listed resource.
pub open spec fn listed(s: LedgerView, resource_id: u64) -> bool {
    1 <= resource_id <= s.resources.len()
}

/// The stored resource named by a listed id.
pub open spec fn resource_at(s: LedgerView, resource_id: u64) -> ResourceView
    recommends
        listed(s, resource_id),
{
    s.resources[resource_id - 1]
}

/// The resource a reader observes for `resource_id`: the stored one, or the
/// sentinel.
pub open spec fn observed_resource(s: LedgerView, resource_id: u64) -> ResourceView {
    if listed(s, resource_id) {
        resource_at(s, resource_id)
    } else {
        sentinel_resource()
    }
}

/// The id the next project creation returns.
pub open spec fn new_project_id(s: LedgerView) -> u64
    recommends
        s.project_seq < u64::MAX,
{
    (s.project_seq + 1) as u64
}

/// The id the next resource listing returns.
pub open spec fn new_resource_id(s: LedgerView) -> u64
    recommends
        s.resource_seq < u64::MAX,
{
    (s.resource_seq + 1) as u64
}

/// State after creating a project: the counter advances and a fresh active
/// project overwrites the singleton slot. Resources are untouched.
pub open spec fn create_project_next(
    s: LedgerView,
    title: Seq<char>,
    description: Seq<char>,
) -> LedgerView
    recommends
        s.project_seq < u64::MAX,
{
    LedgerView {
        project: Some(
            ProjectView {
                project_id: new_project_id(s),
                title,
                description,
                total_resources: 0,
                active: true,
            },
        ),
        project_seq: new_project_id(s),
        ..s
    }
}

/// State after listing a resource: the counter advances, the new resource
/// joins the map as available, and the observed project — the sentinel when
/// the slot is empty — is written back with its running total raised by one.
pub open spec fn list_resource_next(
    s: LedgerView,
    owner: Seq<char>,
    resource_type: Seq<char>,
    price_per_hour: u64,
) -> LedgerView
    recommends
        s.wf(),
        s.resource_seq < u64::MAX,
{
    let p = current_project(s);
    LedgerView {
        project: Some(
            ProjectView { total_resources: (p.total_resources + 1) as u64, ..p },
        ),
        resource_seq: new_resource_id(s),
        resources: s.resources.push(
            ResourceView { owner, resource_type, price_per_hour, available: true },
        ),
        ..s
    }
}

/// Result of a rental: the total cost on success, or the abort condition.
/// A rental is owed exactly when the id is listed, the resource is
/// available, and the cost fits in the cost type.
pub open spec fn rent_outcome(s: LedgerView, resource_id: u64, hours: u64) -> Result<
    u64,
    LedgerError,
> {
    if !listed(s, resource_id) {
        Err(LedgerError::ResourceNotFound)
    } else if !resource_at(s, resource_id).available {
        Err(LedgerError::ResourceUnavailable)
    } else if resource_at(s, resource_id).price_per_hour * hours > u64::MAX {
        Err(LedgerError::Overflow)
    } else {
        Ok((resource_at(s, resource_id).price_per_hour * hours) as u64)
    }
}

/// State after a rental: on success the resource is marked unavailable and
/// nothing else changes; on failure nothing changes.
pub open spec fn rent_next(s: LedgerView, resource_id: u64, hours: u64) -> LedgerView {
    if rent_outcome(s, resource_id, hours) is Ok {
        LedgerView {
            resources: s.resources.update(
                resource_id - 1,
                ResourceView { available: false, ..resource_at(s, resource_id) },
            ),
            ..s
        }
    } else {
        s
    }
}

/// Result of a release: it succeeds exactly when the id is listed, whether
/// or not the resource was rented out.
pub open spec fn release_outcome(s: LedgerView, resource_id: u64) -> Result<(), LedgerError> {
    if listed(s, resource_id) {
        Ok(())
    } else {
        Err(LedgerError::ResourceNotFound)
    }
}

/// State after a release: the resource is marked available unconditionally;
/// on failure nothing changes.
pub open spec fn release_next(s: LedgerView, resource_id: u64) -> LedgerView {
    if listed(s, resource_id) {
        LedgerView {
            resources: s.resources.update(
                resource_id - 1,
                ResourceView { available: true, ..resource_at(s, resource_id) },
            ),
            ..s
        }
    } else {
        s
    }
}

/// Result of closing the project: it succeeds exactly when an active
/// project is stored. An empty slot reads as the inactive sentinel, so
/// closing it also reports `AlreadyClosed`.
pub open spec fn close_outcome(s: LedgerView) -> Result<(), LedgerError> {
    if current_project(s).active {
        Ok(())
    } else {
        Err(LedgerError::AlreadyClosed)
    }
}

/// State after closing the project: on success the stored project is kept
/// with its `active` flag lowered; on failure nothing changes.
pub open spec fn close_next(s: LedgerView) -> LedgerView {
    if current_project(s).active {
        LedgerView {
            project: Some(ProjectView { active: false, ..current_project(s) }),
            ..s
        }
    } else {
        s
    }
}

} // verus!
