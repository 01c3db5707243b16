//! The executable ledger: one contract instance's state and its seven
//! operations, each verified against the transition functions of
//! [`crate::model`].

use vstd::prelude::*;

use crate::model::{
    close_next, close_outcome, create_project_next, current_project, LedgerView,
    list_resource_next, new_project_id, new_resource_id, observed_resource, release_next,
    release_outcome, rent_next, rent_outcome,
};
use crate::types::{CloudProject, LedgerError, Resource};

verus! {

/// The complete persistent state of one contract instance. The host keeps a
/// value of this type across invocations and hands each operation to it;
/// a failed operation returns an error and leaves the state untouched.
pub struct CloudComputingContract {
    project: Option<CloudProject>,
    project_seq: u64,
    resource_seq: u64,
    resources: Vec<Resource>,
}

impl View for CloudComputingContract {
    type V = LedgerView;

    closed spec fn view(&self) -> LedgerView {
        LedgerView {
            project: match self.project {
                Some(p) => Some(p@),
                None => None,
            },
            project_seq: self.project_seq,
            resource_seq: self.resource_seq,
            resources: self.resources@.map_values(|r: Resource| r@),
        }
    }
}

impl CloudComputingContract {
    /// A freshly deployed instance: nothing stored yet.
    pub fn new() -> (c: Self)
        ensures
            c@ == LedgerView::init(),
            c@.wf(),
    {
        let c = CloudComputingContract {
            project: None,
            project_seq: 0,
            resource_seq: 0,
            resources: Vec::new(),
        };
        proof {
            assert(c@.resources =~= LedgerView::init().resources);
            assert(c@ =~= LedgerView::init());
        }
        c
    }

    /// Create (or re-create) the project: mint the next project id, store a
    /// fresh active project with the given texts under the singleton slot,
    /// and return the id.
    pub fn create_project(&mut self, title: String, description: String) -> (id: u64)
        requires
            old(self)@.wf(),
            old(self)@.project_seq < u64::MAX,
        ensures
            final(self)@ == create_project_next(old(self)@, title@, description@),
            final(self)@.wf(),
            id == new_project_id(old(self)@),
    {
        self.project_seq = self.project_seq + 1;
        self.project = Some(
            CloudProject {
                project_id: self.project_seq,
                title,
                description,
                total_resources: 0,
                active: true,
            },
        );
        proof {
            assert(self@ =~= create_project_next(old(self)@, title@, description@));
        }
        self.project_seq
    }

    /// List a resource for rent: mint the next resource id, store the new
    /// resource as available under that id, raise the observed project's
    /// running total by one and write it back to the singleton slot, and
    /// return the id.
    pub fn list_resource(
        &mut self,
        owner: String,
        resource_type: String,
        price_per_hour: u64,
    ) -> (id: u64)
        requires
            old(self)@.wf(),
            old(self)@.resource_seq < u64::MAX,
        ensures
            final(self)@ == list_resource_next(
                old(self)@,
                owner@,
                resource_type@,
                price_per_hour,
            ),
            final(self)@.wf(),
            id == new_resource_id(old(self)@),
    {
        let mut project = self.view_project();
        project.total_resources = project.total_resources + 1;
        self.resource_seq = self.resource_seq + 1;
        self.resources.push(
            Resource { owner, resource_type, price_per_hour, available: true },
        );
        self.project = Some(project);
        proof {
            let next = list_resource_next(old(self)@, owner@, resource_type@, price_per_hour);
            assert(self@.resources =~= next.resources);
            assert(self@ =~= next);
        }
        self.resource_seq
    }

    /// Rent a listed, available resource: mark it unavailable and return
    /// the total cost `price_per_hour * hours`. Fails with
    /// `ResourceNotFound` for an id that was never listed, with
    /// `ResourceUnavailable` when the resource is already rented out, and
    /// with `Overflow` when the cost does not fit in a `u64`; a failed
    /// rental changes nothing. The renter is recorded nowhere: payment is
    /// simulated, the ledger only tracks availability.
    #[allow(unused_variables)]
    pub fn rent_resource(
        &mut self,
        renter: String,
        resource_id: u64,
        hours: u64,
    ) -> (r: Result<u64, LedgerError>)
        requires
            old(self)@.wf(),
        ensures
            final(self)@ == rent_next(old(self)@, resource_id, hours),
            final(self)@.wf(),
            r == rent_outcome(old(self)@, resource_id, hours),
    {
        if resource_id < 1 || resource_id > self.resources.len() as u64 {
            return Err(LedgerError::ResourceNotFound);
        }
        let idx: usize = (resource_id - 1) as usize;
        let stored = &self.resources[idx];
        if !stored.available {
            return Err(LedgerError::ResourceUnavailable);
        }
        let total_cost = match stored.price_per_hour.checked_mul(hours) {
            Some(c) => c,
            None => {
                return Err(LedgerError::Overflow);
            },
        };
        let updated = Resource {
            owner: stored.owner.clone(),
            resource_type: stored.resource_type.clone(),
            price_per_hour: stored.price_per_hour,
            available: false,
        };
        self.resources[idx] = updated;
        proof {
            let next = rent_next(old(self)@, resource_id, hours);
            assert(self@.resources =~= next.resources);
            assert(self@ =~= next);
        }
        Ok(total_cost)
    }

    /// Mark a resource as available again. Succeeds for every listed id,
    /// whether or not the resource was rented out; fails with
    /// `ResourceNotFound` for an id that was never listed, changing nothing.
    pub fn release_resource(&mut self, resource_id: u64) -> (r: Result<(), LedgerError>)
        requires
            old(self)@.wf(),
        ensures
            final(self)@ == release_next(old(self)@, resource_id),
            final(self)@.wf(),
            r == release_outcome(old(self)@, resource_id),
    {
        if resource_id < 1 || resource_id > self.resources.len() as u64 {
            return Err(LedgerError::ResourceNotFound);
        }
        let idx: usize = (resource_id - 1) as usize;
        let stored = &self.resources[idx];
        let updated = Resource {
            owner: stored.owner.clone(),
            resource_type: stored.resource_type.clone(),
            price_per_hour: stored.price_per_hour,
            available: true,
        };
        self.resources[idx] = updated;
        proof {
            let next = release_next(old(self)@, resource_id);
            assert(self@.resources =~= next.resources);
            assert(self@ =~= next);
        }
        Ok(())
    }

    /// Close the project: lower its `active` flag. Fails with
    /// `AlreadyClosed` when the stored project is already inactive — or when
    /// the slot is empty, since that reads as the inactive sentinel — and
    /// then changes nothing.
    pub fn close_project(&mut self) -> (r: Result<(), LedgerError>)
        requires
            old(self)@.wf(),
        ensures
            final(self)@ == close_next(old(self)@),
            final(self)@.wf(),
            r == close_outcome(old(self)@),
    {
        match &mut self.project {
            Some(p) => {
                if p.active {
                    p.active = false;
                    proof {
                        assert(self@ =~= close_next(old(self)@));
                    }
                    Ok(())
                } else {
                    Err(LedgerError::AlreadyClosed)
                }
            },
            None => Err(LedgerError::AlreadyClosed),
        }
    }

    /// Read the project singleton. When the slot is empty a sentinel project
    /// is returned instead of an error: id 0, the texts "Not Found", no
    /// resources, inactive.
    pub fn view_project(&self) -> (p: CloudProject)
        ensures
            p@ == current_project(self@),
    {
        match &self.project {
            Some(p) => p.clone(),
            None => {
                let p = CloudProject {
                    project_id: 0,
                    title: "Not Found".to_owned(),
                    description: "Not Found".to_owned(),
                    total_resources: 0,
                    active: false,
                };
                proof {
                    assert(p@ =~= current_project(self@));
                }
                p
            },
        }
    }

    /// Read one resource. For an id that was never listed a sentinel
    /// resource is returned instead of an error: owner and type "Not
    /// Found", price 0, unavailable.
    pub fn view_resource(&self, resource_id: u64) -> (res: Resource)
        ensures
            res@ == observed_resource(self@, resource_id),
    {
        if resource_id >= 1 && resource_id <= self.resources.len() as u64 {
            let idx: usize = (resource_id - 1) as usize;
            self.resources[idx].clone()
        } else {
            let res = Resource {
                owner: "Not Found".to_owned(),
                resource_type: "Not Found".to_owned(),
                price_per_hour: 0,
                available: false,
            };
            proof {
                assert(res@ =~= observed_resource(self@, resource_id));
            }
            res
        }
    }
}

} // verus!
