//! Entity records of the ledger and their mathematical views.

use vstd::prelude::*;

verus! {

/// The project singleton: one project owns all listed resources.
pub struct CloudProject {
    /// Unique positive identifier, assigned sequentially starting at 1.
    pub project_id: u64,
    /// Project title.
    pub title: String,
    /// Project description.
    pub description: String,
    /// Running count of resources ever listed under this project.
    pub total_resources: u64,
    /// True once created, false after closing.
    pub active: bool,
}

/// A rentable resource listing.
pub struct Resource {
    /// Account identifier of the lister.
    pub owner: String,
    /// Free-text category (for example CPU, RAM, storage).
    pub resource_type: String,
    /// Non-negative unit price.
    pub price_per_hour: u64,
    /// True while the resource can be rented.
    pub available: bool,
}

/// The abort conditions an operation can report. A failed operation leaves
/// the ledger untouched.
#[derive(Clone, Copy, Debug, PartialEq, Eq, Structural)]
pub enum LedgerError {
    /// The requested resource id is not in the resource map.
    ResourceNotFound,
    /// The resource exists but is currently rented out.
    ResourceUnavailable,
    /// The project is already inactive.
    AlreadyClosed,
    /// `price_per_hour * hours` does not fit in the cost type.
    Overflow,
}

/// Mathematical view of a [`CloudProject`]: text fields as character sequences.
#[verifier::ext_equal]
pub struct ProjectView {
    pub project_id: u64,
    pub title: Seq<char>,
    pub description: Seq<char>,
    pub total_resources: u64,
    pub active: bool,
}

/// Mathematical view of a [`Resource`].
#[verifier::ext_equal]
pub struct ResourceView {
    pub owner: Seq<char>,
    pub resource_type: Seq<char>,
    pub price_per_hour: u64,
    pub available: bool,
}

impl View for CloudProject {
    type V = ProjectView;

    open spec fn view(&self) -> ProjectView {
        ProjectView {
            project_id: self.project_id,
            title: self.title@,
            description: self.description@,
            total_resources: self.total_resources,
            active: self.active,
        }
    }
}

impl View for Resource {
    type V = ResourceView;

    open spec fn view(&self) -> ResourceView {
        ResourceView {
            owner: self.owner@,
            resource_type: self.resource_type@,
            price_per_hour: self.price_per_hour,
            available: self.available,
        }
    }
}

impl Clone for CloudProject {
    fn clone(&self) -> (r: Self)
        ensures
            r@ == self@,
    {
        CloudProject {
            project_id: self.project_id,
            title: self.title.clone(),
            description: self.description.clone(),
            total_resources: self.total_resources,
            active: self.active,
        }
    }
}

impl Clone for Resource {
    fn clone(&self) -> (r: Self)
        ensures
            r@ == self@,
    {
        Resource {
            owner: self.owner.clone(),
            resource_type: self.resource_type.clone(),
            price_per_hour: self.price_per_hour,
            available: self.available,
        }
    }
}

} // verus!
