use cloud_ledger::{CloudComputingContract, LedgerError};

#[test]
fn scenario_full_lifecycle() {
    let mut c = CloudComputingContract::new();

    let pid = c.create_project("Infra".to_string(), "desc".to_string());
    assert_eq!(pid, 1);

    let rid = c.list_resource("alice".to_string(), "CPU".to_string(), 10);
    assert_eq!(rid, 1);
    let p = c.view_project();
    assert_eq!(p.total_resources, 1);

    let cost = c.rent_resource("bob".to_string(), 1, 5);
    assert_eq!(cost, Ok(50));
    assert!(!c.view_resource(1).available);

    assert_eq!(c.release_resource(1), Ok(()));
    assert!(c.view_resource(1).available);

    assert_eq!(c.close_project(), Ok(()));
    assert_eq!(c.close_project(), Err(LedgerError::AlreadyClosed));
}

#[test]
fn view_project_sentinel_when_absent() {
    let c = CloudComputingContract::new();
    let p = c.view_project();
    assert_eq!(p.project_id, 0);
    assert_eq!(p.title.as_str(), "Not Found");
    assert_eq!(p.description.as_str(), "Not Found");
    assert_eq!(p.total_resources, 0);
    assert!(!p.active);
}

#[test]
fn view_resource_sentinel_when_absent() {
    let mut c = CloudComputingContract::new();
    c.list_resource("alice".to_string(), "CPU".to_string(), 10);
    for missing in [0u64, 2, 99] {
        let r = c.view_resource(missing);
        assert_eq!(r.owner.as_str(), "Not Found");
        assert_eq!(r.resource_type.as_str(), "Not Found");
        assert_eq!(r.price_per_hour, 0);
        assert!(!r.available);
    }
}

#[test]
fn release_is_idempotent_on_available_resource() {
    let mut c = CloudComputingContract::new();
    c.create_project("Infra".to_string(), "desc".to_string());
    let rid = c.list_resource("alice".to_string(), "CPU".to_string(), 7);
    assert!(c.view_resource(rid).available);

    assert_eq!(c.release_resource(rid), Ok(()));
    assert_eq!(c.release_resource(rid), Ok(()));

    let r = c.view_resource(rid);
    assert_eq!(r.owner.as_str(), "alice");
    assert_eq!(r.resource_type.as_str(), "CPU");
    assert_eq!(r.price_per_hour, 7);
    assert!(r.available);
    let p = c.view_project();
    assert_eq!(p.total_resources, 1);
}

#[test]
fn release_unknown_id_fails() {
    let mut c = CloudComputingContract::new();
    assert_eq!(c.release_resource(1), Err(LedgerError::ResourceNotFound));
    c.list_resource("alice".to_string(), "CPU".to_string(), 1);
    assert_eq!(c.release_resource(2), Err(LedgerError::ResourceNotFound));
}

#[test]
fn resource_ids_increase_by_one_from_one() {
    let mut c = CloudComputingContract::new();
    c.create_project("Infra".to_string(), "desc".to_string());
    assert_eq!(c.list_resource("alice".to_string(), "CPU".to_string(), 10), 1);
    assert_eq!(c.list_resource("bob".to_string(), "RAM".to_string(), 20), 2);
    assert_eq!(c.list_resource("carol".to_string(), "DISK".to_string(), 30), 3);
}

#[test]
fn project_ids_increase_by_one_from_one() {
    let mut c = CloudComputingContract::new();
    assert_eq!(c.create_project("First".to_string(), "a".to_string()), 1);
    assert_eq!(c.create_project("Second".to_string(), "b".to_string()), 2);
    assert_eq!(c.create_project("Third".to_string(), "c".to_string()), 3);
}

#[test]
fn create_project_overwrites_singleton() {
    let mut c = CloudComputingContract::new();
    c.create_project("First".to_string(), "a".to_string());
    c.list_resource("alice".to_string(), "CPU".to_string(), 10);
    c.list_resource("bob".to_string(), "RAM".to_string(), 20);
    assert_eq!(c.view_project().total_resources, 2);

    let pid = c.create_project("Second".to_string(), "b".to_string());
    assert_eq!(pid, 2);
    let p = c.view_project();
    assert_eq!(p.project_id, 2);
    assert_eq!(p.title.as_str(), "Second");
    assert_eq!(p.total_resources, 0);
    assert!(p.active);
    // Previously listed resources stay in the map and keep their ids.
    assert_eq!(c.view_resource(2).owner.as_str(), "bob");
    assert_eq!(c.list_resource("carol".to_string(), "DISK".to_string(), 5), 3);
}

#[test]
fn rent_unknown_id_fails_without_mutation() {
    let mut c = CloudComputingContract::new();
    c.create_project("Infra".to_string(), "desc".to_string());
    c.list_resource("alice".to_string(), "CPU".to_string(), 10);

    assert_eq!(
        c.rent_resource("bob".to_string(), 0, 5),
        Err(LedgerError::ResourceNotFound)
    );
    assert_eq!(
        c.rent_resource("bob".to_string(), 2, 5),
        Err(LedgerError::ResourceNotFound)
    );
    assert!(c.view_resource(1).available);
    assert_eq!(c.view_project().total_resources, 1);
}

#[test]
fn rent_unavailable_resource_fails_without_mutation() {
    let mut c = CloudComputingContract::new();
    c.create_project("Infra".to_string(), "desc".to_string());
    c.list_resource("alice".to_string(), "CPU".to_string(), 10);

    assert_eq!(c.rent_resource("bob".to_string(), 1, 2), Ok(20));
    assert_eq!(
        c.rent_resource("carol".to_string(), 1, 4),
        Err(LedgerError::ResourceUnavailable)
    );
    let r = c.view_resource(1);
    assert!(!r.available);
    assert_eq!(r.owner.as_str(), "alice");
    assert_eq!(r.price_per_hour, 10);
}

#[test]
fn rent_cost_overflow_fails_without_mutation() {
    let mut c = CloudComputingContract::new();
    c.create_project("Infra".to_string(), "desc".to_string());
    c.list_resource("alice".to_string(), "GPU".to_string(), u64::MAX);

    assert_eq!(
        c.rent_resource("bob".to_string(), 1, 2),
        Err(LedgerError::Overflow)
    );
    assert!(c.view_resource(1).available);

    assert_eq!(c.rent_resource("bob".to_string(), 1, 1), Ok(u64::MAX));
    assert!(!c.view_resource(1).available);
}

#[test]
fn rent_at_zero_price_costs_nothing() {
    let mut c = CloudComputingContract::new();
    c.create_project("Infra".to_string(), "desc".to_string());
    c.list_resource("alice".to_string(), "CPU".to_string(), 0);
    assert_eq!(c.rent_resource("bob".to_string(), 1, 1000), Ok(0));
    assert!(!c.view_resource(1).available);
}

#[test]
fn rent_then_release_restores_availability() {
    let mut c = CloudComputingContract::new();
    c.create_project("Infra".to_string(), "desc".to_string());
    let rid = c.list_resource("alice".to_string(), "CPU".to_string(), 4);

    assert_eq!(c.rent_resource("bob".to_string(), rid, 6), Ok(24));
    assert!(!c.view_resource(rid).available);
    assert_eq!(c.release_resource(rid), Ok(()));

    let r = c.view_resource(rid);
    assert!(r.available);
    assert_eq!(r.owner.as_str(), "alice");
    assert_eq!(r.resource_type.as_str(), "CPU");
    assert_eq!(r.price_per_hour, 4);
}

#[test]
fn close_without_project_fails() {
    let mut c = CloudComputingContract::new();
    assert_eq!(c.close_project(), Err(LedgerError::AlreadyClosed));
    // The slot is still empty: the view still reads as the sentinel.
    assert_eq!(c.view_project().project_id, 0);
    assert!(!c.view_project().active);
}

#[test]
fn failed_close_leaves_project_unchanged() {
    let mut c = CloudComputingContract::new();
    c.create_project("Infra".to_string(), "desc".to_string());
    assert_eq!(c.close_project(), Ok(()));
    let before = c.view_project();
    assert!(!before.active);

    assert_eq!(c.close_project(), Err(LedgerError::AlreadyClosed));
    let after = c.view_project();
    assert_eq!(after.project_id, before.project_id);
    assert_eq!(after.title.as_str(), "Infra");
    assert_eq!(after.description.as_str(), "desc");
    assert_eq!(after.total_resources, before.total_resources);
    assert!(!after.active);
}

#[test]
fn listing_without_project_persists_incremented_sentinel() {
    let mut c = CloudComputingContract::new();
    let rid = c.list_resource("alice".to_string(), "CPU".to_string(), 10);
    assert_eq!(rid, 1);
    // The sentinel project was written back with its total raised.
    let p = c.view_project();
    assert_eq!(p.project_id, 0);
    assert_eq!(p.title.as_str(), "Not Found");
    assert_eq!(p.total_resources, 1);
    assert!(!p.active);
}

#[test]
fn empty_texts_are_permitted() {
    let mut c = CloudComputingContract::new();
    assert_eq!(c.create_project(String::new(), String::new()), 1);
    let p = c.view_project();
    assert_eq!(p.title.as_str(), "");
    assert_eq!(p.description.as_str(), "");
    assert!(p.active);
    assert_eq!(c.list_resource(String::new(), String::new(), 10), 1);
    let r = c.view_resource(1);
    assert_eq!(r.owner.as_str(), "");
    assert!(r.available);
}

#[test]
fn listing_keeps_resource_fields() {
    let mut c = CloudComputingContract::new();
    c.create_project("Infra".to_string(), "desc".to_string());
    c.list_resource("alice".to_string(), "CPU".to_string(), 10);
    c.list_resource("bob".to_string(), "RAM".to_string(), 20);
    let r1 = c.view_resource(1);
    assert_eq!(r1.owner.as_str(), "alice");
    assert_eq!(r1.resource_type.as_str(), "CPU");
    assert_eq!(r1.price_per_hour, 10);
    assert!(r1.available);
    let r2 = c.view_resource(2);
    assert_eq!(r2.owner.as_str(), "bob");
    assert_eq!(r2.resource_type.as_str(), "RAM");
    assert_eq!(r2.price_per_hour, 20);
    assert!(r2.available);
}
