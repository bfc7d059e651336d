use modesetting::error::Error;
use modesetting::registry::{Registry, ResourceKind};
use modesetting::resource::{CardResources, PlaneResources};

fn sample_registry() -> Registry {
    let cres = CardResources {
        connectors: vec![7, 8],
        encoders: vec![20, 21],
        crtcs: vec![30],
        framebuffers: vec![],
    };
    let pres = PlaneResources { planes: vec![40, 41, 42] };
    Registry::snapshot(&cres, &pres)
}

#[test]
fn checkout_succeeds_exactly_once_per_id() {
    let mut reg = sample_registry();
    let first = reg.checkout(ResourceKind::Connector, 7);
    assert!(first.is_ok());
    let again = reg.checkout(ResourceKind::Connector, 7);
    assert_eq!(again.err(), Some(Error::NotAvailable));
    // The other connector is untouched by the contention on id 7.
    let other = reg.checkout(ResourceKind::Connector, 8);
    assert!(other.is_ok());
}

#[test]
fn checkout_of_unknown_id_fails() {
    let mut reg = sample_registry();
    let r = reg.checkout(ResourceKind::Controller, 99);
    assert_eq!(r.err(), Some(Error::NotAvailable));
}

#[test]
fn checkout_is_scoped_to_the_kind() {
    let mut reg = sample_registry();
    // Id 7 exists only among the connectors.
    let r = reg.checkout(ResourceKind::Plane, 7);
    assert_eq!(r.err(), Some(Error::NotAvailable));
    assert!(reg.checkout(ResourceKind::Connector, 7).is_ok());
}

#[test]
fn released_id_reappears_in_iterate() {
    let mut reg = sample_registry();
    let h = reg.checkout(ResourceKind::Plane, 41).unwrap();
    let during = reg.iterate(ResourceKind::Plane);
    assert!(!during.contains(&41));
    reg.release(h);
    let after = reg.iterate(ResourceKind::Plane);
    assert!(after.contains(&41));
    // And the id can be checked out again after the release.
    assert!(reg.checkout(ResourceKind::Plane, 41).is_ok());
}

#[test]
fn iterate_reports_each_available_id_once() {
    let reg = sample_registry();
    let mut ids = reg.iterate(ResourceKind::Encoder);
    ids.sort();
    assert_eq!(ids, vec![20, 21]);
}

#[test]
fn snapshot_drops_duplicate_ids() {
    let cres = CardResources {
        connectors: vec![5, 5, 6],
        encoders: vec![],
        crtcs: vec![],
        framebuffers: vec![],
    };
    let pres = PlaneResources { planes: vec![] };
    let mut reg = Registry::snapshot(&cres, &pres);
    let mut ids = reg.iterate(ResourceKind::Connector);
    ids.sort();
    assert_eq!(ids, vec![5, 6]);
    // The duplicate in the snapshot does not allow a double checkout.
    assert!(reg.checkout(ResourceKind::Connector, 5).is_ok());
    assert_eq!(
        reg.checkout(ResourceKind::Connector, 5).err(),
        Some(Error::NotAvailable)
    );
}

#[test]
fn iterating_checkout_claims_every_available_id() {
    let mut reg = sample_registry();
    let held = reg.checkout(ResourceKind::Plane, 40).unwrap();
    let handles = reg.checkout_available(ResourceKind::Plane);
    // The two planes still available were both claimed, the held one not.
    let mut claimed: Vec<u32> = handles.iter().map(|h| h.id()).collect();
    claimed.sort();
    assert_eq!(claimed, vec![41, 42]);
    assert!(reg.iterate(ResourceKind::Plane).is_empty());
    // Releasing them all restores the full set.
    reg.release(held);
    for h in handles {
        reg.release(h);
    }
    let mut ids = reg.iterate(ResourceKind::Plane);
    ids.sort();
    assert_eq!(ids, vec![40, 41, 42]);
}

#[test]
fn handle_reports_its_kind_and_id() {
    let mut reg = sample_registry();
    let h = reg.checkout(ResourceKind::Controller, 30).unwrap();
    assert_eq!(h.kind(), ResourceKind::Controller);
    assert_eq!(h.id(), 30);
}
