use system_configuration::handle::{Handle, ObjectKind, ObjectTable, OwnershipRule};

const HANDLE_KINDS: [ObjectKind; 6] = [
    ObjectKind::DynamicStore,
    ObjectKind::Preferences,
    ObjectKind::NetworkService,
    ObjectKind::NetworkInterface,
    ObjectKind::NetworkProtocol,
    ObjectKind::NetworkSet,
];

#[test]
fn owned_handle_clone_then_release_both() {
    let mut table = ObjectTable::new();
    let address = table.create(ObjectKind::DynamicStore);
    let handle = Handle::wrap_owned(&table, address).expect("live object");
    assert_eq!(table.retain_count(address), 1);
    let copy = handle.clone_in(&mut table);
    assert_eq!(table.retain_count(address), 2);
    assert!(handle.same_object(&copy));
    let other = table.create(ObjectKind::DynamicStore);
    let other = Handle::wrap_owned(&table, other).unwrap();
    assert!(!handle.same_object(&other));
    handle.release(&mut table);
    copy.release(&mut table);
    let record = table.record(address).unwrap();
    assert_eq!(record.retain_count, 0);
    assert_eq!(record.retains, 1);
    assert_eq!(record.releases, 2);
}

#[test]
fn borrowed_handle_clone_then_release_both_is_balanced() {
    let mut table = ObjectTable::new();
    let address = table.create(ObjectKind::Preferences);
    let handle = Handle::wrap_borrowed(&mut table, address).expect("live object");
    assert_eq!(table.retain_count(address), 2);
    let copy = handle.clone_in(&mut table);
    handle.release(&mut table);
    copy.release(&mut table);
    let record = table.record(address).unwrap();
    assert_eq!(record.retain_count, 1);
    assert_eq!(record.retains, 2);
    assert_eq!(record.releases, 2);
}

#[test]
fn null_is_never_wrapped() {
    let mut table = ObjectTable::new();
    let address = table.create(ObjectKind::NetworkSet);
    assert!(Handle::wrap_owned(&table, 0).is_none());
    assert!(Handle::wrap_borrowed(&mut table, 0).is_none());
    assert!(Handle::wrap_borrowed(&mut table, address + 1).is_none());
    assert_eq!(table.record(address).unwrap().retains, 0);
}

#[test]
fn released_object_is_not_wrapped_again() {
    let mut table = ObjectTable::new();
    let address = table.create(ObjectKind::NetworkService);
    let handle = Handle::wrap_owned(&table, address).unwrap();
    handle.release(&mut table);
    assert_eq!(table.kind_of(address), None);
    assert!(Handle::wrap_borrowed(&mut table, address).is_none());
    assert_eq!(table.record(address).unwrap().retains, 0);
}

#[test]
fn wrap_follows_the_call_rule() {
    let mut table = ObjectTable::new();
    let address = table.create(ObjectKind::NetworkInterface);
    let created = Handle::wrap(&mut table, address, OwnershipRule::Create).unwrap();
    assert_eq!(table.retain_count(address), 1);
    let lent = Handle::wrap(&mut table, address, OwnershipRule::Get).unwrap();
    assert_eq!(table.retain_count(address), 2);
    assert_eq!(created.address(), address);
    assert_eq!(lent.kind(), ObjectKind::NetworkInterface);
    created.release(&mut table);
    lent.release(&mut table);
    assert_eq!(table.retain_count(address), 0);
}

#[test]
fn downcast_to_another_kind_is_refused_for_every_pair() {
    let mut table = ObjectTable::new();
    for actual in HANDLE_KINDS {
        let address = table.create(actual);
        for expected in HANDLE_KINDS {
            let handle = Handle::wrap_owned(&table, address).unwrap();
            let before = table.record(address).unwrap();
            match handle.downcast(expected) {
                Ok(h) => {
                    assert_eq!(actual, expected);
                    assert_eq!(h.kind(), expected);
                }
                Err(h) => {
                    assert_ne!(actual, expected);
                    assert_eq!(h.kind(), actual);
                    assert_eq!(h.address(), address);
                }
            }
            assert_eq!(table.record(address).unwrap(), before);
        }
    }
}

#[test]
fn kind_of_reports_the_runtime_type() {
    let mut table = ObjectTable::new();
    let a = table.create(ObjectKind::Dictionary);
    let b = table.create(ObjectKind::RunLoopSource);
    assert_eq!(a, 1);
    assert_eq!(b, 2);
    assert_eq!(table.kind_of(a), Some(ObjectKind::Dictionary));
    assert_eq!(table.kind_of(b), Some(ObjectKind::RunLoopSource));
    assert_eq!(table.kind_of(0), None);
    assert_eq!(table.kind_of(3), None);
    assert_eq!(table.retain_count(3), 0);
}
