use yusb::context::Context;
use yusb::shared::Shared;

#[test]
fn last_holder_tears_down() {
    let mut s = Shared::new(0x4000);
    assert_eq!(s.holders(), 1);
    assert!(s.is_alive());
    assert_eq!(s.as_raw(), 0x4000);
    assert_eq!(s.release(), Some(0x4000));
    assert_eq!(s.holders(), 0);
    assert!(!s.is_alive());
}

#[test]
fn teardown_happens_once_and_only_at_zero() {
    let mut s = Context::from_raw(0x4000).share();
    assert!(s.retain());
    assert!(s.retain());
    assert_eq!(s.holders(), 3);
    assert_eq!(s.release(), None);
    assert_eq!(s.release(), None);
    assert_eq!(s.holders(), 1);
    assert!(s.retain());
    assert_eq!(s.release(), None);
    assert_eq!(s.release(), Some(0x4000));
    assert_eq!(s.release(), None);
    assert_eq!(s.release(), None);
    assert_eq!(s.holders(), 0);
}

#[test]
fn a_resource_without_holders_takes_none() {
    let mut s = Shared::new(0x4000);
    assert_eq!(s.release(), Some(0x4000));
    assert!(!s.retain());
    assert_eq!(s.holders(), 0);
    assert_eq!(s.release(), None);
}

#[test]
fn global_instance_is_never_torn_down() {
    let mut s = Context::global().share();
    assert_eq!(s.as_raw(), 0);
    assert!(s.retain());
    assert_eq!(s.release(), None);
    assert_eq!(s.release(), None);
    assert_eq!(s.holders(), 0);
    assert_eq!(s.release(), None);
}

#[test]
fn a_device_outlives_the_list_it_came_from() {
    // the list holds the record; a device taken from it holds it too
    let mut record = Shared::new(0x2000);
    assert!(record.retain());
    // the list lets go
    assert_eq!(record.release(), None);
    assert!(record.is_alive());
    assert_eq!(record.holders(), 1);
    // the device lets go
    assert_eq!(record.release(), Some(0x2000));
    assert!(!record.is_alive());
}

#[test]
fn counts_many_holders() {
    let mut s = Shared::new(8);
    for _ in 0..1000 {
        assert!(s.retain());
    }
    assert_eq!(s.holders(), 1001);
    for _ in 0..1000 {
        assert_eq!(s.release(), None);
    }
    assert_eq!(s.release(), Some(8));
}
