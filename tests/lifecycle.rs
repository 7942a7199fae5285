use io_kit::action::HostAction;
use io_kit::base::{make_services, IOIterator, IOObject, IOService};
use io_kit::device::IOHIDDevice;
use io_kit::notification::{service_matching_callback_internal, IONotificationPort, PendingRegistration};
use io_kit::status::{check_status, native_bool, registry_entry_id_result, KERN_SUCCESS};

const KIO_RETURN_EXCLUSIVE_ACCESS: i32 = 0xE00002C5u32 as i32;

fn handles(services: &[IOService]) -> Vec<u32> {
    services.iter().map(|s| s.as_io_object_t()).collect()
}

#[test]
fn status_zero_is_success() {
    assert_eq!(check_status(KERN_SUCCESS), Ok(()));
    assert_eq!(check_status(KIO_RETURN_EXCLUSIVE_ACCESS), Err(KIO_RETURN_EXCLUSIVE_ACCESS));
    assert_eq!(check_status(-1), Err(-1));
}

#[test]
fn registry_entry_id_follows_status() {
    assert_eq!(registry_entry_id_result(0, 0x1000_0042), Ok(0x1000_0042));
    assert_eq!(registry_entry_id_result(7, 0x1000_0042), Err(7));
    let svc = IOService::get_matching_service(99).unwrap();
    assert_eq!(svc.get_registry_entry_id(0, 12), Ok(12));
    assert_eq!(svc.get_registry_entry_id(3, 12), Err(3));
}

#[test]
fn native_booleans() {
    assert!(!native_bool(0));
    assert!(native_bool(1));
    assert!(native_bool(u32::MAX));
}

#[test]
fn zero_handle_is_absence() {
    assert!(IOObject::from_raw(0).is_none());
    assert_eq!(IOObject::from_raw(17).unwrap().as_io_object_t(), 17);
    assert!(IOService::get_matching_service(0).is_none());
    assert_eq!(IOService::get_matching_service(23).unwrap().as_io_object_t(), 23);
}

#[test]
fn each_handle_is_released_once_at_end_of_life() {
    // A mock registry hands out three objects; count releases at their end.
    let natives = vec![11u32, 12, 13, 0];
    let mut cursor = IOIterator::from_raw(5);
    let services = make_services(&mut cursor, &natives);
    let mut log: Vec<HostAction> = services.into_iter().map(|s| s.release_call()).collect();
    log.push(cursor.release_call());
    for h in [11u32, 12, 13, 5] {
        let n = log.iter().filter(|a| **a == HostAction::ObjectRelease { object: h }).count();
        assert_eq!(n, 1);
    }
    assert_eq!(log.len(), 4);
}

#[test]
fn exhausted_cursor_stays_exhausted_until_reset() {
    let mut it = IOIterator::from_raw(9);
    assert!(it.needs_native_next());
    assert_eq!(it.next(4).map(|o| o.as_io_object_t()), Some(4));
    assert!(it.next(0).is_none());
    assert!(!it.needs_native_next());
    // The native side would hand out more, but the cursor has reported the end.
    assert!(it.next(5).is_none());
    assert!(it.next(6).is_none());
    it.reset();
    assert!(it.needs_native_next());
    assert_eq!(it.next(5).map(|o| o.as_io_object_t()), Some(5));
    assert_eq!(it.as_io_object_t(), 9);
}

#[test]
fn drain_stops_at_first_zero() {
    let mut it = IOIterator::from_raw(1);
    let services = make_services(&mut it, &vec![3, 4, 0, 5]);
    assert_eq!(handles(&services), vec![3, 4]);
    assert!(!it.needs_native_next());
    let again = make_services(&mut it, &vec![6, 0]);
    assert!(again.is_empty());
}

#[test]
fn drain_of_empty_answers() {
    let mut it = IOIterator::from_raw(1);
    assert!(make_services(&mut it, &vec![]).is_empty());
    assert!(it.needs_native_next());
}

#[test]
fn matching_services_in_native_order() {
    let r = IOService::get_matching_services(0, &vec![30, 10, 20, 0]);
    assert_eq!(handles(&r.unwrap()), vec![30, 10, 20]);
    assert!(matches!(IOService::get_matching_services(-536870206, &vec![30, 0]), Err(-536870206)));
}

#[test]
fn cursor_validity() {
    let it = IOIterator::from_raw(1);
    assert!(it.is_valid(1));
    assert!(!it.is_valid(0));
}

#[test]
fn notification_port_null_is_error() {
    assert!(IONotificationPort::new(0).is_err());
    assert_eq!(IONotificationPort::new(0x7000).unwrap().as_raw(), 0x7000);
}

fn pending() -> PendingRegistration {
    PendingRegistration::new(IONotificationPort::new(0x7000).unwrap(), 0x100, 0x200)
}

#[test]
fn initial_empty_match_is_delivered() {
    let (_reg, initial) = pending().complete(0, 40, &vec![0]).ok().unwrap();
    let mut calls: Vec<usize> = Vec::new();
    let mut callback = |v: Vec<IOService>| calls.push(v.len());
    callback(initial);
    assert_eq!(calls, vec![0]);
}

#[test]
fn initial_three_then_two_arrivals() {
    let (reg, initial) = pending().complete(0, 40, &vec![101, 102, 103, 0]).ok().unwrap();
    let later = service_matching_callback_internal(40, &vec![104, 105, 0]);
    let mut deliveries: Vec<Vec<u32>> = Vec::new();
    deliveries.push(handles(&initial));
    deliveries.push(handles(&later));
    assert_eq!(deliveries, vec![vec![101, 102, 103], vec![104, 105]]);
    let steps = reg.teardown();
    assert_eq!(steps[2], HostAction::ObjectRelease { object: 40 });
}

#[test]
fn teardown_removes_source_before_destroying_port() {
    let (reg, _) = pending().complete(0, 40, &vec![0]).ok().unwrap();
    assert_eq!(
        reg.teardown(),
        vec![
            HostAction::RunLoopRemoveSource { run_loop: 0x100, source: 0x200 },
            HostAction::NotificationPortDestroy { port: 0x7000 },
            HostAction::ObjectRelease { object: 40 },
            HostAction::DropCallback,
        ]
    );
}

#[test]
fn failed_subscription_returns_status_and_undoes_setup() {
    let r = pending().complete(KIO_RETURN_EXCLUSIVE_ACCESS, 0, &vec![]);
    let (code, steps) = r.err().unwrap();
    assert_eq!(code, KIO_RETURN_EXCLUSIVE_ACCESS);
    assert_eq!(
        steps,
        vec![
            HostAction::RunLoopRemoveSource { run_loop: 0x100, source: 0x200 },
            HostAction::NotificationPortDestroy { port: 0x7000 },
        ]
    );
}

#[test]
fn second_open_surfaces_native_failure() {
    let mut dev = IOHIDDevice::create(0x5000).unwrap();
    let first = dev.open(0, 0);
    assert!(first.is_ok());
    let second = dev.open(KIO_RETURN_EXCLUSIVE_ACCESS, 0);
    assert_eq!(second.err(), Some(KIO_RETURN_EXCLUSIVE_ACCESS));
    assert_eq!(
        first.ok().unwrap().close(),
        vec![
            HostAction::DeviceClose { device: 0x5000, options: 0 },
            HostAction::TypeRelease { reference: 0x5000 },
        ]
    );
}

#[test]
fn open_guard_closes_with_same_options() {
    let mut dev = IOHIDDevice::create(0x5000).unwrap();
    let steps = dev.open(0, 1).ok().unwrap().close();
    let closes: Vec<&HostAction> = steps.iter().filter(|a| matches!(a, HostAction::DeviceClose { .. })).collect();
    assert_eq!(closes, vec![&HostAction::DeviceClose { device: 0x5000, options: 1 }]);
}

#[test]
fn schedule_round_trip_unschedules_once() {
    let mut dev = IOHIDDevice::create(0x5000).unwrap();
    let guard = dev.schedule_with_run_loop(0x100, 0x300);
    let steps = guard.unschedule();
    let unscheds: Vec<&HostAction> =
        steps.iter().filter(|a| matches!(a, HostAction::DeviceUnschedule { .. })).collect();
    assert_eq!(unscheds, vec![&HostAction::DeviceUnschedule { device: 0x5000, run_loop: 0x100, mode: 0x300 }]);
    assert_eq!(steps.len(), 4);
}

#[test]
fn device_create_and_queries() {
    assert!(IOHIDDevice::create(0).is_none());
    let dev = IOHIDDevice::create(0x5000).unwrap();
    assert_eq!(dev.as_raw(), 0x5000);
    assert!(dev.conforms_to(1));
    assert!(!dev.conforms_to(0));
    assert_eq!(dev.get_property(0), None);
    assert_eq!(dev.get_property(0x900), Some(0x900));
    assert_eq!(dev.release_call(), HostAction::TypeRelease { reference: 0x5000 });
}

#[test]
fn retain_gives_a_second_reference() {
    let obj = IOObject::from_raw(21).unwrap();
    let copy = obj.retain(0).ok().unwrap();
    assert_eq!(copy.as_io_object_t(), 21);
    assert!(matches!(obj.retain(-5), Err(-5)));
    assert_eq!(obj.release_call(), HostAction::ObjectRelease { object: 21 });
    assert_eq!(copy.release_call(), HostAction::ObjectRelease { object: 21 });
}
