use co2_monitor::bus::{BusArbiter, DeviceEndpoint};

#[test]
fn new_arbiter_is_free() {
    let arbiter = BusArbiter::new();
    assert!(arbiter.is_free());
    assert!(arbiter.can_grant());
}

#[test]
fn endpoint_keeps_its_number() {
    assert_eq!(DeviceEndpoint::new(0).id(), 0);
    assert_eq!(DeviceEndpoint::new(255).id(), 255);
}

#[test]
fn free_bus_is_granted() {
    let mut arbiter = BusArbiter::new();
    let sensor = DeviceEndpoint::new(1);
    let lock = arbiter.acquire(&sensor).unwrap();
    assert_eq!(lock.endpoint(), 1);
    assert!(!arbiter.is_free());
    assert!(arbiter.admits(&lock));
}

#[test]
fn held_bus_is_not_granted_again() {
    let mut arbiter = BusArbiter::new();
    let sensor = DeviceEndpoint::new(1);
    let display = DeviceEndpoint::new(2);
    let lock = arbiter.acquire(&sensor).unwrap();
    assert!(arbiter.acquire(&display).is_none());
    assert!(arbiter.acquire(&sensor).is_none());
    assert!(arbiter.admits(&lock));
}

#[test]
fn released_bus_is_granted_to_the_next() {
    let mut arbiter = BusArbiter::new();
    let sensor = DeviceEndpoint::new(1);
    let display = DeviceEndpoint::new(2);
    let lock = arbiter.acquire(&sensor).unwrap();
    assert!(arbiter.acquire(&display).is_none());
    arbiter.release(lock);
    assert!(arbiter.is_free());
    let lock = arbiter.acquire(&display).unwrap();
    assert_eq!(lock.endpoint(), 2);
    assert!(arbiter.admits(&lock));
}

#[test]
fn transactions_of_two_endpoints_come_one_after_the_other() {
    let mut arbiter = BusArbiter::new();
    let sensor = DeviceEndpoint::new(1);
    let display = DeviceEndpoint::new(2);
    let mut wire: Vec<(u8, u8)> = Vec::new();
    let mut sensor_left: Vec<u8> = vec![0x20, 0x01];
    let mut display_left: Vec<u8> = vec![0x40, 0xaa, 0xbb];
    let mut sensor_lock = None;
    let mut display_lock = None;
    let mut turn = 0;
    while !sensor_left.is_empty() || !display_left.is_empty() {
        turn += 1;
        // Both endpoints ask in every turn; each moves one byte if it holds the bus.
        if sensor_lock.is_none() && !sensor_left.is_empty() {
            sensor_lock = arbiter.acquire(&sensor);
        }
        if display_lock.is_none() && !display_left.is_empty() {
            display_lock = arbiter.acquire(&display);
        }
        if let Some(lock) = &sensor_lock {
            assert!(arbiter.admits(lock));
            wire.push((lock.endpoint(), sensor_left.remove(0)));
        }
        if let Some(lock) = &display_lock {
            assert!(arbiter.admits(lock));
            wire.push((lock.endpoint(), display_left.remove(0)));
        }
        if sensor_left.is_empty() {
            if let Some(lock) = sensor_lock.take() {
                arbiter.release(lock);
            }
        }
        if display_left.is_empty() {
            if let Some(lock) = display_lock.take() {
                arbiter.release(lock);
            }
        }
        assert!(turn < 20);
    }
    assert_eq!(wire, vec![(1, 0x20), (1, 0x01), (2, 0x40), (2, 0xaa), (2, 0xbb)]);
    assert!(arbiter.is_free());
}

#[test]
fn lock_of_another_grant_is_not_admitted() {
    let mut other = BusArbiter::new();
    let sensor = DeviceEndpoint::new(1);
    let first = other.acquire(&sensor).unwrap();
    other.release(first);
    let stale = other.acquire(&sensor).unwrap();

    let mut arbiter = BusArbiter::new();
    let lock = arbiter.acquire(&sensor).unwrap();
    assert!(!arbiter.admits(&stale));
    arbiter.release(stale);
    assert!(!arbiter.is_free());
    assert!(arbiter.admits(&lock));
    arbiter.release(lock);
    assert!(arbiter.is_free());
}

#[test]
fn lock_is_not_admitted_on_a_free_bus() {
    let mut other = BusArbiter::new();
    let sensor = DeviceEndpoint::new(1);
    let lock = other.acquire(&sensor).unwrap();
    let arbiter = BusArbiter::new();
    assert!(!arbiter.admits(&lock));
}

#[test]
fn every_grant_is_a_new_lock() {
    let mut arbiter = BusArbiter::new();
    let sensor = DeviceEndpoint::new(1);
    let mut other = BusArbiter::new();
    let first_elsewhere = other.acquire(&sensor).unwrap();
    let first = arbiter.acquire(&sensor).unwrap();
    assert_eq!(first, first_elsewhere);
    arbiter.release(first);
    let second = arbiter.acquire(&sensor).unwrap();
    assert_ne!(second, first_elsewhere);
}
