use unique_port::{get_free_port, PortAllocator, PortError, FIRST_PORT, PORT_LIMIT};

#[test]
fn two_allocations_distinct_and_increasing() {
    let mut a = PortAllocator::new();
    let first = a.get_unique_free_port(|_p: u16| true).unwrap();
    let second = a.get_unique_free_port(|_p: u16| true).unwrap();
    assert_ne!(first, second);
    assert!(first >= 1000);
    assert!(second >= 1000);
    assert!(second > first);
}

#[test]
fn first_allocation_starts_at_floor() {
    let mut a = PortAllocator::new();
    assert_eq!(a.current_cursor(), FIRST_PORT);
    assert_eq!(a.get_unique_free_port(|_p: u16| true), Ok(1000));
    assert_eq!(a.current_cursor(), 1001);
}

#[test]
fn allocation_skips_ports_the_probe_refuses() {
    let mut a = PortAllocator::new();
    assert_eq!(a.get_unique_free_port(|p: u16| p >= 1010), Ok(1010));
    assert_eq!(a.current_cursor(), 1011);
    assert_eq!(a.get_unique_free_port(|_p: u16| true), Ok(1011));
}

#[test]
fn allocation_returns_port_the_probe_accepted() {
    let mut a = PortAllocator::new();
    let port = a.get_unique_free_port(|p: u16| p % 7 == 3).unwrap();
    assert_eq!(port % 7, 3);
}

#[test]
fn many_allocations_pairwise_distinct() {
    let mut a = PortAllocator::new();
    let mut granted: Vec<u16> = Vec::new();
    for _ in 0..50 {
        granted.push(a.get_unique_free_port(|_p: u16| true).unwrap());
    }
    for i in 0..granted.len() {
        for j in 0..granted.len() {
            if i != j {
                assert_ne!(granted[i], granted[j]);
            }
        }
        if i + 1 < granted.len() {
            assert!(granted[i] < granted[i + 1]);
        }
    }
}

#[test]
fn exhaustion_at_the_limit_leaves_cursor_unchanged() {
    let mut a = PortAllocator::new();
    a.advance_cursor_to(PORT_LIMIT);
    assert_eq!(a.get_unique_free_port(|_p: u16| true), Err(PortError::PortExhausted));
    assert_eq!(a.current_cursor(), PORT_LIMIT);
    assert_eq!(a.get_unique_free_port(|_p: u16| true), Err(PortError::PortExhausted));
}

#[test]
fn failed_allocation_leaves_cursor_unchanged() {
    let mut a = PortAllocator::new();
    assert_eq!(a.get_unique_free_port(|_p: u16| false), Err(PortError::PortExhausted));
    assert_eq!(a.current_cursor(), FIRST_PORT);
}

#[test]
fn last_offered_port_is_one_below_the_limit() {
    let mut a = PortAllocator::new();
    a.advance_cursor_to(65534);
    assert_eq!(a.get_unique_free_port(|_p: u16| true), Ok(65534));
    assert_eq!(a.current_cursor(), PORT_LIMIT);
    assert_eq!(a.get_unique_free_port(|_p: u16| true), Err(PortError::PortExhausted));
}

#[test]
fn probe_finds_first_acceptable_port() {
    assert_eq!(get_free_port(10, 20, |p: u16| p == 15), Ok(15));
    assert_eq!(get_free_port(10, 20, |p: u16| p >= 13), Ok(13));
    assert_eq!(get_free_port(10, 20, |_p: u16| true), Ok(10));
}

#[test]
fn probe_reports_exhaustion_when_nothing_binds() {
    assert_eq!(get_free_port(10, 20, |_p: u16| false), Err(PortError::PortExhausted));
}

#[test]
fn empty_range_probe_never_calls_the_probe() {
    let probe = |_p: u16| -> bool { panic!("the probe must not run on an empty range") };
    assert_eq!(get_free_port(5000, 5000, probe), Err(PortError::PortExhausted));
    let probe2 = |_p: u16| -> bool { panic!("the probe must not run on an empty range") };
    assert_eq!(get_free_port(6000, 5000, probe2), Err(PortError::PortExhausted));
}
