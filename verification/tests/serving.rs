use pcp_portmap::lease::{Lease, MAX_RENEWAL_FAILURES};
use pcp_portmap::manager::{Command, CommandQueue, LifecycleError};
use pcp_portmap::mapper::Request;

fn register(key: &str) -> Command {
    Command::Register {
        key: key.to_string(),
        request: Request { local_port: 30080, external_port: 8080, protocol: 6 },
    }
}

fn unregister(key: &str) -> Command {
    Command::Unregister { key: key.to_string() }
}

fn key_of(command: &Command) -> String {
    match command {
        Command::Register { key, .. } => key.clone(),
        Command::Unregister { key } => key.clone(),
    }
}

#[test]
fn commands_come_out_in_the_order_they_went_in() {
    let mut q = CommandQueue::new();
    assert!(q.next().is_none());
    assert_eq!(q.submit(register("a")), Ok(0));
    assert_eq!(q.submit(unregister("a")), Ok(1));
    assert_eq!(q.submit(register("b")), Ok(2));
    assert_eq!(q.len(), 3);
    let first = q.next().unwrap();
    assert_eq!(first.ticket, 0);
    assert!(matches!(first.command, Command::Register { ref key, .. } if key == "a"));
    let second = q.next().unwrap();
    assert_eq!(second.ticket, 1);
    assert!(matches!(second.command, Command::Unregister { ref key } if key == "a"));
    assert_eq!(q.submit(register("c")), Ok(3));
    assert_eq!(key_of(&q.next().unwrap().command), "b");
    assert_eq!(key_of(&q.next().unwrap().command), "c");
    assert!(q.next().is_none());
    assert_eq!(q.len(), 0);
}

#[test]
fn shut_down_hands_back_what_waits_and_takes_no_more() {
    let mut q = CommandQueue::new();
    q.submit(register("a")).unwrap();
    q.submit(unregister("b")).unwrap();
    assert!(!q.is_closed());
    let unserved = q.shut_down();
    assert!(q.is_closed());
    assert_eq!(unserved.iter().map(|u| u.ticket).collect::<Vec<u64>>(), vec![0, 1]);
    assert_eq!(key_of(&unserved[1].command), "b");
    assert_eq!(q.len(), 0);
    assert!(q.next().is_none());
    assert_eq!(q.submit(register("c")), Err(LifecycleError::ShutDown));
    assert_eq!(q.len(), 0);
    assert!(q.shut_down().is_empty());
}

#[test]
fn first_renewal_is_due_after_a_third_of_the_lifetime() {
    let lease = Lease::granted(1000, 7200);
    assert_eq!(lease, Lease { granted_at: 1000, lifetime_seconds: 7200, failures: 0, due_at: 3400 });
    assert!(!lease.is_due(3399));
    assert!(lease.is_due(3400));
    assert!(lease.is_due(9000));
    assert_eq!(Lease::granted(5, 2).due_at, 5);
    assert_eq!(Lease::granted(u64::MAX - 1, 7200).due_at, u64::MAX);
}

#[test]
fn retries_back_off_from_two_seconds() {
    assert_eq!(MAX_RENEWAL_FAILURES, 5);
    let mut lease = Lease::granted(0, 7200);
    let mut now = 2400;
    for (failures, delay) in [(1, 2), (2, 4), (3, 8), (4, 16)] {
        lease = lease.failed(now).unwrap();
        assert_eq!(lease.failures, failures);
        assert_eq!(lease.due_at, now + delay);
        assert_eq!(lease.granted_at, 0);
        assert_eq!(lease.lifetime_seconds, 7200);
        now = lease.due_at;
    }
    assert_eq!(lease.failed(now), Err(LifecycleError::RenewalExhausted));
}

#[test]
fn retries_stay_inside_the_lifetime() {
    let lease = Lease { granted_at: 100, lifetime_seconds: 10, failures: 2, due_at: 103 };
    assert_eq!(lease.failed(103).unwrap().due_at, 109);
    assert_eq!(lease.failed(108).unwrap().due_at, 109);
    assert_eq!(lease.failed(109).unwrap().due_at, 109);
    assert_eq!(lease.failed(110), Err(LifecycleError::RenewalExhausted));
    assert_eq!(lease.failed(5000), Err(LifecycleError::RenewalExhausted));
    let zero = Lease::granted(7, 0);
    assert_eq!(zero.failed(7), Err(LifecycleError::RenewalExhausted));
}
