//! The serving socket's lifecycle: cleanup on interrupt, rebinding.

use sshield::errors::Error;
use sshield::lifecycle::SocketLifecycle;

#[test]
fn interrupted_serve_removes_the_socket_and_allows_rebinding() {
    let mut life = SocketLifecycle::at_start(false);
    assert!(life.bind().is_ok());
    assert!(life.socket_present);
    life.interrupt();
    assert!(!life.socket_present);
    let mut next = life.restart();
    assert!(next.bind().is_ok());
}

#[test]
fn stale_socket_makes_bind_fail() {
    let mut life = SocketLifecycle::at_start(true);
    match life.bind() {
        Err(e) => assert_eq!(e, Error::Socket),
        Ok(_) => panic!("binding over a stale socket must fail"),
    }
    assert!(life.socket_present);
}
