//! Connection numbers and the address to listen on.

use client_desk::server::{listen_address, next_conn_id, FIRST_CONN_ID};

#[test]
fn connections_are_numbered_from_one() {
    let mut counter = FIRST_CONN_ID;
    assert_eq!(next_conn_id(&mut counter), 1);
    assert_eq!(next_conn_id(&mut counter), 2);
    assert_eq!(next_conn_id(&mut counter), 3);
    assert_eq!(counter, 4);
}

#[test]
fn connection_numbers_come_round() {
    let mut counter = u64::MAX;
    assert_eq!(next_conn_id(&mut counter), u64::MAX);
    assert_eq!(next_conn_id(&mut counter), 0);
    assert_eq!(next_conn_id(&mut counter), 1);
}

#[test]
fn connection_numbers_are_distinct() {
    let mut counter = FIRST_CONN_ID;
    let ids: Vec<u64> = (0..100).map(|_| next_conn_id(&mut counter)).collect();
    for i in 0..ids.len() {
        for j in 0..i {
            assert_ne!(ids[i], ids[j]);
        }
    }
}

#[test]
fn address_at_the_port_that_is_set() {
    assert_eq!(listen_address(Some("9000".to_string())), "0.0.0.0:9000");
    assert_eq!(listen_address(Some("".to_string())), "0.0.0.0:");
}

#[test]
fn address_at_the_default_port() {
    assert_eq!(listen_address(None), "0.0.0.0:8080");
}

#[test]
fn first_connections_take_the_first_numbers() {
    let mut counter = FIRST_CONN_ID;
    let ids: Vec<u64> = (0..10).map(|_| next_conn_id(&mut counter)).collect();
    assert_eq!(ids, (1..11).collect::<Vec<u64>>());
}
