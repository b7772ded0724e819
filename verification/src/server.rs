//! What the server around the tools decides: the numbers that tell connections apart, and the
//! address to listen on.

use vstd::prelude::*;

verus! {

/// The number of the first connection of a process.
pub const FIRST_CONN_ID: u64 = 1;

/// The port that the server listens on when none is set.
pub const DEFAULT_PORT: &'static str = "8080";

/// The number that the counter holds after `id`: the next one, and zero after the largest.
pub open spec fn conn_id_after(id: u64) -> u64 {
    if id == u64::MAX {
        0
    } else {
        (id + 1) as u64
    }
}

/// The number that the connection at position `n` (from zero) is given.
pub open spec fn nth_conn_id(n: nat) -> u64
    decreases n,
{
    if n == 0 {
        FIRST_CONN_ID
    } else {
        conn_id_after(nth_conn_id((n - 1) as nat))
    }
}

/// Hands out the number that the counter holds, and moves the counter to the next one.
pub fn next_conn_id(counter: &mut u64) -> (id: u64)
    ensures
        id == *old(counter),
        *final(counter) == conn_id_after(*old(counter)),
{
    let id: u64 = *counter;
    *counter = id.wrapping_add(1);
    id
}

/// The numbers of a process run through all the values of a `u64`, and come round to the first
/// one after it has handed out every one of them.
pub proof fn conn_ids_count_up(n: nat)
    ensures
        nth_conn_id(n) as int == (FIRST_CONN_ID + n) % (u64::MAX + 1),
    decreases n,
{
    if n > 0 {
        conn_ids_count_up((n - 1) as nat);
        let modulus: int = u64::MAX + 1;
        let previous: int = FIRST_CONN_ID + n - 1;
        assert((previous + 1) % modulus == if previous % modulus == modulus - 1 {
            0
        } else {
            previous % modulus + 1
        });
    }
}

/// The first connections of a process are numbered from one on: the first `n` of them are given
/// the numbers from one to `n`, each of them once. A call has the counter to itself, so this is
/// the order in which the calls come to it, whoever makes them.
pub proof fn first_conn_ids(n: nat)
    requires
        n <= u64::MAX,
    ensures
        forall|i: nat| i < n ==> #[trigger] nth_conn_id(i) == i + 1,
{
    assert forall|i: nat| i < n implies #[trigger] nth_conn_id(i) == i + 1 by {
        conn_ids_count_up(i);
    }
}

/// No two of the connections of a process that lie less than 2^64 apart share a number.
pub proof fn conn_ids_are_distinct(m: nat, n: nat)
    requires
        m < n <= m + u64::MAX,
    ensures
        nth_conn_id(m) != nth_conn_id(n),
{
    conn_ids_count_up(m);
    conn_ids_count_up(n);
    let modulus: int = u64::MAX + 1;
    if nth_conn_id(m) == nth_conn_id(n) {
        let a: int = FIRST_CONN_ID + m;
        let b: int = FIRST_CONN_ID + n;
        assert(a % modulus == b % modulus);
        assert((b - a) % modulus == 0);
    }
}

/// The address to listen on: every interface, at the port that is set, or at the default one.
pub open spec fn address_for(port: Option<Seq<char>>) -> Seq<char> {
    "0.0.0.0:"@ + port.unwrap_or(DEFAULT_PORT@)
}

/// The address to listen on, from the port that the environment sets, if it sets one.
pub fn listen_address(port: Option<String>) -> (address: String)
    ensures
        address@ == address_for(crate::text::text_view(port)),
{
    let mut address = "0.0.0.0:".to_string();
    match port {
        Some(port) => address.append(port.as_str()),
        None => address.append(DEFAULT_PORT),
    }
    address
}

} // verus!
