//! What a statement that reads clients brings of the table: those that are wanted, in an order, and
//! no more of them than it asks for.

use crate::client::ClientView;
use crate::clock::NANOS_PER_SECOND;
use crate::table::has_distinct_ids;
use vstd::prelude::*;

verus! {

/// Whether a statement that asks for the clients of the table that are wanted, and for no more
/// than `limit` of them, can bring `rows`.
pub open spec fn selects(
    table: Seq<ClientView>,
    wanted: spec_fn(ClientView) -> bool,
    limit: nat,
    rows: Seq<ClientView>,
) -> bool {
    &&& rows.len() <= limit
    &&& has_distinct_ids(rows)
    &&& forall|i: int|
        0 <= i < rows.len() ==> table.contains(#[trigger] rows[i]) && wanted(rows[i])
    &&& forall|row: ClientView| #[trigger]
        table.contains(row) && wanted(row) && !rows.contains(row) ==> rows.len() == limit
}

/// Whether a statement that asks for the clients of the table that are wanted, in an order, and for
/// no more than `limit` of them, can bring `rows`: none comes behind one that it goes before, and
/// none that is left out goes before one that comes.
pub open spec fn selects_in_order(
    table: Seq<ClientView>,
    wanted: spec_fn(ClientView) -> bool,
    goes_before: spec_fn(ClientView, ClientView) -> bool,
    limit: nat,
    rows: Seq<ClientView>,
) -> bool {
    &&& selects(table, wanted, limit, rows)
    &&& forall|i: int, j: int|
        0 <= i < j < rows.len() ==> !goes_before(#[trigger] rows[j], #[trigger] rows[i])
    &&& forall|row: ClientView, i: int|
        #![trigger table.contains(row), rows[i]]
        table.contains(row) && wanted(row) && !rows.contains(row) && 0 <= i < rows.len()
            ==> !goes_before(row, rows[i])
}

/// The time of the entry of a client, in nanoseconds since 1970.
pub open spec fn entry(c: ClientView) -> int {
    c.created_at.seconds * NANOS_PER_SECOND + c.created_at.nanos
}

/// The order in which the client that was added later goes first.
pub open spec fn later_first() -> spec_fn(ClientView, ClientView) -> bool {
    |a: ClientView, b: ClientView| entry(a) > entry(b)
}

/// Whether `rows` are the most recently added of the clients that are wanted, the latest first.
pub open spec fn selects_newest(
    table: Seq<ClientView>,
    wanted: spec_fn(ClientView) -> bool,
    limit: nat,
    rows: Seq<ClientView>,
) -> bool {
    selects_in_order(table, wanted, later_first(), limit, rows)
}

/// Whether no two clients of the table were added at the same time.
pub open spec fn has_distinct_entries(table: Seq<ClientView>) -> bool {
    forall|i: int, j: int|
        0 <= i < j < table.len() ==> entry(#[trigger] table[i]) != entry(#[trigger] table[j])
}

/// Where no more clients are wanted than a statement brings, it brings every one of them.
pub proof fn all_that_are_wanted_come(
    table: Seq<ClientView>,
    wanted: spec_fn(ClientView) -> bool,
    limit: nat,
    rows: Seq<ClientView>,
    row: ClientView,
)
    requires
        selects(table, wanted, limit, rows),
        table.filter(wanted).len() <= limit,
        table.contains(row),
        wanted(row),
    ensures
        rows.contains(row),
{
    if !rows.contains(row) {
        let all = table.filter(wanted);
        let more = rows.push(row);
        assert(more.no_duplicates()) by {
            assert forall|i: int, j: int| 0 <= i < j < more.len() implies more[i] != more[j] by {
                if j < rows.len() {
                    assert(rows[i].id != rows[j].id);
                } else {
                    assert(rows.contains(rows[i]));
                }
            }
        }
        assert forall|c: ClientView| more.to_set().contains(c) implies all.to_set().contains(c) by {
            let i = choose|i: int| 0 <= i < more.len() && more[i] == c;
            if i < rows.len() {
                assert(table.contains(rows[i]) && wanted(rows[i]));
            }
            wanted_is_filtered(table, wanted, c);
        }
        more.unique_seq_to_set();
        all.lemma_cardinality_of_set();
        vstd::set_lib::lemma_len_subset(more.to_set(), all.to_set());
    }
}

/// A client of the table that is wanted is one of those that are wanted.
proof fn wanted_is_filtered(
    table: Seq<ClientView>,
    wanted: spec_fn(ClientView) -> bool,
    row: ClientView,
)
    requires
        table.contains(row),
        wanted(row),
    ensures
        table.filter(wanted).contains(row),
{
    let k = choose|k: int| 0 <= k < table.len() && table[k] == row;
    table.lemma_filter_contains(wanted, k);
}

/// Two replies of a statement that asks for the latest clients agree up to where the second one
/// ends, and the second is not the shorter one.
proof fn newest_agree(
    table: Seq<ClientView>,
    wanted: spec_fn(ClientView) -> bool,
    limit: nat,
    rows: Seq<ClientView>,
    others: Seq<ClientView>,
    n: int,
)
    requires
        selects_newest(table, wanted, limit, rows),
        selects_newest(table, wanted, limit, others),
        has_distinct_entries(table.filter(wanted)),
        0 <= n <= rows.len(),
    ensures
        n <= others.len(),
        forall|i: int| 0 <= i < n ==> #[trigger] rows[i] == others[i],
    decreases n,
{
    if n > 0 {
        let i = n - 1;
        newest_agree(table, wanted, limit, rows, others, i);
        assert(table.contains(rows[i]) && wanted(rows[i]));
        if others.contains(rows[i]) {
            let j = choose|j: int| 0 <= j < others.len() && others[j] == rows[i];
            if j < i {
                assert(rows[j].id != rows[i].id);
            }
        } else {
            assert(others.len() == limit);
        }
        assert(i < others.len());
        assert(table.contains(others[i]) && wanted(others[i]));
        if rows[i] != others[i] {
            is_later(table, wanted, limit, rows, others, i);
            is_later(table, wanted, limit, others, rows, i);
            let all = table.filter(wanted);
            wanted_is_filtered(table, wanted, rows[i]);
            wanted_is_filtered(table, wanted, others[i]);
            let a = choose|a: int| 0 <= a < all.len() && all[a] == rows[i];
            let b = choose|b: int| 0 <= b < all.len() && all[b] == others[i];
            assert(entry(all[a]) != entry(all[b]));
        }
    }
}

/// Where two replies agree up to a place, what the second holds there is no earlier than what the
/// first does.
proof fn is_later(
    table: Seq<ClientView>,
    wanted: spec_fn(ClientView) -> bool,
    limit: nat,
    rows: Seq<ClientView>,
    others: Seq<ClientView>,
    i: int,
)
    requires
        selects_newest(table, wanted, limit, rows),
        selects_newest(table, wanted, limit, others),
        0 <= i < rows.len(),
        i < others.len(),
        forall|k: int| 0 <= k < i ==> #[trigger] rows[k] == others[k],
    ensures
        entry(others[i]) >= entry(rows[i]),
{
    assert(table.contains(rows[i]) && wanted(rows[i]));
    if others.contains(rows[i]) {
        let j = choose|j: int| 0 <= j < others.len() && others[j] == rows[i];
        if j < i {
            assert(rows[j] == others[j]);
            assert(rows[j].id != rows[i].id);
        } else if i < j {
            assert(entry(others[i]) >= entry(others[j]));
        }
    }
}

/// Where no two of the clients that are wanted were added at the same time, a statement that asks
/// for the latest ones has one reply.
pub proof fn newest_are_determined(
    table: Seq<ClientView>,
    wanted: spec_fn(ClientView) -> bool,
    limit: nat,
    rows: Seq<ClientView>,
    others: Seq<ClientView>,
)
    requires
        selects_newest(table, wanted, limit, rows),
        selects_newest(table, wanted, limit, others),
        has_distinct_entries(table.filter(wanted)),
    ensures
        rows == others,
{
    newest_agree(table, wanted, limit, rows, others, rows.len() as int);
    newest_agree(table, wanted, limit, others, rows, others.len() as int);
    assert(rows =~= others);
}

/// A statement that asks for fewer of the latest clients can bring the first of those that it
/// brings when it asks for more.
pub proof fn fewer_are_the_first(
    table: Seq<ClientView>,
    wanted: spec_fn(ClientView) -> bool,
    limit: nat,
    rows: Seq<ClientView>,
    fewer: nat,
)
    requires
        selects_newest(table, wanted, limit, rows),
        fewer <= limit,
    ensures
        selects_newest(
            table,
            wanted,
            fewer,
            rows.take(
                if rows.len() < fewer {
                    rows.len() as int
                } else {
                    fewer as int
                },
            ),
        ),
{
    let kept: int = if rows.len() < fewer {
        rows.len() as int
    } else {
        fewer as int
    };
    let first = rows.take(kept);
    assert(has_distinct_ids(first)) by {
        assert forall|i: int, j: int| 0 <= i < j < first.len() implies #[trigger] first[i].id
            != #[trigger] first[j].id by {
            assert(rows[i].id != rows[j].id);
        }
    }
    assert forall|i: int| 0 <= i < first.len() implies table.contains(#[trigger] first[i])
        && wanted(first[i]) by {
        assert(first[i] == rows[i]);
    }
    assert forall|i: int, j: int| 0 <= i < j < first.len() implies entry(#[trigger] first[i])
        >= entry(#[trigger] first[j]) by {
        assert(!later_first()(rows[j], rows[i]));
    }
    assert forall|row: ClientView| #[trigger]
        table.contains(row) && wanted(row) && !first.contains(row) implies first.len() == fewer && (
    forall|i: int| 0 <= i < first.len() ==> entry(#[trigger] first[i]) >= entry(row)) by {
        if rows.contains(row) {
            let k = choose|k: int| 0 <= k < rows.len() && rows[k] == row;
            if k < kept {
                assert(first[k] == row);
            }
            assert forall|i: int| 0 <= i < first.len() implies entry(#[trigger] first[i]) >= entry(
                row,
            ) by {
                assert(!later_first()(rows[k], rows[i]));
            }
        } else {
            assert forall|i: int| 0 <= i < first.len() implies entry(#[trigger] first[i]) >= entry(
                row,
            ) by {
                assert(!later_first()(row, rows[i]));
            }
        }
    }
}

} // verus!
