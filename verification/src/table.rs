//! What the statements do to the table of clients, and what holds of it over the calls of the
//! tools.
//!
//! The table is a sequence of clients, in no order that matters. The database alone decides how it
//! replies; the relations of this module say what a reply tells of the table. They leave one thing
//! out: a connection that is lost after a change was made and before the reply came.

use crate::add::{added_output, InsertedView};
use crate::client::ClientView;
use crate::clock::TimestampView;
use crate::find::found_step;
use crate::list::listed_output;
use crate::requests::{ClientChangesView, FilterSearchView, NameSearchView, NewClientView};
use crate::search::searched_step;
use crate::statement::{insert_statement, update_statement, BindView};
use crate::step::{OutputView, StepView};
use crate::tools::{start_step, Tool};
use crate::update::{give_different_fields, is_status, row_after, updated_output};
use vstd::prelude::*;

verus! {

/// Whether a client of the table has the identifier.
pub open spec fn has_id(table: Seq<ClientView>, id: u128) -> bool {
    exists|i: int| 0 <= i < table.len() && #[trigger] table[i].id == id
}

/// Whether no two clients of the table share an identifier.
pub open spec fn has_distinct_ids(table: Seq<ClientView>) -> bool {
    forall|i: int, j: int| 0 <= i < j < table.len() ==> #[trigger] table[i].id != #[trigger] table[j].id
}

/// Whether every client of the table has a valid status.
pub open spec fn has_valid_statuses(table: Seq<ClientView>) -> bool {
    forall|i: int| 0 <= i < table.len() ==> is_status(#[trigger] table[i].status)
}

/// The text that is bound, unless it is null.
pub open spec fn bound_text(bind: BindView) -> Option<Seq<char>> {
    match bind {
        BindView::Text(text) => text,
        _ => None,
    }
}

/// The number that is bound, unless it is null.
pub open spec fn bound_integer(bind: BindView) -> Option<i64> {
    match bind {
        BindView::Integer(n) => n,
        _ => None,
    }
}

/// The client that `INSERT_CLIENT` adds, with these values bound, and with what the database gives
/// it.
pub open spec fn inserted_row(binds: Seq<BindView>, given: InsertedView) -> ClientView {
    ClientView {
        id: given.id,
        name: bound_text(binds[0])->0,
        email: bound_text(binds[1])->0,
        phone: bound_text(binds[2]),
        budget_min: bound_integer(binds[3]),
        budget_max: bound_integer(binds[4]),
        preferred_areas: bound_text(binds[5]),
        notes: bound_text(binds[6]),
        status: "active"@,
        created_at: given.created_at,
    }
}

/// The row of a client that was added.
pub open spec fn new_row(client: NewClientView, given: InsertedView) -> ClientView {
    inserted_row(insert_statement(client).binds, given)
}

/// A row of the table, once an update was made.
pub open spec fn updated_row(changes: ClientChangesView, row: ClientView) -> ClientView {
    if row.id == changes.id {
        row_after(update_statement(changes).binds, row)
    } else {
        row
    }
}

/// The table, once an update was made.
pub open spec fn updated_table(changes: ClientChangesView, table: Seq<ClientView>) -> Seq<
    ClientView,
> {
    table.map_values(|row: ClientView| updated_row(changes, row))
}

/// Whether the statement that adds a client can make of `table` what `after` is, and reply so.
pub open spec fn inserts(
    client: NewClientView,
    table: Seq<ClientView>,
    reply: Result<InsertedView, Seq<char>>,
    after: Seq<ClientView>,
) -> bool {
    match reply {
        Ok(given) => !has_id(table, given.id) && after == table.push(new_row(client, given)),
        Err(_) => after == table,
    }
}

/// Whether the statement that changes a client can make of `table` what `after` is, and reply so.
pub open spec fn updates(
    changes: ClientChangesView,
    table: Seq<ClientView>,
    reply: Result<Option<ClientView>, Seq<char>>,
    after: Seq<ClientView>,
) -> bool {
    match reply {
        Ok(Some(row)) => row.id == changes.id && after == updated_table(changes, table)
            && after.contains(row),
        Ok(None) => !has_id(table, changes.id) && after == table,
        Err(_) => after == table,
    }
}

/// Whether a call that is at `step` can make of `table` what `after` is, and answer with `output`,
/// for some replies of the database and some times of the clock.
pub open spec fn can_end(
    step: StepView,
    table: Seq<ClientView>,
    after: Seq<ClientView>,
    output: OutputView,
) -> bool
    decreases step.statements_left(),
{
    match step {
        StepView::Done(answer) => after == table && output == answer,
        StepView::Insert(client) => exists|reply: Result<InsertedView, Seq<char>>|
            #[trigger] inserts(client, table, reply, after) && output == added_output(
                client,
                reply,
            ),
        StepView::Update(changes) => exists|reply: Result<Option<ClientView>, Seq<char>>|
            #[trigger] updates(changes, table, reply, after) && output == updated_output(
                changes.id,
                reply,
            ),
        StepView::List => after == table && exists|reply: Result<Seq<ClientView>, Seq<char>>|
            output == #[trigger] listed_output(reply),
        StepView::Find(search) => exists|
            reply: Result<Seq<ClientView>, Seq<char>>,
            now: TimestampView,
        |
            can_end(#[trigger] found_step(search, reply, now), table, after, output),
        StepView::Search(search) => exists|reply: Result<Seq<ClientView>, Seq<char>>|
            can_end(#[trigger] searched_step(search, reply), table, after, output),
    }
}

/// Only a call that adds a client comes to a statement that adds one, and only a call that changes
/// a client to a statement that changes one: whatever the model sends and the database replies.
pub proof fn steps_stay_in_their_kind(
    tool: Tool,
    text: Seq<char>,
    find: NameSearchView,
    search: FilterSearchView,
    reply: Result<Seq<ClientView>, Seq<char>>,
    now: TimestampView,
)
    ensures
        start_step(tool, text) is Insert ==> tool == Tool::AddClient,
        start_step(tool, text) is Update ==> tool == Tool::UpdateClient,
        start_step(tool, text) is Find ==> tool == Tool::GetClientByName || tool
            == Tool::PrepClient,
        start_step(tool, text) is Search ==> tool == Tool::SearchClients,
        start_step(tool, text) is List <==> tool == Tool::ListClients,
        found_step(find, reply, now) is Find || found_step(find, reply, now) is Done,
        searched_step(search, reply) is Search || searched_step(search, reply) is Done,
{
}

/// A call that reads clients leaves the table as it is.
proof fn reading_changes_nothing(
    step: StepView,
    table: Seq<ClientView>,
    after: Seq<ClientView>,
    output: OutputView,
)
    requires
        can_end(step, table, after, output),
        !(step is Insert),
        !(step is Update),
    ensures
        after == table,
    decreases step.statements_left(),
{
    match step {
        StepView::Find(search) => {
            let (reply, now) = choose|
                reply: Result<Seq<ClientView>, Seq<char>>,
                now: TimestampView,
            |
                can_end(#[trigger] found_step(search, reply, now), table, after, output);
            reading_changes_nothing(found_step(search, reply, now), table, after, output);
        },
        StepView::Search(search) => {
            let reply = choose|reply: Result<Seq<ClientView>, Seq<char>>|
                can_end(#[trigger] searched_step(search, reply), table, after, output);
            reading_changes_nothing(searched_step(search, reply), table, after, output);
        },
        _ => {},
    }
}

/// No call deletes a client. Only `add_client` adds one, under a new identifier, and only where it
/// answers with data; only `update_client` changes one, and no other than the one that it names;
/// the other tools leave the table as it is.
pub proof fn tools_write_only_their_kind(
    tool: Tool,
    text: Seq<char>,
    table: Seq<ClientView>,
    after: Seq<ClientView>,
    output: OutputView,
)
    requires
        can_end(start_step(tool, text), table, after, output),
        has_distinct_ids(table),
    ensures
        forall|id: u128| has_id(table, id) ==> #[trigger] has_id(after, id),
        has_distinct_ids(after),
        tool != Tool::AddClient && tool != Tool::UpdateClient ==> after == table,
        tool == Tool::AddClient ==> if output.data is Some {
            exists|row: ClientView| !has_id(table, row.id) && after == #[trigger] table.push(row)
        } else {
            after == table
        },
        tool == Tool::UpdateClient ==> {
            &&& after.len() == table.len()
            &&& forall|i: int| 0 <= i < table.len() ==> #[trigger] after[i].id == table[i].id
            &&& forall|i: int, j: int|
                0 <= i < table.len() && 0 <= j < table.len() && #[trigger] after[i] != table[i]
                    && #[trigger] after[j] != table[j] ==> i == j
            &&& output.data is None ==> after == table
        },
{
    let step = start_step(tool, text);
    steps_stay_in_their_kind(tool, text, arbitrary(), arbitrary(), arbitrary(), arbitrary());
    match step {
        StepView::Insert(client) => {
            let reply = choose|reply: Result<InsertedView, Seq<char>>|
                #[trigger] inserts(client, table, reply, after) && output == added_output(
                    client,
                    reply,
                );
            inserts_add_one(client, table, reply, after);
        },
        StepView::Update(changes) => {
            let reply = choose|reply: Result<Option<ClientView>, Seq<char>>|
                #[trigger] updates(changes, table, reply, after) && output == updated_output(
                    changes.id,
                    reply,
                );
            updates_change_one(changes, table, reply, after);
        },
        _ => {
            reading_changes_nothing(step, table, after, output);
        },
    }
}

/// A client that is added comes under a new identifier, and the others stay.
proof fn inserts_add_one(
    client: NewClientView,
    table: Seq<ClientView>,
    reply: Result<InsertedView, Seq<char>>,
    after: Seq<ClientView>,
)
    requires
        inserts(client, table, reply, after),
        has_distinct_ids(table),
    ensures
        forall|id: u128| has_id(table, id) ==> #[trigger] has_id(after, id),
        has_distinct_ids(after),
        reply matches Ok(given) ==> after == table.push(new_row(client, given)) && !has_id(
            table,
            new_row(client, given).id,
        ),
{
    if let Ok(given) = reply {
        assert forall|id: u128| has_id(table, id) implies #[trigger] has_id(after, id) by {
            let i = choose|i: int| 0 <= i < table.len() && #[trigger] table[i].id == id;
            assert(after[i].id == id);
        }
        assert forall|i: int, j: int| 0 <= i < j < after.len() implies #[trigger] after[i].id
            != #[trigger] after[j].id by {
            assert(after[i] == table[i]);
            if j == table.len() {
                assert(table[i].id != given.id);
            } else {
                assert(after[j] == table[j]);
            }
        }
    }
}

/// A client that is changed keeps its place and its identifier, and no other changes.
proof fn updates_change_one(
    changes: ClientChangesView,
    table: Seq<ClientView>,
    reply: Result<Option<ClientView>, Seq<char>>,
    after: Seq<ClientView>,
)
    requires
        updates(changes, table, reply, after),
        has_distinct_ids(table),
    ensures
        forall|id: u128| has_id(table, id) ==> #[trigger] has_id(after, id),
        has_distinct_ids(after),
        after.len() == table.len(),
        forall|i: int| 0 <= i < table.len() ==> #[trigger] after[i].id == table[i].id,
        forall|i: int, j: int|
            0 <= i < table.len() && 0 <= j < table.len() && #[trigger] after[i] != table[i]
                && #[trigger] after[j] != table[j] ==> i == j,
{
    updates_keep_the_ids(changes, table);
    if reply matches Ok(Some(_)) {
        assert forall|i: int, j: int|
            0 <= i < table.len() && 0 <= j < table.len() && #[trigger] after[i] != table[i]
                && #[trigger] after[j] != table[j] implies i == j by {
            assert(table[i].id == changes.id && table[j].id == changes.id);
        }
    }
}

/// An update leaves the identifiers as they are.
proof fn updates_keep_the_ids(changes: ClientChangesView, table: Seq<ClientView>)
    ensures
        updated_table(changes, table).len() == table.len(),
        forall|i: int|
            0 <= i < table.len() ==> #[trigger] updated_table(changes, table)[i].id == table[i].id,
        forall|id: u128| has_id(table, id) ==> #[trigger] has_id(updated_table(changes, table), id),
        has_distinct_ids(table) ==> has_distinct_ids(updated_table(changes, table)),
{
    let after = updated_table(changes, table);
    assert forall|id: u128| has_id(table, id) implies #[trigger] has_id(after, id) by {
        let i = choose|i: int| 0 <= i < table.len() && #[trigger] table[i].id == id;
        assert(after[i].id == id);
    }
    if has_distinct_ids(table) {
        assert forall|i: int, j: int| 0 <= i < j < after.len() implies #[trigger] after[i].id
            != #[trigger] after[j].id by {
            assert(table[i].id != table[j].id);
        }
    }
}

/// A client that is added has a valid status.
proof fn added_statuses_are_valid(
    client: NewClientView,
    table: Seq<ClientView>,
    reply: Result<InsertedView, Seq<char>>,
    after: Seq<ClientView>,
)
    requires
        inserts(client, table, reply, after),
        has_valid_statuses(table),
    ensures
        has_valid_statuses(after),
{
}

/// A client that is changed to a valid status, or keeps one, has one.
proof fn updated_statuses_are_valid(
    changes: ClientChangesView,
    table: Seq<ClientView>,
    reply: Result<Option<ClientView>, Seq<char>>,
    after: Seq<ClientView>,
)
    requires
        updates(changes, table, reply, after),
        has_valid_statuses(table),
        changes.has_valid_status(),
    ensures
        has_valid_statuses(after),
{
    if reply matches Ok(Some(_)) {
        assert forall|i: int| 0 <= i < after.len() implies is_status(
            #[trigger] after[i].status,
        ) by {
            assert(is_status(table[i].status));
        }
    }
}

/// Every update that a call comes to has a valid status, where it gives one.
proof fn updates_start_valid(tool: Tool, text: Seq<char>)
    ensures
        start_step(tool, text) matches StepView::Update(changes) ==> changes.has_valid_status(),
{
}

/// Every client has a valid status: no call that is at a step with a valid one changes that.
proof fn steps_keep_statuses_valid(
    step: StepView,
    table: Seq<ClientView>,
    after: Seq<ClientView>,
    output: OutputView,
)
    requires
        can_end(step, table, after, output),
        has_valid_statuses(table),
        step matches StepView::Update(changes) ==> changes.has_valid_status(),
    ensures
        has_valid_statuses(after),
{
    match step {
        StepView::Insert(client) => {
            let reply = choose|reply: Result<InsertedView, Seq<char>>|
                #[trigger] inserts(client, table, reply, after) && output == added_output(
                    client,
                    reply,
                );
            added_statuses_are_valid(client, table, reply, after);
        },
        StepView::Update(changes) => {
            let reply = choose|reply: Result<Option<ClientView>, Seq<char>>|
                #[trigger] updates(changes, table, reply, after) && output == updated_output(
                    changes.id,
                    reply,
                );
            updated_statuses_are_valid(changes, table, reply, after);
        },
        _ => {
            reading_changes_nothing(step, table, after, output);
        },
    }
}

/// Every client has a valid status: no call changes that.
pub proof fn statuses_stay_valid(
    tool: Tool,
    text: Seq<char>,
    table: Seq<ClientView>,
    after: Seq<ClientView>,
    output: OutputView,
)
    requires
        can_end(start_step(tool, text), table, after, output),
        has_valid_statuses(table),
    ensures
        has_valid_statuses(after),
{
    updates_start_valid(tool, text);
    steps_keep_statuses_valid(start_step(tool, text), table, after, output);
}

/// Whether a call of a tool can make of `table` what `after` is.
#[verifier::opaque]
pub open spec fn call_leads(
    tool: Tool,
    text: Seq<char>,
    table: Seq<ClientView>,
    after: Seq<ClientView>,
) -> bool {
    exists|output: OutputView| can_end(start_step(tool, text), table, after, output)
}

/// Whether a course of calls, each a tool and the text that it is called with, can lead from the
/// first of the tables to the last.
pub open spec fn calls_lead(calls: Seq<(Tool, Seq<char>)>, tables: Seq<Seq<ClientView>>) -> bool {
    tables.len() == calls.len() + 1 && forall|i: int|
        0 <= i < calls.len() ==> call_leads(
            #[trigger] calls[i].0,
            calls[i].1,
            tables[i],
            tables[i + 1],
        )
}

/// No call deletes a client, makes two share an identifier, or leaves one with a status that is
/// not valid.
proof fn call_keeps_the_clients(
    tool: Tool,
    text: Seq<char>,
    table: Seq<ClientView>,
    after: Seq<ClientView>,
)
    requires
        call_leads(tool, text, table, after),
        has_distinct_ids(table),
    ensures
        forall|id: u128| has_id(table, id) ==> #[trigger] has_id(after, id),
        has_distinct_ids(after),
        has_valid_statuses(table) ==> has_valid_statuses(after),
{
    reveal(call_leads);
    let output = choose|output: OutputView| can_end(start_step(tool, text), table, after, output);
    tools_write_only_their_kind(tool, text, table, after, output);
    if has_valid_statuses(table) {
        statuses_stay_valid(tool, text, table, after, output);
    }
}

/// Over any course of calls no client is ever deleted, no two come to share an identifier, and
/// statuses that are valid stay so.
pub proof fn calls_keep_the_clients(calls: Seq<(Tool, Seq<char>)>, tables: Seq<Seq<ClientView>>)
    requires
        calls_lead(calls, tables),
        has_distinct_ids(tables[0]),
    ensures
        forall|id: u128| has_id(tables[0], id) ==> #[trigger] has_id(tables.last(), id),
        has_distinct_ids(tables.last()),
        has_valid_statuses(tables[0]) ==> has_valid_statuses(tables.last()),
    decreases calls.len(),
{
    if calls.len() > 0 {
        let n = calls.len() - 1;
        let earlier_calls = calls.drop_last();
        let earlier = tables.drop_last();
        assert forall|i: int| 0 <= i < n implies call_leads(
            #[trigger] earlier_calls[i].0,
            earlier_calls[i].1,
            earlier[i],
            earlier[i + 1],
        ) by {
            assert(calls[i].0 == earlier_calls[i].0);
        }
        calls_keep_the_clients(earlier_calls, earlier);
        assert(call_leads(calls[n].0, calls[n].1, tables[n], tables[n + 1]));
        call_keeps_the_clients(calls[n].0, calls[n].1, tables[n], tables[n + 1]);
    }
}

/// Two updates of different clients, or of different fields, can be made in either order.
pub proof fn updates_commute(a: ClientChangesView, b: ClientChangesView, table: Seq<ClientView>)
    requires
        a.id != b.id || give_different_fields(a, b),
    ensures
        updated_table(b, updated_table(a, table)) == updated_table(a, updated_table(b, table)),
{
    let one = updated_table(b, updated_table(a, table));
    let other = updated_table(a, updated_table(b, table));
    assert forall|i: int| 0 <= i < table.len() implies one[i] == other[i] by {
        assert(one[i] == updated_row(b, updated_row(a, table[i])));
        assert(other[i] == updated_row(a, updated_row(b, table[i])));
    }
    assert(one =~= other);
}

} // verus!
