//! What the mathematical values of the library's types hold: every field, every item and every
//! variant, as it is; and what the JSON of the answers holds.

use crate::add::{added_output, inserted_view, saved_members, Inserted, InsertedView};
use crate::arguments::Arguments;
use crate::client::{client_members, ClientRow, ClientView};
use crate::clock::{calendar_text, TimestampView};
use crate::find::prep_output;
use crate::ident::id_text;
use crate::json::{optional_integer, optional_text, Json, JsonView};
use crate::requests::{ClientChanges, FilterSearch, NameSearch, NewClient, NewClientView};
use crate::schema::FunctionSchema;
use crate::statement::{Bind, BindView, Statement};
use crate::step::{clients_json, clients_view, rows_or_none, rows_view, Step, StepView, ToolOutput};
use crate::update::row_view;
use vstd::prelude::*;

verus! {

/// Whether an optional text is seen as it is.
pub open spec fn is_seen(text: Option<String>, seen: Option<Seq<char>>) -> bool {
    match text {
        Some(text) => seen == Some(text@),
        None => seen is None,
    }
}

/// The arguments of a call are seen as they are.
pub proof fn arguments_are_seen(a: Arguments)
    ensures
        is_seen(a.client_id, a@.client_id),
        is_seen(a.name, a@.name),
        is_seen(a.phone, a@.phone),
        is_seen(a.email, a@.email),
        is_seen(a.notes, a@.notes),
        a@.budget_min == a.budget_min,
        a@.budget_max == a.budget_max,
        is_seen(a.preferred_areas, a@.preferred_areas),
        is_seen(a.status, a@.status),
        is_seen(a.requirements, a@.requirements),
        is_seen(a.area, a@.area),
{
}

/// A client is seen as the row holds it.
pub proof fn clients_are_seen(c: ClientRow)
    ensures
        c@.id == c.id,
        c@.name == c.name@,
        c@.email == c.email@,
        is_seen(c.phone, c@.phone),
        c@.budget_min == c.budget_min,
        c@.budget_max == c.budget_max,
        is_seen(c.preferred_areas, c@.preferred_areas),
        c@.status == c.status@,
        is_seen(c.notes, c@.notes),
        c@.created_at == c.created_at@,
{
}

/// Every client of a reply is seen, in its place.
pub proof fn replies_are_seen(
    rows: Vec<ClientRow>,
    error: String,
    row: ClientRow,
    inserted: Inserted,
    i: int,
)
    ensures
        clients_view(rows@).len() == rows@.len(),
        0 <= i < rows@.len() ==> clients_view(rows@)[i] == rows@[i]@,
        rows_view(Ok(rows)) == Ok::<Seq<ClientView>, Seq<char>>(clients_view(rows@)),
        rows_view(Err(error)) == Err::<Seq<ClientView>, Seq<char>>(error@),
        rows_or_none(Ok(clients_view(rows@))) == clients_view(rows@),
        rows_or_none(Err(error@)).len() == 0,
        row_view(Ok(Some(row))) == Ok::<Option<ClientView>, Seq<char>>(Some(row@)),
        row_view(Ok(None)) == Ok::<Option<ClientView>, Seq<char>>(None),
        row_view(Err(error)) == Err::<Option<ClientView>, Seq<char>>(error@),
        inserted@.id == inserted.id,
        inserted@.created_at == inserted.created_at@,
        inserted_view(Ok(inserted)) == Ok::<InsertedView, Seq<char>>(inserted@),
        inserted_view(Err(error)) == Err::<InsertedView, Seq<char>>(error@),
{
}

/// The requests to the database are seen as they are.
pub proof fn requests_are_seen(
    client: NewClient,
    find: NameSearch,
    search: FilterSearch,
    changes: ClientChanges,
)
    ensures
        client@.name == client.name@,
        client@.phone == client.phone@,
        client@.email == client.email@,
        client@.notes == client.notes@,
        client@.budget_min == client.budget_min,
        client@.budget_max == client.budget_max,
        is_seen(client.preferred_areas, client@.preferred_areas),
        find@.purpose == find.purpose,
        find@.stage == find.stage,
        find@.name == find.name@,
        is_seen(search.requirements, search@.requirements),
        search@.budget_min == search.budget_min,
        search@.budget_max == search.budget_max,
        is_seen(search.area, search@.area),
        search@.full_text == search.full_text,
        changes@.id == changes.id,
        is_seen(changes.name, changes@.name),
        is_seen(changes.email, changes@.email),
        is_seen(changes.phone, changes@.phone),
        changes@.budget_min == changes.budget_min,
        changes@.budget_max == changes.budget_max,
        is_seen(changes.preferred_areas, changes@.preferred_areas),
        is_seen(changes.notes, changes@.notes),
        is_seen(changes.status, changes@.status),
{
}

/// A step is seen as what it is.
pub proof fn steps_are_seen(step: Step)
    ensures
        match step {
            Step::Done(output) => step@ == StepView::Done(output@),
            Step::Insert(client) => step@ == StepView::Insert(client@),
            Step::Find(search) => step@ == StepView::Find(search@),
            Step::Search(search) => step@ == StepView::Search(search@),
            Step::Update(changes) => step@ == StepView::Update(changes@),
            Step::List => step@ == StepView::List,
        },
{
}

/// An answer is seen as it is, and so is what the model is told of a tool.
pub proof fn answers_are_seen(output: ToolOutput, schema: FunctionSchema)
    ensures
        output@.summary == output.summary@,
        output.data matches Some(data) ==> output@.data == Some(data@),
        output.data is None ==> output@.data is None,
        schema@.name == schema.name@,
        schema@.description == schema.description@,
        schema@.parameters == schema.parameters@,
{
}

/// A statement is seen with its text, and with every value in its place.
pub proof fn statements_are_seen(statement: Statement, bind: Bind, i: int)
    ensures
        statement@.sql == statement.sql@,
        statement@.binds.len() == statement.binds@.len(),
        0 <= i < statement.binds@.len() ==> statement@.binds[i] == statement.binds@[i]@,
        bind matches Bind::Id(id) ==> bind@ == BindView::Id(id),
        bind matches Bind::Integer(n) ==> bind@ == BindView::Integer(n),
        bind matches Bind::Text(text) ==> (bind@ matches BindView::Text(seen) && is_seen(
            text,
            seen,
        )),
{
}

/// A JSON document is seen with every item and every member in its place.
pub proof fn documents_are_seen(json: Json, i: int)
    ensures
        match json {
            Json::Null => json@ == JsonView::Null,
            Json::Integer(n) => json@ == JsonView::Integer(n as int),
            Json::Text(text) => json@ == JsonView::Text(text@),
            Json::List(items) => json@ matches JsonView::List(seen) && seen.len() == items@.len()
                && (0 <= i < items@.len() ==> seen[i] == items@[i]@),
            Json::Object(members) => json@ matches JsonView::Object(seen) && seen.len()
                == members@.len() && (0 <= i < members@.len() ==> seen[i] == (
                members@[i].0@,
                members@[i].1@,
            )),
        },
{
}

/// Whether a JSON value is that of an optional text: the text, or null.
pub open spec fn is_text_or_null(text: Option<Seq<char>>, json: JsonView) -> bool {
    match text {
        Some(text) => json == JsonView::Text(text),
        None => json == JsonView::Null,
    }
}

/// Whether a JSON value is that of an optional number: the number, or null.
pub open spec fn is_integer_or_null(n: Option<i64>, json: JsonView) -> bool {
    match n {
        Some(n) => json == JsonView::Integer(n as int),
        None => json == JsonView::Null,
    }
}

/// The JSON object of a client holds every field of it, under the name of the field, with null for
/// what is not known.
pub proof fn client_json_holds_every_field(c: ClientView)
    ensures
        client_members(c).len() == 10,
        client_members(c)[0] == ("id"@, JsonView::Text(id_text(c.id))),
        client_members(c)[1] == ("name"@, JsonView::Text(c.name)),
        client_members(c)[2] == ("email"@, JsonView::Text(c.email)),
        client_members(c)[3].0 == "phone"@,
        is_text_or_null(c.phone, client_members(c)[3].1),
        client_members(c)[4].0 == "budget_min"@,
        is_integer_or_null(c.budget_min, client_members(c)[4].1),
        client_members(c)[5].0 == "budget_max"@,
        is_integer_or_null(c.budget_max, client_members(c)[5].1),
        client_members(c)[6].0 == "preferred_areas"@,
        is_text_or_null(c.preferred_areas, client_members(c)[6].1),
        client_members(c)[7] == ("status"@, JsonView::Text(c.status)),
        client_members(c)[8].0 == "notes"@,
        is_text_or_null(c.notes, client_members(c)[8].1),
        client_members(c)[9] == (
            "created_at"@,
            JsonView::Text(calendar_text(c.created_at.seconds, c.created_at.nanos)),
        ),
{
}

/// The JSON object of a client that was added holds what was recorded, under the names that the
/// fields have in that of a client, and no status.
pub proof fn saved_json_holds_every_field(c: NewClientView, row: InsertedView)
    ensures
        saved_members(c, row).len() == 9,
        saved_members(c, row)[0] == ("id"@, JsonView::Text(id_text(row.id))),
        saved_members(c, row)[1] == ("name"@, JsonView::Text(c.name)),
        saved_members(c, row)[2] == ("email"@, JsonView::Text(c.email)),
        saved_members(c, row)[3] == ("phone"@, JsonView::Text(c.phone)),
        saved_members(c, row)[4].0 == "budget_min"@,
        is_integer_or_null(c.budget_min, saved_members(c, row)[4].1),
        saved_members(c, row)[5].0 == "budget_max"@,
        is_integer_or_null(c.budget_max, saved_members(c, row)[5].1),
        saved_members(c, row)[6].0 == "preferred_areas"@,
        is_text_or_null(c.preferred_areas, saved_members(c, row)[6].1),
        saved_members(c, row)[7] == ("notes"@, JsonView::Text(c.notes)),
        saved_members(c, row)[8] == (
            "created_at"@,
            JsonView::Text(calendar_text(row.created_at.seconds, row.created_at.nanos)),
        ),
        added_output(c, Ok(row)).data == Some(JsonView::Object(saved_members(c, row))),
{
}

/// An optional value is JSON as it is, or null.
pub proof fn optional_values_in_json(text: Option<Seq<char>>, n: Option<i64>)
    ensures
        is_text_or_null(text, optional_text(text)),
        is_integer_or_null(n, optional_integer(n)),
{
}

/// The data of an answer that briefs on one client are that client, and those of one that asks
/// which of several is meant are all of them, in their order.
pub proof fn prep_data_hold_the_clients(
    name: Seq<char>,
    rows: Seq<ClientView>,
    now: TimestampView,
    i: int,
)
    requires
        0 <= i < rows.len(),
    ensures
        rows.len() == 1 ==> prep_output(name, rows, now).data == Some(
            JsonView::Object(client_members(rows[0])),
        ),
        rows.len() > 1 ==> (prep_output(name, rows, now).data matches Some(JsonView::List(items))
            && items.len() == rows.len() && items[i] == JsonView::Object(client_members(rows[i]))),
        clients_json(rows) matches JsonView::List(items) && items.len() == rows.len() && items[i]
            == JsonView::Object(client_members(rows[i])),
{
}

} // verus!
