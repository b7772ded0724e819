//! Changing a client.

use crate::arguments::{Arguments, ArgumentsView};
use crate::client::{client_members, detail_line, ClientRow, ClientView};
use crate::ident::{id_text, id_to_text, parse_id, parsed_id};
use crate::json::JsonView;
use crate::requests::{ClientChanges, ClientChangesView};
use crate::statement::{update_statement, BindView};
use crate::step::{
    miss_field, missing_field, strip_if_some, stripped_if_some, summary_only, with_data, OutputView,
    Step, StepView, ToolOutput,
};
use crate::text::{occurs_at_end, occurs_in, stripped, stripped_twice};
use vstd::prelude::*;

verus! {

/// The answer to an identifier that is none.
pub const INVALID_ID: &'static str =
    "Invalid client_id: not a valid UUID. \
     Use get_client_by_name first to obtain the client's ID.";

/// The answer to a status that is none.
pub const INVALID_STATUS: &'static str = "Invalid status: must be 'active' or 'inactive'.";

/// The answer to an update that changes nothing.
pub const NO_CHANGES: &'static str =
    "No fields to update: provide at least one of name, phone, email, \
     notes, budget_min, budget_max, preferred_areas, or status.";

/// Whether a text is a status that a client can have.
pub open spec fn is_status(text: Seq<char>) -> bool {
    text == "active"@ || text == "inactive"@
}

impl ClientChangesView {
    /// Whether any field is to change.
    pub open spec fn changes_something(self) -> bool {
        self.name is Some || self.email is Some || self.phone is Some || self.notes is Some
            || self.budget_min is Some || self.budget_max is Some || self.preferred_areas is Some
            || self.status is Some
    }

    /// Whether the status, where it is to change, is one that a client can have.
    pub open spec fn has_valid_status(self) -> bool {
        self.status matches Some(status) ==> is_status(status)
    }
}

/// The changes to the client `id` that a call asks for, with the white space around every text
/// dropped.
pub open spec fn changes_of(id: u128, a: ArgumentsView) -> ClientChangesView {
    ClientChangesView {
        id,
        name: stripped_if_some(a.name),
        email: stripped_if_some(a.email),
        phone: stripped_if_some(a.phone),
        budget_min: a.budget_min,
        budget_max: a.budget_max,
        preferred_areas: stripped_if_some(a.preferred_areas),
        notes: stripped_if_some(a.notes),
        status: stripped_if_some(a.status),
    }
}

/// How an update of the client `id` starts.
pub open spec fn change_step(id: u128, a: ArgumentsView) -> StepView {
    let changes = changes_of(id, a);
    if !changes.has_valid_status() {
        StepView::Done(summary_only(INVALID_STATUS@))
    } else if !changes.changes_something() {
        StepView::Done(summary_only(NO_CHANGES@))
    } else {
        StepView::Update(changes)
    }
}

/// How an update starts: it needs an identifier that can be read.
pub open spec fn update_step(a: ArgumentsView) -> StepView {
    match a.client_id {
        Some(text) => match parsed_id(text) {
            Some(id) => change_step(id, a),
            None => StepView::Done(summary_only(INVALID_ID@)),
        },
        None => missing_field("client_id"@),
    }
}

/// Starts an update of the client `id`.
pub fn change_client(id: u128, arguments: &Arguments) -> (step: Step)
    ensures
        step@ == change_step(id, arguments@),
{
    let changes = ClientChanges {
        id,
        name: strip_if_some(&arguments.name),
        email: strip_if_some(&arguments.email),
        phone: strip_if_some(&arguments.phone),
        budget_min: arguments.budget_min,
        budget_max: arguments.budget_max,
        preferred_areas: strip_if_some(&arguments.preferred_areas),
        notes: strip_if_some(&arguments.notes),
        status: strip_if_some(&arguments.status),
    };
    if let Some(status) = &changes.status {
        if *status != "active".to_string() && *status != "inactive".to_string() {
            return Step::Done(ToolOutput::summary_only(INVALID_STATUS.to_string()));
        }
    }
    if changes.name.is_none() && changes.email.is_none() && changes.phone.is_none()
        && changes.notes.is_none() && changes.budget_min.is_none() && changes.budget_max.is_none()
        && changes.preferred_areas.is_none() && changes.status.is_none() {
        return Step::Done(ToolOutput::summary_only(NO_CHANGES.to_string()));
    }
    Step::Update(changes)
}

/// Starts an update.
pub fn update_client(arguments: &Arguments) -> (step: Step)
    ensures
        step@ == update_step(arguments@),
{
    match &arguments.client_id {
        Some(text) => match parse_id(text.as_str()) {
            Some(id) => change_client(id, arguments),
            None => Step::Done(ToolOutput::summary_only(INVALID_ID.to_string())),
        },
        None => miss_field("client_id"),
    }
}

/// The reply to the statement that changes a client: the client as it is now, or none where no
/// client has the identifier.
pub open spec fn row_view(reply: Result<Option<ClientRow>, String>) -> Result<
    Option<ClientView>,
    Seq<char>,
> {
    match reply {
        Ok(Some(row)) => Ok(Some(row@)),
        Ok(None) => Ok(None),
        Err(error) => Err(error@),
    }
}

/// The answer to an update, once the database has replied.
pub open spec fn updated_output(
    id: u128,
    reply: Result<Option<ClientView>, Seq<char>>,
) -> OutputView {
    match reply {
        Ok(Some(row)) => with_data(
            "Client updated. "@ + detail_line(row),
            JsonView::Object(client_members(row)),
        ),
        Ok(None) => summary_only(
            "No client found with ID "@ + id_text(id)
                + ". Use get_client_by_name to look up the correct ID."@,
        ),
        Err(error) => summary_only("Failed to update client: "@ + error),
    }
}

/// Answers an update, once the database has replied.
pub fn client_updated(
    changes: &ClientChanges,
    reply: Result<Option<ClientRow>, String>,
) -> (step: Step)
    ensures
        step@ == StepView::Done(updated_output(changes@.id, row_view(reply))),
{
    match reply {
        Ok(Some(row)) => {
            let summary = "Client updated. ".to_string().concat(row.detail_line().as_str());
            Step::Done(ToolOutput::with_data(summary, row.to_json()))
        },
        Ok(None) => Step::Done(
            ToolOutput::summary_only(
                "No client found with ID ".to_string().concat(
                    id_to_text(changes.id).as_str(),
                ).concat(". Use get_client_by_name to look up the correct ID."),
            ),
        ),
        Err(error) => Step::Done(
            ToolOutput::summary_only(
                "Failed to update client: ".to_string().concat(error.as_str()),
            ),
        ),
    }
}

/// An update goes to the database exactly when its identifier can be read, its status is one that
/// a client can have (or is not given), and it gives one field at least. Every text that it takes
/// there is trimmed.
pub proof fn update_needs_a_valid_change(a: ArgumentsView)
    ensures
        update_step(a) matches StepView::Update(changes) ==> {
            &&& a.client_id is Some && parsed_id(a.client_id->0) == Some(changes.id)
            &&& changes.has_valid_status()
            &&& changes.changes_something()
            &&& changes.name matches Some(name) ==> stripped(name) == name
            &&& changes.email matches Some(email) ==> stripped(email) == email
            &&& changes.phone matches Some(phone) ==> stripped(phone) == phone
            &&& changes.preferred_areas matches Some(areas) ==> stripped(areas) == areas
            &&& changes.notes matches Some(notes) ==> stripped(notes) == notes
        },
        update_step(a) is Update <==> a.client_id is Some && parsed_id(a.client_id->0) is Some
            && changes_of(0, a).has_valid_status() && (a.name is Some || a.email is Some
            || a.phone is Some || a.notes is Some || a.budget_min is Some || a.budget_max is Some
            || a.preferred_areas is Some || a.status is Some),
{
    if let Some(text) = a.name {
        stripped_twice(text);
    }
    if let Some(text) = a.email {
        stripped_twice(text);
    }
    if let Some(text) = a.phone {
        stripped_twice(text);
    }
    if let Some(text) = a.preferred_areas {
        stripped_twice(text);
    }
    if let Some(text) = a.notes {
        stripped_twice(text);
    }
}

/// The identifier that an answer gives for a client is one that an update of this client accepts.
pub proof fn given_ids_can_be_updated(id: u128, a: ArgumentsView)
    requires
        a.client_id == Some(id_text(id)),
    ensures
        parsed_id(id_text(id)) == Some(id) ==> update_step(a) == change_step(id, a),
{
}

/// What `COALESCE` gives for a text column: what is bound, or what the column holds where null is
/// bound.
pub open spec fn coalesced_text(bind: BindView, held: Option<Seq<char>>) -> Option<Seq<char>> {
    match bind {
        BindView::Text(Some(text)) => Some(text),
        _ => held,
    }
}

/// What `COALESCE` gives for a number column.
pub open spec fn coalesced_integer(bind: BindView, held: Option<i64>) -> Option<i64> {
    match bind {
        BindView::Integer(Some(n)) => Some(n),
        _ => held,
    }
}

/// A client as `UPDATE_CLIENT` leaves it, with these values bound.
pub open spec fn row_after(binds: Seq<BindView>, row: ClientView) -> ClientView {
    ClientView {
        id: row.id,
        name: coalesced_text(binds[1], Some(row.name))->0,
        email: coalesced_text(binds[2], Some(row.email))->0,
        phone: coalesced_text(binds[3], row.phone),
        budget_min: coalesced_integer(binds[4], row.budget_min),
        budget_max: coalesced_integer(binds[5], row.budget_max),
        preferred_areas: coalesced_text(binds[6], row.preferred_areas),
        notes: coalesced_text(binds[7], row.notes),
        status: coalesced_text(binds[8], Some(row.status))->0,
        created_at: row.created_at,
    }
}

/// An update replaces the fields that it gives and keeps the ones that it omits; it leaves the
/// identifier and the time of the entry alone, and never sets a field back to null.
pub proof fn omitted_fields_are_kept(changes: ClientChangesView, row: ClientView)
    ensures
        ({
            let binds = update_statement(changes).binds;
            let after = row_after(binds, row);
            &&& binds[0] == BindView::Id(changes.id)
            &&& after.id == row.id && after.created_at == row.created_at
            &&& after.name == changes.name.unwrap_or(row.name)
            &&& after.email == changes.email.unwrap_or(row.email)
            &&& after.status == changes.status.unwrap_or(row.status)
            &&& after.phone == if changes.phone is Some {
                changes.phone
            } else {
                row.phone
            }
            &&& after.budget_min == if changes.budget_min is Some {
                changes.budget_min
            } else {
                row.budget_min
            }
            &&& after.budget_max == if changes.budget_max is Some {
                changes.budget_max
            } else {
                row.budget_max
            }
            &&& after.preferred_areas == if changes.preferred_areas is Some {
                changes.preferred_areas
            } else {
                row.preferred_areas
            }
            &&& after.notes == if changes.notes is Some {
                changes.notes
            } else {
                row.notes
            }
            &&& row.phone is Some ==> after.phone is Some
            &&& row.budget_min is Some ==> after.budget_min is Some
            &&& row.budget_max is Some ==> after.budget_max is Some
            &&& row.preferred_areas is Some ==> after.preferred_areas is Some
            &&& row.notes is Some ==> after.notes is Some
        }),
{
}

/// An update that goes to the database leaves a client with a valid status.
pub proof fn updates_keep_statuses_valid(a: ArgumentsView, row: ClientView)
    requires
        is_status(row.status),
    ensures
        update_step(a) matches StepView::Update(changes) ==> is_status(
            row_after(update_statement(changes).binds, row).status,
        ),
{
}

/// Whether two updates have no field in common that both of them give.
pub open spec fn give_different_fields(a: ClientChangesView, b: ClientChangesView) -> bool {
    &&& a.name is None || b.name is None
    &&& a.email is None || b.email is None
    &&& a.phone is None || b.phone is None
    &&& a.budget_min is None || b.budget_min is None
    &&& a.budget_max is None || b.budget_max is None
    &&& a.preferred_areas is None || b.preferred_areas is None
    &&& a.notes is None || b.notes is None
    &&& a.status is None || b.status is None
}

/// Two updates of a client that give different fields can be made in either order.
pub proof fn different_fields_commute(
    a: ClientChangesView,
    b: ClientChangesView,
    row: ClientView,
)
    requires
        give_different_fields(a, b),
    ensures
        ({
            let first = update_statement(a).binds;
            let second = update_statement(b).binds;
            row_after(second, row_after(first, row)) == row_after(first, row_after(second, row))
        }),
{
}

/// To make the same update a second time changes nothing more.
pub proof fn update_twice(changes: ClientChangesView, row: ClientView)
    ensures
        ({
            let binds = update_statement(changes).binds;
            row_after(binds, row_after(binds, row)) == row_after(binds, row)
        }),
{
}

/// The answer to an update reads the whole client back, as it is now.
pub proof fn updated_output_reads_back(id: u128, row: ClientView)
    ensures
        occurs_in(detail_line(row), updated_output(id, Ok(Some(row))).summary),
        updated_output(id, Ok(Some(row))).data == Some(JsonView::Object(client_members(row))),
{
    occurs_at_end("Client updated. "@, detail_line(row));
}

} // verus!
