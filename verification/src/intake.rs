//! What a call makes of what it is given: every request to the database holds what the call gives,
//! and every refusal says what is wrong with it.

use crate::add::InsertedView;
use crate::arguments::{arguments_of, parsed_members, ArgumentsView, Member};
use crate::client::ClientView;
use crate::ident::parsed_id;
use crate::requests::{FilterSearchView, Purpose, SearchStage};
use crate::search::searched_step;
use crate::step::{is_blank, summary_only, with_data, StepView};
use crate::table::{new_row, updated_row};
use crate::text::{
    is_white_space, reads, reads_alone, reads_push, stripped, stripped_is_empty,
};
use crate::tools::{begin_step, start_step, Tool};
use vstd::prelude::*;

verus! {

/// Whether `given` is the text that the object holds at the key: none, where it holds none there.
pub open spec fn is_text_at(
    members: Map<Seq<char>, Member>,
    key: Seq<char>,
    given: Option<Seq<char>>,
) -> bool {
    match given {
        Some(text) => members.contains_pair(key, Member::Text(text)),
        None => members.contains_key(key) ==> !(members[key] is Text),
    }
}

/// Whether `given` is the integer that the object holds at the key: none, where it holds none
/// there.
pub open spec fn is_integer_at(
    members: Map<Seq<char>, Member>,
    key: Seq<char>,
    given: Option<i64>,
) -> bool {
    match given {
        Some(n) => members.contains_pair(key, Member::Integer(n)),
        None => members.contains_key(key) ==> !(members[key] is Integer),
    }
}

/// Every argument is what the object holds under the name of the argument.
pub proof fn arguments_are_read_by_name(members: Map<Seq<char>, Member>)
    ensures
        is_text_at(members, "client_id"@, arguments_of(members).client_id),
        is_text_at(members, "name"@, arguments_of(members).name),
        is_text_at(members, "phone"@, arguments_of(members).phone),
        is_text_at(members, "email"@, arguments_of(members).email),
        is_text_at(members, "notes"@, arguments_of(members).notes),
        is_integer_at(members, "budget_min"@, arguments_of(members).budget_min),
        is_integer_at(members, "budget_max"@, arguments_of(members).budget_max),
        is_text_at(members, "preferred_areas"@, arguments_of(members).preferred_areas),
        is_text_at(members, "status"@, arguments_of(members).status),
        is_text_at(members, "requirements"@, arguments_of(members).requirements),
        is_text_at(members, "area"@, arguments_of(members).area),
{
}

/// A call works on the arguments that its text holds, and on nothing else: two texts that hold the
/// same start alike. A text that is no JSON is refused with the reason, and only the list does not
/// look at it.
pub proof fn calls_work_on_their_text(tool: Tool, text: Seq<char>, other: Seq<char>)
    ensures
        parsed_members(text) == parsed_members(other) ==> start_step(tool, text) == start_step(
            tool,
            other,
        ),
        parsed_members(text) matches Ok(members) ==> start_step(tool, text) == begin_step(
            tool,
            arguments_of(members),
        ),
        parsed_members(text) matches Err(message) ==> if tool == Tool::ListClients {
            start_step(tool, text) == StepView::List
        } else {
            start_step(tool, text) matches StepView::Done(output) && output.data is None && reads(
                seq!["Failed to parse arguments: "@, message],
                output.summary,
            )
        },
{
    if let Err(message) = parsed_members(text) {
        let opening = "Failed to parse arguments: "@;
        reads_alone(opening);
        reads_push(seq![opening], opening, message);
        assert(seq![opening].push(message) =~= seq![opening, message]);
    }
}

/// Whether a step refuses a call because a field is missing.
pub open spec fn misses(step: StepView, field: Seq<char>) -> bool {
    step matches StepView::Done(output) && output.data is None && reads(
        seq!["Missing required field: "@, field],
        output.summary,
    )
}

/// The refusal of a call that lacks a field names the field.
proof fn missing_fields_are_named(field: Seq<char>)
    ensures
        misses(crate::step::missing_field(field), field),
{
    let opening = "Missing required field: "@;
    reads_alone(opening);
    reads_push(seq![opening], opening, field);
    assert(seq![opening].push(field) =~= seq![opening, field]);
}

/// A text is blank where it is not given, or is made of white space alone.
pub proof fn blank_texts(text: Option<Seq<char>>)
    ensures
        is_blank(text) <==> (text matches Some(t) ==> forall|i: int|
            0 <= i < t.len() ==> is_white_space(#[trigger] t[i])),
{
    if let Some(t) = text {
        stripped_is_empty(t);
    }
}

/// Whether `taken` is what a call makes of an optional text: it is there exactly where the call
/// gives one, and is then that text without the white space around it.
pub open spec fn is_trimmed(given: Option<Seq<char>>, taken: Option<Seq<char>>) -> bool {
    match given {
        Some(text) => taken == Some(stripped(text)),
        None => taken is None,
    }
}

/// A client that is added has exactly what the call gives: the trimmed name, phone number, email
/// address and notes, the two ends of the budget, and the trimmed preferred areas. It is added
/// exactly where the four required texts are given and not blank; else the first of them that is
/// not is asked for.
pub proof fn add_takes_what_is_given(a: ArgumentsView, given: InsertedView)
    ensures
        ({
            let step = begin_step(Tool::AddClient, a);
            &&& is_blank(a.name) ==> misses(step, "name"@)
            &&& !is_blank(a.name) && is_blank(a.phone) ==> misses(step, "phone"@)
            &&& !is_blank(a.name) && !is_blank(a.phone) && is_blank(a.email) ==> misses(
                step,
                "email"@,
            )
            &&& !is_blank(a.name) && !is_blank(a.phone) && !is_blank(a.email) && is_blank(a.notes)
                ==> misses(step, "notes"@)
            &&& !is_blank(a.name) && !is_blank(a.phone) && !is_blank(a.email) && !is_blank(a.notes)
                ==> step is Insert
            &&& step matches StepView::Insert(client) ==> {
                let row = new_row(client, given);
                &&& is_trimmed(a.name, Some(client.name)) && row.name == client.name
                &&& is_trimmed(a.phone, Some(client.phone)) && row.phone == Some(client.phone)
                &&& is_trimmed(a.email, Some(client.email)) && row.email == client.email
                &&& is_trimmed(a.notes, Some(client.notes)) && row.notes == Some(client.notes)
                &&& client.budget_min == a.budget_min && row.budget_min == a.budget_min
                &&& client.budget_max == a.budget_max && row.budget_max == a.budget_max
                &&& is_trimmed(a.preferred_areas, client.preferred_areas) && row.preferred_areas
                    == client.preferred_areas
                &&& row.id == given.id && row.created_at == given.created_at
                &&& row.status == "active"@
            }
        }),
{
    missing_fields_are_named("name"@);
    missing_fields_are_named("phone"@);
    missing_fields_are_named("email"@);
    missing_fields_are_named("notes"@);
}

/// A search by name is for the trimmed name that the call gives, starts with the sound of it, and
/// is made for what the tool wants of the clients. It is made exactly where the name is not blank.
pub proof fn find_takes_what_is_given(a: ArgumentsView)
    ensures
        is_blank(a.name) ==> misses(begin_step(Tool::GetClientByName, a), "name"@) && misses(
            begin_step(Tool::PrepClient, a),
            "name"@,
        ),
        !is_blank(a.name) ==> (begin_step(Tool::GetClientByName, a) matches StepView::Find(search)
            && is_trimmed(a.name, Some(search.name)) && search.stage == SearchStage::Phonetic
            && search.purpose == Purpose::Details),
        !is_blank(a.name) ==> (begin_step(Tool::PrepClient, a) matches StepView::Find(search)
            && is_trimmed(a.name, Some(search.name)) && search.stage == SearchStage::Phonetic
            && search.purpose == Purpose::Briefing),
{
    missing_fields_are_named("name"@);
}

/// A search without a name is for what the call gives: the two ends of the budget, and the trimmed
/// requirements and area where they are not blank. It starts with the full-text query, and is made
/// exactly where any of these is given.
pub proof fn search_takes_what_is_given(a: ArgumentsView)
    ensures
        ({
            let step = begin_step(Tool::SearchClients, a);
            let gives_any = !is_blank(a.requirements) || a.budget_min is Some || a.budget_max is Some
                || !is_blank(a.area);
            &&& !gives_any ==> (step matches StepView::Done(output) && output.data is None
                && output.summary
                == "No search filters given. Ask the realtor what to go on — what the \
                    client's after, roughly what budget, or which area."@)
            &&& gives_any ==> (step matches StepView::Search(search) && {
                &&& search.full_text
                &&& search.budget_min == a.budget_min
                &&& search.budget_max == a.budget_max
                &&& if is_blank(a.requirements) {
                    search.requirements is None
                } else {
                    is_trimmed(a.requirements, search.requirements)
                }
                &&& if is_blank(a.area) {
                    search.area is None
                } else {
                    is_trimmed(a.area, search.area)
                }
            })
        }),
{
}

/// A search is made a second time exactly where the full-text query found nothing and the
/// requirements are the only filter; it is then for the same, as a substring.
pub proof fn search_is_made_again(search: FilterSearchView, rows: Seq<ClientView>)
    requires
        search.requirements is Some || search.budget_min is Some || search.budget_max is Some
            || search.area is Some,
    ensures
        searched_step(search, Ok(rows)) is Search <==> search.full_text && rows.len() == 0
            && search.budget_min is None && search.budget_max is None && search.area is None,
        searched_step(search, Ok(rows)) matches StepView::Search(again) ==> !again.full_text
            && again.requirements == search.requirements && again.budget_min is None
            && again.budget_max is None && again.area is None,
{
}

/// An update goes to the client that the call names, and changes exactly what the call gives: the
/// two ends of the budget, and every text, trimmed. A row of the table that it is for has these
/// then, and keeps the rest; every other row stays.
pub proof fn update_takes_what_is_given(a: ArgumentsView, row: ClientView)
    ensures
        begin_step(Tool::UpdateClient, a) matches StepView::Update(changes) ==> {
            let after = updated_row(changes, row);
            &&& a.client_id is Some && parsed_id(a.client_id->0) == Some(changes.id)
            &&& is_trimmed(a.name, changes.name)
            &&& is_trimmed(a.email, changes.email)
            &&& is_trimmed(a.phone, changes.phone)
            &&& is_trimmed(a.notes, changes.notes)
            &&& is_trimmed(a.preferred_areas, changes.preferred_areas)
            &&& is_trimmed(a.status, changes.status)
            &&& changes.budget_min == a.budget_min
            &&& changes.budget_max == a.budget_max
            &&& row.id != changes.id ==> after == row
            &&& after.id == row.id && after.created_at == row.created_at
            &&& row.id == changes.id ==> {
                &&& after.name == if a.name is Some {
                    stripped(a.name->0)
                } else {
                    row.name
                }
                &&& after.email == if a.email is Some {
                    stripped(a.email->0)
                } else {
                    row.email
                }
                &&& after.status == if a.status is Some {
                    stripped(a.status->0)
                } else {
                    row.status
                }
                &&& if a.phone is Some {
                    is_trimmed(a.phone, after.phone)
                } else {
                    after.phone == row.phone
                }
                &&& if a.notes is Some {
                    is_trimmed(a.notes, after.notes)
                } else {
                    after.notes == row.notes
                }
                &&& if a.preferred_areas is Some {
                    is_trimmed(a.preferred_areas, after.preferred_areas)
                } else {
                    after.preferred_areas == row.preferred_areas
                }
                &&& after.budget_min == if a.budget_min is Some {
                    a.budget_min
                } else {
                    row.budget_min
                }
                &&& after.budget_max == if a.budget_max is Some {
                    a.budget_max
                } else {
                    row.budget_max
                }
            }
        },
{
}

/// An update is refused where no identifier is given, where it is none that can be read, where the
/// status is none that a client can have, and where nothing is to change: in this order, each with
/// its reason. Every other one goes to the database.
pub proof fn refused_updates_say_why(a: ArgumentsView)
    ensures
        ({
            let step = begin_step(Tool::UpdateClient, a);
            let reads_id = a.client_id is Some && parsed_id(a.client_id->0) is Some;
            let known_status = a.status matches Some(status) ==> stripped(status) == "active"@
                || stripped(status) == "inactive"@;
            let gives_any = a.name is Some || a.email is Some || a.phone is Some || a.notes is Some
                || a.budget_min is Some || a.budget_max is Some || a.preferred_areas is Some
                || a.status is Some;
            &&& a.client_id is None ==> misses(step, "client_id"@)
            &&& a.client_id is Some && !reads_id ==> step == StepView::Done(
                summary_only(
                    "Invalid client_id: not a valid UUID. \
                     Use get_client_by_name first to obtain the client's ID."@,
                ),
            )
            &&& reads_id && !known_status ==> step == StepView::Done(
                summary_only("Invalid status: must be 'active' or 'inactive'."@),
            )
            &&& reads_id && known_status && !gives_any ==> step == StepView::Done(
                summary_only(
                    "No fields to update: provide at least one of name, phone, email, \
                     notes, budget_min, budget_max, preferred_areas, or status."@,
                ),
            )
            &&& reads_id && known_status && gives_any <==> step is Update
        }),
{
    missing_fields_are_named("client_id"@);
}

/// The list is asked for whatever is given.
pub proof fn list_takes_nothing(a: ArgumentsView)
    ensures
        begin_step(Tool::ListClients, a) == StepView::List,
{
}

/// An answer holds its summary, and the data that it is given.
pub proof fn answers_hold_what_they_are_made_of(summary: Seq<char>, data: crate::json::JsonView)
    ensures
        summary_only(summary).summary == summary,
        summary_only(summary).data is None,
        with_data(summary, data).summary == summary,
        with_data(summary, data).data == Some(data),
{
}

} // verus!
