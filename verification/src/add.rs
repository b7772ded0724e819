//! Adding a client.

use crate::arguments::{Arguments, ArgumentsView};
use crate::client::{
    amounts, budget_phrase, budget_phrase_tells_the_ends, budget_text, id_bracket,
    id_bracket_tells_the_id, id_bracket_text, if_known, phrase_tells_the_text,
};
use crate::clock::{calendar_text, Timestamp, TimestampView};
use crate::ident::{id_text, id_to_text, parsed_id};
use crate::json::{optional_integer, optional_text, Json, JsonView, Members};
use crate::requests::{NewClient, NewClientView};
use crate::step::{
    is_blank, miss_field, missing_field, strip_if_some, strip_unless_blank, stripped_if_some,
    summary_only, with_data, OutputView, Step, StepView, ToolOutput,
};
use crate::text::{
    in_order, in_order_alone, in_order_concat, in_order_extends, stripped, stripped_twice,
};
use vstd::prelude::*;

verus! {

/// The fields that a client cannot be added without, in the order in which they are asked for.
pub open spec fn required_to_add(a: ArgumentsView) -> Seq<(Seq<char>, Option<Seq<char>>)> {
    seq![("name"@, a.name), ("phone"@, a.phone), ("email"@, a.email), ("notes"@, a.notes)]
}

/// How a call that adds a client starts: it misses the first required field that is absent or
/// blank; where none is, it inserts the client, with the white space around every text dropped.
pub open spec fn add_step(a: ArgumentsView) -> StepView {
    if is_blank(a.name) {
        missing_field("name"@)
    } else if is_blank(a.phone) {
        missing_field("phone"@)
    } else if is_blank(a.email) {
        missing_field("email"@)
    } else if is_blank(a.notes) {
        missing_field("notes"@)
    } else {
        StepView::Insert(
            NewClientView {
                name: stripped(a.name->0),
                phone: stripped(a.phone->0),
                email: stripped(a.email->0),
                notes: stripped(a.notes->0),
                budget_min: a.budget_min,
                budget_max: a.budget_max,
                preferred_areas: stripped_if_some(a.preferred_areas),
            },
        )
    }
}

/// Starts a call that adds a client.
pub fn add_client(arguments: &Arguments) -> (step: Step)
    ensures
        step@ == add_step(arguments@),
{
    let name = match strip_unless_blank(&arguments.name) {
        Some(name) => name,
        None => return miss_field("name"),
    };
    let phone = match strip_unless_blank(&arguments.phone) {
        Some(phone) => phone,
        None => return miss_field("phone"),
    };
    let email = match strip_unless_blank(&arguments.email) {
        Some(email) => email,
        None => return miss_field("email"),
    };
    let notes = match strip_unless_blank(&arguments.notes) {
        Some(notes) => notes,
        None => return miss_field("notes"),
    };
    Step::Insert(
        NewClient {
            name,
            phone,
            email,
            notes,
            budget_min: arguments.budget_min,
            budget_max: arguments.budget_max,
            preferred_areas: strip_if_some(&arguments.preferred_areas),
        },
    )
}

/// What the database gives a client that it has added.
pub struct Inserted {
    pub id: u128,
    pub created_at: Timestamp,
}

/// The mathematical value of what the database gives a client that it has added.
pub struct InsertedView {
    pub id: u128,
    pub created_at: TimestampView,
}

impl View for Inserted {
    type V = InsertedView;

    open spec fn view(&self) -> InsertedView {
        InsertedView { id: self.id, created_at: self.created_at@ }
    }
}

/// The reply to the statement that adds a client.
pub open spec fn inserted_view(reply: Result<Inserted, String>) -> Result<InsertedView, Seq<char>> {
    match reply {
        Ok(row) => Ok(row@),
        Err(error) => Err(error@),
    }
}

/// The summary of a client that was added.
pub open spec fn saved_summary(c: NewClientView, id: u128) -> Seq<char> {
    "Saved "@ + c.name + " — phone "@ + c.phone + ", email "@ + c.email + budget_phrase(
        ", budget "@,
        ""@,
        c.budget_min,
        c.budget_max,
        ""@,
    ) + (match c.preferred_areas {
        Some(areas) => ", interested in "@ + areas,
        None => ""@,
    }) + ". Notes: "@ + c.notes + ". "@ + id_bracket(id)
}

/// The members of the JSON object of a client that was added, with the text of the time of the
/// entry.
pub open spec fn dated_saved_members(c: NewClientView, id: u128, created_at: Seq<char>) -> Seq<
    (Seq<char>, JsonView),
> {
    seq![
        ("id"@, JsonView::Text(id_text(id))),
        ("name"@, JsonView::Text(c.name)),
        ("email"@, JsonView::Text(c.email)),
        ("phone"@, JsonView::Text(c.phone)),
        ("budget_min"@, optional_integer(c.budget_min)),
        ("budget_max"@, optional_integer(c.budget_max)),
        ("preferred_areas"@, optional_text(c.preferred_areas)),
        ("notes"@, JsonView::Text(c.notes)),
        ("created_at"@, JsonView::Text(created_at)),
    ]
}

/// The members of the JSON object of a client that was added.
pub open spec fn saved_members(c: NewClientView, row: InsertedView) -> Seq<(Seq<char>, JsonView)> {
    dated_saved_members(c, row.id, calendar_text(row.created_at.seconds, row.created_at.nanos))
}

/// The answer to a call that adds a client, once the database has replied.
pub open spec fn added_output(
    c: NewClientView,
    reply: Result<InsertedView, Seq<char>>,
) -> OutputView {
    match reply {
        Ok(row) => with_data(saved_summary(c, row.id), JsonView::Object(saved_members(c, row))),
        Err(error) => summary_only("Failed to add client: "@ + error),
    }
}

/// The summary of a client that was added.
pub fn write_saved_summary(client: &NewClient, id: u128) -> (summary: String)
    ensures
        summary@ == saved_summary(client@, id),
        parsed_id(id_text(id)) == Some(id),
{
    let budget = budget_text(", budget ", "", client.budget_min, client.budget_max, "");
    let areas = match &client.preferred_areas {
        Some(areas) => ", interested in ".to_string().concat(areas.as_str()),
        None => "".to_string(),
    };
    "Saved ".to_string().concat(client.name.as_str()).concat(" — phone ").concat(
        client.phone.as_str(),
    ).concat(", email ").concat(client.email.as_str()).concat(budget.as_str()).concat(
        areas.as_str(),
    ).concat(". Notes: ").concat(client.notes.as_str()).concat(". ").concat(
        id_bracket_text(id).as_str(),
    )
}

/// The JSON object of a client that was added, with the text of the time of the entry.
pub fn write_saved_json(client: &NewClient, id: u128, created_at: &str) -> (json: Json)
    ensures
        json@ == JsonView::Object(dated_saved_members(client@, id, created_at@)),
{
    let members = Members::new().with("id", Json::Text(id_to_text(id))).with(
        "name",
        Json::text(client.name.as_str()),
    ).with("email", Json::text(client.email.as_str())).with(
        "phone",
        Json::text(client.phone.as_str()),
    ).with("budget_min", Json::optional_integer(client.budget_min)).with(
        "budget_max",
        Json::optional_integer(client.budget_max),
    ).with("preferred_areas", Json::optional_text(&client.preferred_areas)).with(
        "notes",
        Json::text(client.notes.as_str()),
    ).with("created_at", Json::text(created_at));
    assert(members@ =~= dated_saved_members(client@, id, created_at@));
    members.object()
}

/// Answers a call that adds a client, once the database has replied.
pub fn client_added(client: &NewClient, reply: Result<Inserted, String>) -> (step: Step)
    ensures
        step@ == StepView::Done(added_output(client@, inserted_view(reply))),
        reply matches Ok(row) ==> parsed_id(id_text(row.id)) == Some(row.id),
{
    match reply {
        Ok(row) => {
            let summary = write_saved_summary(client, row.id);
            let created_at = row.created_at.to_text();
            let data = write_saved_json(client, row.id, created_at.as_str());
            Step::Done(ToolOutput::with_data(summary, data))
        },
        Err(error) => Step::Done(
            ToolOutput::summary_only(
                "Failed to add client: ".to_string().concat(error.as_str()),
            ),
        ),
    }
}

/// A client can be added exactly when every required field holds more than white space, and the
/// first one that does not is the one that the answer asks for.
pub proof fn add_asks_for_the_first_missing_field(a: ArgumentsView)
    ensures
        add_step(a) is Insert <==> (forall|i: int|
            0 <= i < required_to_add(a).len() ==> !is_blank(#[trigger] required_to_add(a)[i].1)),
        forall|i: int|
            0 <= i < required_to_add(a).len() && is_blank(#[trigger] required_to_add(a)[i].1) && (
            forall|j: int| 0 <= j < i ==> !is_blank(#[trigger] required_to_add(a)[j].1))
                ==> add_step(a) == missing_field(required_to_add(a)[i].0),
{
    let required = required_to_add(a);
    assert(required[0].1 == a.name && required[1].1 == a.phone);
    assert(required[2].1 == a.email && required[3].1 == a.notes);
}

/// Every text of a client that is added is trimmed, and those of the required fields are not
/// empty.
pub proof fn added_texts_are_trimmed(a: ArgumentsView)
    ensures
        add_step(a) matches StepView::Insert(c) ==> {
            &&& c.name.len() > 0 && stripped(c.name) == c.name
            &&& c.phone.len() > 0 && stripped(c.phone) == c.phone
            &&& c.email.len() > 0 && stripped(c.email) == c.email
            &&& c.notes.len() > 0 && stripped(c.notes) == c.notes
            &&& c.preferred_areas matches Some(areas) ==> stripped(areas) == areas
        },
{
    if add_step(a) is Insert {
        stripped_twice(a.name->0);
        stripped_twice(a.phone->0);
        stripped_twice(a.email->0);
        stripped_twice(a.notes->0);
        if let Some(areas) = a.preferred_areas {
            stripped_twice(areas);
        }
    }
}

/// The texts of a client that was added that the summary gives, in their order.
pub open spec fn recorded(c: NewClientView, id: u128) -> Seq<Seq<char>> {
    seq![c.name] + seq![c.phone] + seq![c.email] + amounts(c.budget_min, c.budget_max) + if_known(
        c.preferred_areas,
    ) + seq![c.notes] + seq![id_text(id)]
}

/// The summary of a client that was added reads every detail back that was recorded, and the
/// bracket with the identifier closes it.
pub proof fn saved_summary_reads_back(c: NewClientView, id: u128)
    ensures
        in_order(recorded(c, id), saved_summary(c, id)),
        id_bracket(id).is_suffix_of(saved_summary(c, id)),
{
    let budget = budget_phrase(", budget "@, ""@, c.budget_min, c.budget_max, ""@);
    let areas = match c.preferred_areas {
        Some(areas) => ", interested in "@ + areas,
        None => ""@,
    };
    let none = Seq::<Seq<char>>::empty();

    let line = "Saved "@;
    in_order_alone(c.name);
    in_order_concat(none, line, seq![c.name], c.name);
    let told = seq![c.name];
    assert(none + seq![c.name] =~= told);
    let line = line + c.name;

    in_order_extends(told, line, " — phone "@);
    let line = line + " — phone "@;
    in_order_alone(c.phone);
    in_order_concat(told, line, seq![c.phone], c.phone);
    let told = told + seq![c.phone];
    let line = line + c.phone;

    in_order_extends(told, line, ", email "@);
    let line = line + ", email "@;
    in_order_alone(c.email);
    in_order_concat(told, line, seq![c.email], c.email);
    let told = told + seq![c.email];
    let line = line + c.email;

    budget_phrase_tells_the_ends(", budget "@, ""@, c.budget_min, c.budget_max, ""@);
    in_order_concat(told, line, amounts(c.budget_min, c.budget_max), budget);
    let told = told + amounts(c.budget_min, c.budget_max);
    let line = line + budget;

    phrase_tells_the_text(", interested in "@, c.preferred_areas, ""@);
    in_order_concat(told, line, if_known(c.preferred_areas), areas);
    let told = told + if_known(c.preferred_areas);
    let line = line + areas;

    in_order_extends(told, line, ". Notes: "@);
    let line = line + ". Notes: "@;
    in_order_alone(c.notes);
    in_order_concat(told, line, seq![c.notes], c.notes);
    let told = told + seq![c.notes];
    let line = line + c.notes;

    in_order_extends(told, line, ". "@);
    let line = line + ". "@;
    id_bracket_tells_the_id(id);
    in_order_concat(told, line, seq![id_text(id)], id_bracket(id));
    assert(saved_summary(c, id) == line + id_bracket(id));
}

} // verus!
