//! What holds of a tool call from its start to its answer, whatever the model sends and the
//! database replies.

use crate::add::{added_output, InsertedView};
use crate::client::ClientView;
use crate::clock::TimestampView;
use crate::find::{found_output, found_step, prep_output};
use crate::list::listed_output;
use crate::requests::{
    ClientChangesView, FilterSearchView, NameSearchView, NewClientView, SearchStage,
};
use crate::search::{search_output, searched_step};
use crate::statement::{
    active_statement, filter_statement, holds_placeholders, insert_statement, name_statement,
    placeholder, search_holds_placeholders, stage_condition, update_statement, StatementView,
    ACTIVE_CONDITION, PHONETIC_CONDITION, SELECT_CLIENTS, SUBSTRING_CONDITION, TRIGRAM_CONDITION,
};
use crate::step::StepView;
use crate::text::{digit, digits, occurs_at_end, occurs_in, occurs_within};
use crate::tools::{start_step, Tool};
use crate::update::updated_output;
use vstd::prelude::*;

verus! {

/// The statement that a call runs next, unless it answers.
pub open spec fn step_statement(step: StepView) -> Option<StatementView> {
    match step {
        StepView::Done(_) => None,
        StepView::Insert(client) => Some(insert_statement(client)),
        StepView::Find(search) => Some(name_statement(search)),
        StepView::Search(search) => Some(filter_statement(search)),
        StepView::Update(changes) => Some(update_statement(changes)),
        StepView::List => Some(active_statement()),
    }
}

/// Clients are never deleted: every statement reads clients, adds one or changes one, as its step
/// says.
pub proof fn statements_never_delete(step: StepView)
    ensures
        step_statement(step) matches Some(statement) ==> {
            if step is Insert {
                "INSERT INTO clients "@.is_prefix_of(statement.sql)
            } else if step is Update {
                "UPDATE clients SET "@.is_prefix_of(statement.sql)
            } else {
                "SELECT "@.is_prefix_of(statement.sql)
            }
        },
{
    reveal_strlit("INSERT INTO clients ");
    reveal_strlit("UPDATE clients SET ");
    reveal_strlit("SELECT ");
    match step {
        StepView::Done(_) => {},
        StepView::Insert(_) => {
            reveal_strlit(
                "INSERT INTO clients \
                 (name, email, phone, budget_min, budget_max, preferred_areas, notes, status) \
                 VALUES \
                 ($1, $2, $3, $4, $5, $6, $7, 'active') \
                 RETURNING id, created_at",
            );
        },
        StepView::Update(_) => {
            reveal_strlit(
                "UPDATE clients SET \
                 name            = COALESCE($2, name), \
                 email           = COALESCE($3, email), \
                 phone           = COALESCE($4, phone), \
                 budget_min      = COALESCE($5, budget_min), \
                 budget_max      = COALESCE($6, budget_max), \
                 preferred_areas = COALESCE($7, preferred_areas), \
                 notes           = COALESCE($8, notes), \
                 status          = COALESCE($9, status) \
                 WHERE id = $1 \
                 RETURNING id, name, email, phone, budget_min, budget_max, \
                 preferred_areas, status, notes, created_at",
            );
        },
        _ => {
            reveal_strlit(
                "SELECT id, name, email, phone, budget_min, budget_max, \
                 preferred_areas, status, notes, created_at FROM clients",
            );
            assert("SELECT "@.is_prefix_of(SELECT_CLIENTS@));
            if let StepView::Search(search) = step {
                search_starts_with_select(search);
            }
        },
    }
}

/// The statement of a search starts by selecting clients.
proof fn search_starts_with_select(search: FilterSearchView)
    ensures
        SELECT_CLIENTS@.is_prefix_of(filter_statement(search).sql),
{
}

/// A search gives ten clients at most, and the list of the active ones fifty, the most recently
/// added first.
pub proof fn statements_are_limited(step: StepView)
    ensures
        step_statement(step) matches Some(statement) ==> {
            &&& step is Find ==> " LIMIT 10"@.is_suffix_of(statement.sql)
            &&& step is Search ==> " ORDER BY created_at DESC LIMIT 10"@.is_suffix_of(statement.sql)
            &&& step is List ==> " ORDER BY created_at DESC LIMIT 50"@.is_suffix_of(statement.sql)
        },
{
    match step {
        StepView::Find(search) => {
            reveal_strlit(" LIMIT 10");
            match search.stage {
                SearchStage::Phonetic => {
                    reveal_strlit(
                        " WHERE soundex(name) = soundex($1) ORDER BY name ASC LIMIT 10",
                    );
                    assert(" LIMIT 10"@.is_suffix_of(PHONETIC_CONDITION@));
                },
                SearchStage::Trigram => {
                    reveal_strlit(
                        " WHERE similarity(name, $1) > 0.3 \
                         ORDER BY similarity(name, $1) DESC LIMIT 10",
                    );
                    assert(" LIMIT 10"@.is_suffix_of(TRIGRAM_CONDITION@));
                },
                SearchStage::Substring => {
                    reveal_strlit(
                        " WHERE name ILIKE $1 ORDER BY name ASC LIMIT 10",
                    );
                    assert(" LIMIT 10"@.is_suffix_of(SUBSTRING_CONDITION@));
                },
            }
        },
        StepView::List => {
            reveal_strlit(" ORDER BY created_at DESC LIMIT 50");
            reveal_strlit(
                " WHERE status = 'active' \
                 ORDER BY created_at DESC LIMIT 50",
            );
            assert(" ORDER BY created_at DESC LIMIT 50"@.is_suffix_of(ACTIVE_CONDITION@));
        },
        _ => {},
    }
}

/// A placeholder with one digit.
proof fn short_placeholder(n: nat)
    requires
        n < 10,
    ensures
        placeholder(n) == seq!['$', digit(n)],
{
    reveal_strlit("$");
    assert(digits(n) == seq![digit(n)]);
    assert(placeholder(n) =~= seq!['$', digit(n)]);
}

/// A placeholder with one digit stands where its two characters do.
proof fn placeholder_stands_at(n: nat, sql: Seq<char>, at: int)
    requires
        n < 10,
        0 <= at < sql.len() - 1,
        sql[at] == '$',
        sql[at + 1] == digit(n),
    ensures
        occurs_in(placeholder(n), sql),
{
    short_placeholder(n);
    assert(sql =~= sql.take(at) + placeholder(n) + sql.skip(at + 2));
}

/// Every statement holds a placeholder for every value that is bound to it.
pub proof fn every_value_has_its_placeholder(step: StepView)
    ensures
        step_statement(step) matches Some(statement) ==> holds_placeholders(statement),
{
    match step {
        StepView::Insert(client) => {
            insert_holds_placeholders(client);
        },
        StepView::Find(search) => {
            name_holds_placeholder(search);
        },
        StepView::Search(search) => {
            search_holds_placeholders(search);
        },
        StepView::Update(changes) => {
            update_holds_placeholders(changes);
        },
        _ => {},
    }
}

proof fn insert_holds_placeholders(client: NewClientView)
    ensures
        holds_placeholders(insert_statement(client)),
{
    let statement = insert_statement(client);
    reveal_strlit(
        "INSERT INTO clients \
         (name, email, phone, budget_min, budget_max, preferred_areas, notes, status) \
         VALUES \
         ($1, $2, $3, $4, $5, $6, $7, 'active') \
         RETURNING id, created_at",
    );
    placeholder_stands_at(1, statement.sql, 105);
    placeholder_stands_at(2, statement.sql, 109);
    placeholder_stands_at(3, statement.sql, 113);
    placeholder_stands_at(4, statement.sql, 117);
    placeholder_stands_at(5, statement.sql, 121);
    placeholder_stands_at(6, statement.sql, 125);
    placeholder_stands_at(7, statement.sql, 129);
    assert forall|i: int| 0 <= i < statement.binds.len() implies occurs_in(
        #[trigger] placeholder((i + 1) as nat),
        statement.sql,
    ) by {
        assert(i == 0 || i == 1 || i == 2 || i == 3 || i == 4 || i == 5 || i == 6);
    }
}

proof fn update_holds_placeholders(changes: ClientChangesView)
    ensures
        holds_placeholders(update_statement(changes)),
{
    let statement = update_statement(changes);
    reveal_strlit(
        "UPDATE clients SET \
         name            = COALESCE($2, name), \
         email           = COALESCE($3, email), \
         phone           = COALESCE($4, phone), \
         budget_min      = COALESCE($5, budget_min), \
         budget_max      = COALESCE($6, budget_max), \
         preferred_areas = COALESCE($7, preferred_areas), \
         notes           = COALESCE($8, notes), \
         status          = COALESCE($9, status) \
         WHERE id = $1 \
         RETURNING id, name, email, phone, budget_min, budget_max, \
         preferred_areas, status, notes, created_at",
    );
    placeholder_stands_at(1, statement.sql, 361);
    placeholder_stands_at(2, statement.sql, 46);
    placeholder_stands_at(3, statement.sql, 84);
    placeholder_stands_at(4, statement.sql, 123);
    placeholder_stands_at(5, statement.sql, 162);
    placeholder_stands_at(6, statement.sql, 206);
    placeholder_stands_at(7, statement.sql, 250);
    placeholder_stands_at(8, statement.sql, 299);
    placeholder_stands_at(9, statement.sql, 338);
    assert forall|i: int| 0 <= i < statement.binds.len() implies occurs_in(
        #[trigger] placeholder((i + 1) as nat),
        statement.sql,
    ) by {
        assert(i == 0 || i == 1 || i == 2 || i == 3 || i == 4 || i == 5 || i == 6 || i == 7 || i
            == 8);
    }
}

proof fn name_holds_placeholder(search: NameSearchView)
    ensures
        holds_placeholders(name_statement(search)),
{
    let condition = stage_condition(search.stage);
    match search.stage {
        SearchStage::Phonetic => {
            reveal_strlit(
                " WHERE soundex(name) = soundex($1) ORDER BY name ASC LIMIT 10",
            );
            placeholder_stands_at(1, condition, 31);
        },
        SearchStage::Trigram => {
            reveal_strlit(
                " WHERE similarity(name, $1) > 0.3 \
                 ORDER BY similarity(name, $1) DESC LIMIT 10",
            );
            placeholder_stands_at(1, condition, 24);
        },
        SearchStage::Substring => {
            reveal_strlit(
                " WHERE name ILIKE $1 ORDER BY name ASC LIMIT 10",
            );
            placeholder_stands_at(1, condition, 18);
        },
    }
    occurs_at_end(SELECT_CLIENTS@, condition);
    occurs_within(placeholder(1), condition, SELECT_CLIENTS@ + condition);
    assert forall|i: int| 0 <= i < name_statement(search).binds.len() implies occurs_in(
        #[trigger] placeholder((i + 1) as nat),
        name_statement(search).sql,
    ) by {
        assert(i == 0);
    }
}

/// A call runs three statements at most: it starts with no more than that to run, and whatever the
/// database replies, fewer are left then.
pub proof fn calls_end(
    tool: Tool,
    text: Seq<char>,
    find: NameSearchView,
    search: FilterSearchView,
    reply: Result<Seq<ClientView>, Seq<char>>,
    now: TimestampView,
)
    ensures
        start_step(tool, text).statements_left() <= 3,
        found_step(find, reply, now).statements_left() < StepView::Find(find).statements_left(),
        searched_step(search, reply).statements_left() < StepView::Search(
            search,
        ).statements_left(),
        forall|step: StepView|
            #[trigger] step.statements_left() == 0 <==> step_statement(step) is None,
{
}

/// A call that is refused answers without data and without running a statement.
pub proof fn refusals_carry_no_data(tool: Tool, text: Seq<char>)
    ensures
        start_step(tool, text) matches StepView::Done(output) ==> output.data is None,
{
}

/// Where the database fails, the answer says how and carries no data. A search by name is not
/// among these: it goes on to the next stage.
pub proof fn failures_carry_no_data(
    client: NewClientView,
    search: FilterSearchView,
    id: u128,
    error: Seq<char>,
)
    requires
        search.full_text,
    ensures
        added_output(client, Err(error)).data is None,
        occurs_in(error, added_output(client, Err(error)).summary),
        searched_step(search, Err(error)) matches StepView::Done(output) && output.data is None
            && occurs_in(error, output.summary),
        updated_output(id, Err(error)).data is None,
        occurs_in(error, updated_output(id, Err(error)).summary),
        listed_output(Err(error)).data is None,
        occurs_in(error, listed_output(Err(error)).summary),
{
    occurs_at_end("Failed to add client: "@, error);
    occurs_at_end("Database error: "@, error);
    occurs_at_end("Failed to update client: "@, error);
}

/// An answer carries data exactly when there is a client to tell of.
pub proof fn data_tell_of_clients(
    name: Seq<char>,
    stage: SearchStage,
    search: FilterSearchView,
    rows: Seq<ClientView>,
    id: u128,
    row: Option<ClientView>,
    client: NewClientView,
    inserted: InsertedView,
    now: TimestampView,
)
    ensures
        found_output(name, rows, stage).data is Some <==> rows.len() > 0,
        prep_output(name, rows, now).data is Some <==> rows.len() > 0,
        search_output(search, rows).data is Some <==> rows.len() > 0,
        listed_output(Ok(rows)).data is Some <==> rows.len() > 0,
        updated_output(id, Ok(row)).data is Some <==> row is Some,
        added_output(client, Ok(inserted)).data is Some,
{
}

/// The tool that lists clients does so whatever text it is called with.
pub proof fn list_ignores_its_text(text: Seq<char>)
    ensures
        start_step(Tool::ListClients, text) == StepView::List,
{
}

/// A summary is never empty: not that of a call that is refused.
pub proof fn refusals_say_why(tool: Tool, text: Seq<char>)
    ensures
        start_step(tool, text) matches StepView::Done(output) ==> output.summary.len() > 0,
{
    reveal_strlit("Failed to parse arguments: ");
    reveal_strlit("Missing required field: ");
    reveal_strlit(
        "No search filters given. Ask the realtor what to go on — what the \
         client's after, roughly what budget, or which area.",
    );
    reveal_strlit(
        "Invalid client_id: not a valid UUID. \
         Use get_client_by_name first to obtain the client's ID.",
    );
    reveal_strlit("Invalid status: must be 'active' or 'inactive'.");
    reveal_strlit(
        "No fields to update: provide at least one of name, phone, email, \
         notes, budget_min, budget_max, preferred_areas, or status.",
    );
}

/// A summary is never empty: not that of a call that the database has replied to.
pub proof fn answers_say_something(
    client: NewClientView,
    inserted: Result<InsertedView, Seq<char>>,
    find: NameSearchView,
    search: FilterSearchView,
    rows: Result<Seq<ClientView>, Seq<char>>,
    id: u128,
    row: Result<Option<ClientView>, Seq<char>>,
    now: TimestampView,
)
    ensures
        added_output(client, inserted).summary.len() > 0,
        found_step(find, rows, now) matches StepView::Done(output) ==> output.summary.len() > 0,
        searched_step(search, rows) matches StepView::Done(output) ==> output.summary.len() > 0,
        updated_output(id, row).summary.len() > 0,
        listed_output(rows).summary.len() > 0,
{
    reveal_strlit("Saved ");
    reveal_strlit("Failed to add client: ");
    reveal_strlit("No clients found matching '");
    reveal_strlit("Found ");
    reveal_strlit("No client found matching '");
    reveal_strlit("Prep for ");
    reveal_strlit("Several clients match '");
    reveal_strlit("No clients found matching ");
    reveal_strlit("Database error: ");
    reveal_strlit("Client updated. ");
    reveal_strlit("No client found with ID ");
    reveal_strlit("Failed to update client: ");
    reveal_strlit("No active clients found.");
    reveal_strlit(" active client(s):\n");
}

} // verus!
