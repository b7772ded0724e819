//! What the statements that read clients bring of the table, and what the answers tell of it.
//!
//! How names sound, how similar they are, how they are ordered, how a full-text query matches, and
//! which characters pass for the same whatever their case, is for the database to say: here these
//! are parameters.

use crate::add::{add_step, saved_members, InsertedView};
use crate::arguments::ArgumentsView;
use crate::client::ClientView;
use crate::clock::TimestampView;
use crate::find::{
    find_course, find_output, find_step, first_stage_that_finds_answers, found_members,
    found_output, found_step,
};
use crate::ident::{id_text, id_texts_differ};
use crate::json::JsonView;
use crate::list::listed_output;
use crate::pattern::{
    between_percents, containing_matches_what_holds, holds, is_special, matches_pattern,
    plain_text_between_percents,
};
use crate::requests::{
    ClientChangesView, FilterSearchView, NameSearchView, NewClientView, Purpose, SearchStage,
};
use crate::selection::{
    all_that_are_wanted_come, entry, fewer_are_the_first, has_distinct_entries, later_first,
    newest_are_determined, selects_in_order, selects_newest,
};
use crate::statement::{
    budget_condition, budget_filter_is_overlap, budget_window, in_budget, is_range, name_statement,
    requirements_bind,
};
use crate::step::StepView;
use crate::table::{bound_text, has_distinct_ids, has_id, new_row, updated_row, updated_table};
use vstd::prelude::*;

verus! {

/// The clients that are active.
pub open spec fn active() -> spec_fn(ClientView) -> bool {
    |c: ClientView| c.status == "active"@
}

/// Whether the statement that lists the active clients can bring `rows`.
pub open spec fn lists(table: Seq<ClientView>, rows: Seq<ClientView>) -> bool {
    selects_newest(table, active(), 50, rows)
}

/// An active client is listed, unless fifty others that were not added earlier are.
pub proof fn active_clients_are_listed(
    table: Seq<ClientView>,
    rows: Seq<ClientView>,
    row: ClientView,
)
    requires
        lists(table, rows),
        table.contains(row),
        row.status == "active"@,
    ensures
        rows.contains(row) || (rows.len() == 50 && forall|i: int|
            0 <= i < rows.len() ==> entry(#[trigger] rows[i]) >= entry(row)),
{
    assert(active()(row));
}

/// A client that was marked inactive is not listed, neither in the data nor in the summary, though
/// the table still holds it.
pub proof fn inactive_client_leaves_the_list(
    changes: ClientChangesView,
    table: Seq<ClientView>,
    rows: Seq<ClientView>,
)
    requires
        changes.status == Some("inactive"@),
        has_id(table, changes.id),
        lists(updated_table(changes, table), rows),
    ensures
        has_id(updated_table(changes, table), changes.id),
        forall|i: int| 0 <= i < rows.len() ==> #[trigger] rows[i].id != changes.id,
        listed_output(Ok(rows)).data matches Some(JsonView::List(items)) ==> forall|i: int|
            0 <= i < items.len() ==> (#[trigger] items[i] matches JsonView::Object(members)
                && members[0] == ("id"@, JsonView::Text(id_text(rows[i].id))) && members[0].1
                != JsonView::Text(id_text(changes.id))),
{
    let after = updated_table(changes, table);
    reveal_strlit("active");
    reveal_strlit("inactive");
    assert("active"@.len() == 6 && "inactive"@.len() == 8);
    let k = choose|k: int| 0 <= k < table.len() && #[trigger] table[k].id == changes.id;
    assert(after[k].id == changes.id);
    assert forall|i: int| 0 <= i < rows.len() implies #[trigger] rows[i].id != changes.id by {
        assert(after.contains(rows[i]) && active()(rows[i]));
        let j = choose|j: int| 0 <= j < after.len() && after[j] == rows[i];
        assert(after[j] == updated_row(changes, table[j]));
    }
    assert forall|i: int| 0 <= i < rows.len() implies id_text(#[trigger] rows[i].id) != id_text(
        changes.id,
    ) by {
        id_texts_differ(rows[i].id, changes.id);
    }
}

/// A client that was added after every active one heads the list, as an active client. Behind it
/// come the clients that the statement would have brought before, had it asked for one less.
pub proof fn new_client_heads_the_list(
    table: Seq<ClientView>,
    client: NewClientView,
    given: InsertedView,
    rows: Seq<ClientView>,
)
    requires
        !has_id(table, given.id),
        forall|i: int|
            0 <= i < table.len() && active()(table[i]) ==> entry(#[trigger] table[i]) < entry(
                new_row(client, given),
            ),
        lists(table.push(new_row(client, given)), rows),
    ensures
        rows.len() > 0,
        rows[0] == new_row(client, given),
        rows[0].id == given.id,
        rows[0].status == "active"@,
        selects_newest(table, active(), 49, rows.drop_first()),
{
    let row = new_row(client, given);
    let after = table.push(row);
    assert(after[table.len() as int] == row);
    assert(after.contains(row) && active()(row));
    assert forall|c: ClientView| table.contains(c) implies #[trigger] after.contains(c) by {
        let k = choose|k: int| 0 <= k < table.len() && table[k] == c;
        assert(after[k] == c);
    }
    assert forall|c: ClientView| #[trigger] after.contains(c) && c != row implies table.contains(
        c,
    ) by {
        let k = choose|k: int| 0 <= k < after.len() && after[k] == c;
        assert(table[k] == c);
    }
    assert forall|c: ClientView| #[trigger] table.contains(c) implies c.id != given.id && (active()(
        c,
    ) ==> entry(c) < entry(row)) by {
        let k = choose|k: int| 0 <= k < table.len() && table[k] == c;
        assert(table[k].id != given.id);
        assert(active()(c) ==> entry(table[k]) < entry(row));
    }
    if !rows.contains(row) {
        assert(rows.len() == 50);
        assert(!later_first()(row, rows[0]));
        assert(after.contains(rows[0]) && rows.contains(rows[0]));
    }
    let k = choose|k: int| 0 <= k < rows.len() && rows[k] == row;
    if k > 0 {
        assert(!later_first()(rows[k], rows[0]));
        assert(rows[0].id != rows[k].id);
        assert(after.contains(rows[0]) && active()(rows[0]));
    }
    let rest = rows.drop_first();
    assert forall|i: int| 0 <= i < rest.len() implies table.contains(#[trigger] rest[i])
        && active()(rest[i]) && rest[i] == rows[i + 1] by {
        assert(rows[0].id != rows[i + 1].id);
        assert(after.contains(rows[i + 1]) && active()(rows[i + 1]));
    }
    assert(has_distinct_ids(rest)) by {
        assert forall|i: int, j: int| 0 <= i < j < rest.len() implies #[trigger] rest[i].id
            != #[trigger] rest[j].id by {
            assert(rows[i + 1].id != rows[j + 1].id);
        }
    }
    assert forall|i: int, j: int| 0 <= i < j < rest.len() implies entry(#[trigger] rest[i])
        >= entry(#[trigger] rest[j]) by {
        assert(!later_first()(rows[j + 1], rows[i + 1]));
    }
    assert forall|c: ClientView| #[trigger]
        table.contains(c) && active()(c) && !rest.contains(c) implies rest.len() == 49 && (forall|
        i: int,
    |
        0 <= i < rest.len() ==> entry(#[trigger] rest[i]) >= entry(c)) by {
        assert(after.contains(c));
        if rows.contains(c) {
            let j = choose|j: int| 0 <= j < rows.len() && rows[j] == c;
            assert(rest[j - 1] == c);
        }
        assert forall|i: int| 0 <= i < rest.len() implies entry(#[trigger] rest[i]) >= entry(c) by {
            assert(!later_first()(c, rows[i + 1]));
        }
    }
}

/// Where no two active clients were added at the same time, the clients behind a new one are those
/// that were listed before, in the same order, without the last of them where there were fifty.
pub proof fn list_stays_behind_a_new_client(
    table: Seq<ClientView>,
    client: NewClientView,
    given: InsertedView,
    before: Seq<ClientView>,
    rows: Seq<ClientView>,
)
    requires
        has_distinct_entries(table.filter(active())),
        !has_id(table, given.id),
        forall|i: int|
            0 <= i < table.len() && active()(table[i]) ==> entry(#[trigger] table[i]) < entry(
                new_row(client, given),
            ),
        lists(table, before),
        lists(table.push(new_row(client, given)), rows),
    ensures
        rows == seq![new_row(client, given)] + before.take(
            if before.len() < 50 {
                before.len() as int
            } else {
                49
            },
        ),
{
    let kept: int = if before.len() < 50 {
        before.len() as int
    } else {
        49
    };
    new_client_heads_the_list(table, client, given, rows);
    fewer_are_the_first(table, active(), 50, before, 49);
    newest_are_determined(table, active(), 49, rows.drop_first(), before.take(kept));
    assert(rows =~= seq![rows[0]] + rows.drop_first());
}

/// A client that was marked active again is listed again, at its place by the time of its entry,
/// unless fifty others that were not added earlier are.
pub proof fn active_client_comes_back(
    changes: ClientChangesView,
    table: Seq<ClientView>,
    rows: Seq<ClientView>,
    k: int,
)
    requires
        changes.status == Some("active"@),
        0 <= k < table.len(),
        table[k].id == changes.id,
        lists(updated_table(changes, table), rows),
    ensures
        rows.contains(updated_row(changes, table[k])) || (rows.len() == 50 && forall|i: int|
            0 <= i < rows.len() ==> entry(#[trigger] rows[i]) >= entry(table[k])),
        forall|i: int, j: int|
            0 <= i < j < rows.len() ==> entry(#[trigger] rows[i]) >= entry(#[trigger] rows[j]),
{
    let after = updated_table(changes, table);
    assert(after[k] == updated_row(changes, table[k]));
    active_clients_are_listed(after, rows, after[k]);
}

/// How the database matches texts: whether a document matches a full-text query, and which
/// characters pass for the same whatever their case.
pub struct Matching {
    pub full_text: spec_fn(Seq<char>, Seq<char>) -> bool,
    pub same: spec_fn(char, char) -> bool,
}

/// Whether a column matches a pattern: a null matches none.
pub open spec fn column_matches(
    column: Option<Seq<char>>,
    pattern: Seq<char>,
    same: spec_fn(char, char) -> bool,
) -> bool {
    column matches Some(text) && matches_pattern(text, pattern, same)
}

/// The text of a client that full-text queries are matched against: the notes and the preferred
/// areas.
pub open spec fn document_of(c: ClientView) -> Seq<char> {
    c.notes.unwrap_or(""@) + " "@ + c.preferred_areas.unwrap_or(""@)
}

/// Whether the conditions of a search hold of a client, as its statement words them.
pub open spec fn meets(search: FilterSearchView, m: Matching) -> spec_fn(ClientView) -> bool {
    |c: ClientView|
        {
            &&& search.requirements matches Some(req) ==> {
                let bound = requirements_bind(req, search.full_text);
                if search.full_text {
                    (m.full_text)(bound, document_of(c))
                } else {
                    column_matches(c.notes, bound, m.same) || column_matches(
                        c.preferred_areas,
                        bound,
                        m.same,
                    )
                }
            }
            &&& search.budget_min is Some || search.budget_max is Some ==> budget_condition(
                budget_window(search.budget_min, search.budget_max).0,
                budget_window(search.budget_min, search.budget_max).1,
                c.budget_min,
                c.budget_max,
            )
            &&& search.area matches Some(area) ==> column_matches(
                c.preferred_areas,
                between_percents(area),
                m.same,
            )
        }
}

/// The clients of the table that a search is after.
pub open spec fn sought(table: Seq<ClientView>, search: FilterSearchView, m: Matching) -> Set<
    ClientView,
> {
    table.to_set().filter(meets(search, m))
}

/// Whether the statement of a search can bring `rows`.
pub open spec fn searches(
    table: Seq<ClientView>,
    search: FilterSearchView,
    m: Matching,
    rows: Seq<ClientView>,
) -> bool {
    selects_newest(table, meets(search, m), 10, rows)
}

/// The search with its requirements alone.
pub open spec fn requirements_of(search: FilterSearchView) -> FilterSearchView {
    FilterSearchView { budget_min: None, budget_max: None, area: None, ..search }
}

/// The search with its budget alone.
pub open spec fn budget_of(search: FilterSearchView) -> FilterSearchView {
    FilterSearchView { requirements: None, area: None, ..search }
}

/// The search with its area alone.
pub open spec fn area_of(search: FilterSearchView) -> FilterSearchView {
    FilterSearchView { requirements: None, budget_min: None, budget_max: None, ..search }
}

/// The filters of a search meet: it is after the clients that each of its filters alone is after.
/// A search without a filter would be after all clients, whatever their status.
pub proof fn filters_meet(table: Seq<ClientView>, search: FilterSearchView, m: Matching)
    ensures
        sought(table, search, m) == sought(table, requirements_of(search), m).intersect(
            sought(table, budget_of(search), m),
        ).intersect(sought(table, area_of(search), m)),
        !search.has_filter() ==> sought(table, search, m) == table.to_set(),
{
    assert(sought(table, search, m) =~= sought(table, requirements_of(search), m).intersect(
        sought(table, budget_of(search), m),
    ).intersect(sought(table, area_of(search), m)));
    if !search.has_filter() {
        assert(sought(table, search, m) =~= table.to_set());
    }
}

/// A search brings none but clients that it is after, and every one of them where there are no
/// more than ten; of more, it brings the ten that were added last.
pub proof fn search_brings_the_sought(
    table: Seq<ClientView>,
    search: FilterSearchView,
    m: Matching,
    rows: Seq<ClientView>,
)
    requires
        searches(table, search, m, rows),
    ensures
        forall|i: int| 0 <= i < rows.len() ==> sought(table, search, m).contains(#[trigger] rows[i]),
        table.filter(meets(search, m)).len() <= 10 ==> rows.to_set() == sought(table, search, m),
        forall|c: ClientView, i: int|
            #![trigger sought(table, search, m).contains(c), rows[i]]
            sought(table, search, m).contains(c) && !rows.contains(c) && 0 <= i < rows.len()
                ==> rows.len() == 10 && entry(rows[i]) >= entry(c),
{
    let wanted = meets(search, m);
    assert forall|i: int| 0 <= i < rows.len() implies sought(table, search, m).contains(
        #[trigger] rows[i],
    ) by {
        assert(table.contains(rows[i]) && wanted(rows[i]));
    }
    if table.filter(wanted).len() <= 10 {
        assert forall|c: ClientView| sought(table, search, m).contains(c) implies rows.to_set().contains(
            c,
        ) by {
            all_that_are_wanted_come(table, wanted, 10, rows, c);
        }
        assert forall|c: ClientView| rows.to_set().contains(c) implies sought(
            table,
            search,
            m,
        ).contains(c) by {
            let i = choose|i: int| 0 <= i < rows.len() && rows[i] == c;
            assert(sought(table, search, m).contains(rows[i]));
        }
        assert(rows.to_set() =~= sought(table, search, m));
    }
    assert forall|c: ClientView, i: int|
        #![trigger sought(table, search, m).contains(c), rows[i]]
        sought(table, search, m).contains(c) && !rows.contains(c) && 0 <= i
            < rows.len() implies rows.len() == 10 && entry(rows[i]) >= entry(c) by {
        assert(table.contains(c) && wanted(c));
    }
}

/// A search that matches requirements as a substring is after the clients whose notes or preferred
/// areas hold them, whatever characters they are made of.
pub proof fn substring_search_looks_at_notes_and_areas(
    search: FilterSearchView,
    m: Matching,
    c: ClientView,
)
    requires
        search.requirements_only(),
        !search.full_text,
    ensures
        meets(search, m)(c) <==> (c.notes matches Some(notes) && holds(
            notes,
            search.requirements->0,
            m.same,
        )) || (c.preferred_areas matches Some(areas) && holds(
            areas,
            search.requirements->0,
            m.same,
        )),
{
    let requirements = search.requirements->0;
    if let Some(notes) = c.notes {
        containing_matches_what_holds(notes, requirements, m.same);
    }
    if let Some(areas) = c.preferred_areas {
        containing_matches_what_holds(areas, requirements, m.same);
    }
}

/// A search by area is after the clients whose preferred areas match the area between two `%`;
/// where the area holds none of the characters that are special in a pattern, these are the
/// clients whose preferred areas hold it.
pub proof fn area_search_looks_at_areas(search: FilterSearchView, m: Matching, c: ClientView)
    requires
        search.area is Some,
    ensures
        meets(area_of(search), m)(c) <==> column_matches(
            c.preferred_areas,
            between_percents(search.area->0),
            m.same,
        ),
        (forall|i: int| 0 <= i < search.area->0.len() ==> !is_special(#[trigger] search.area->0[i]))
            ==> (meets(area_of(search), m)(c) <==> (c.preferred_areas matches Some(areas) && holds(
            areas,
            search.area->0,
            m.same,
        ))),
{
    let area = search.area->0;
    if forall|i: int| 0 <= i < area.len() ==> !is_special(#[trigger] area[i]) {
        if let Some(areas) = c.preferred_areas {
            plain_text_between_percents(areas, area, m.same);
        }
    }
}

/// A search that matches requirements as a full-text query matches them against the notes and the
/// preferred areas of a client, with nothing for what the client leaves open.
pub proof fn full_text_search_looks_at_notes_and_areas(
    search: FilterSearchView,
    m: Matching,
    c: ClientView,
    notes: Seq<char>,
    areas: Seq<char>,
)
    requires
        search.requirements is Some,
        search.full_text,
        c.notes == Some(notes) || (c.notes is None && notes.len() == 0),
        c.preferred_areas == Some(areas) || (c.preferred_areas is None && areas.len() == 0),
    ensures
        meets(requirements_of(search), m)(c) <==> (m.full_text)(
            search.requirements->0,
            notes + " "@ + areas,
        ),
{
    reveal_strlit("");
    assert(""@ =~= Seq::empty());
    assert(c.notes is None ==> notes =~= ""@);
    assert(c.preferred_areas is None ==> areas =~= ""@);
}

/// A search by budget without a lower end is after every client whose own lower end does not
/// exceed the upper one, and a search without an upper end after every client whose own upper end
/// reaches the lower one.
pub proof fn open_budgets_have_no_bound(amount: i64, m: Matching, c: ClientView, full_text: bool)
    ensures
        ({
            let up_to = FilterSearchView {
                requirements: None,
                budget_min: None,
                budget_max: Some(amount),
                area: None,
                full_text,
            };
            let from = FilterSearchView {
                requirements: None,
                budget_min: Some(amount),
                budget_max: None,
                area: None,
                full_text,
            };
            &&& meets(up_to, m)(c) <==> c.budget_min is None || c.budget_min->0 <= amount
            &&& meets(from, m)(c) <==> c.budget_max is None || c.budget_max->0 >= amount
        }),
{
}

/// A search by budget is after the clients whose own budget shares an amount with the one that is
/// searched for.
pub proof fn budget_search_is_overlap(search: FilterSearchView, m: Matching, c: ClientView)
    requires
        is_range(search.budget_min, search.budget_max),
        is_range(c.budget_min, c.budget_max),
    ensures
        meets(budget_of(search), m)(c) <==> exists|amount: int|
            #[trigger] in_budget(amount, search.budget_min, search.budget_max) && in_budget(
                amount,
                c.budget_min,
                c.budget_max,
            ),
{
    let min = search.budget_min;
    let max = search.budget_max;
    budget_filter_is_overlap(min, max, c.budget_min, c.budget_max);
    if min is None && max is None {
        let (low, high) = budget_window(min, max);
        assert(budget_condition(low, high, c.budget_min, c.budget_max));
    }
}

/// How the database matches and orders names: which sound alike, how similar two of them are,
/// from where on they are similar enough, which characters pass for the same whatever their case,
/// and which of two names goes before the other.
pub struct NameMatching {
    pub sounds_alike: spec_fn(Seq<char>, Seq<char>) -> bool,
    pub similarity: spec_fn(Seq<char>, Seq<char>) -> int,
    pub threshold: int,
    pub same: spec_fn(char, char) -> bool,
    pub goes_before: spec_fn(Seq<char>, Seq<char>) -> bool,
}

/// The clients that a search by name is after, at its stage: they are compared with the value that
/// its statement binds.
pub open spec fn stage_meets(search: NameSearchView, m: NameMatching) -> spec_fn(ClientView) -> bool {
    let bound = bound_text(name_statement(search).binds[0])->0;
    |c: ClientView|
        match search.stage {
            SearchStage::Phonetic => (m.sounds_alike)(c.name, bound),
            SearchStage::Trigram => (m.similarity)(c.name, bound) > m.threshold,
            SearchStage::Substring => matches_pattern(c.name, bound, m.same),
        }
}

/// The order in which a search by name brings clients, at its stage: by their names, or the most
/// similar one first.
pub open spec fn stage_order(search: NameSearchView, m: NameMatching) -> spec_fn(
    ClientView,
    ClientView,
) -> bool {
    let bound = bound_text(name_statement(search).binds[0])->0;
    |a: ClientView, b: ClientView|
        match search.stage {
            SearchStage::Trigram => (m.similarity)(a.name, bound) > (m.similarity)(b.name, bound),
            _ => (m.goes_before)(a.name, b.name),
        }
}

/// Whether the statement of a search by name can bring `rows`, at its stage.
pub open spec fn finds(
    table: Seq<ClientView>,
    search: NameSearchView,
    m: NameMatching,
    rows: Seq<ClientView>,
) -> bool {
    selects_in_order(table, stage_meets(search, m), stage_order(search, m), 10, rows)
}

/// The last stage of a search by name is after the clients whose name holds the text, whatever
/// characters it is made of.
pub proof fn substring_stage_finds_what_holds_the_name(
    search: NameSearchView,
    m: NameMatching,
    c: ClientView,
)
    requires
        search.stage == SearchStage::Substring,
    ensures
        stage_meets(search, m)(c) <==> holds(c.name, search.name, m.same),
{
    containing_matches_what_holds(c.name, search.name, m.same);
}

/// A stage of a search by name brings none but clients that it is after, and every one of them
/// where there are no more than ten. They come by their names at the first and the last stage, and
/// the most similar ones first at the second; none that is left out goes before one that comes.
/// The answer that tells who was found gives them in this order.
pub proof fn stage_brings_its_clients_in_order(
    table: Seq<ClientView>,
    search: NameSearchView,
    m: NameMatching,
    rows: Seq<ClientView>,
)
    requires
        finds(table, search, m, rows),
    ensures
        rows.len() <= 10,
        forall|i: int|
            0 <= i < rows.len() ==> table.contains(#[trigger] rows[i]) && stage_meets(search, m)(
                rows[i],
            ),
        table.filter(stage_meets(search, m)).len() <= 10 ==> forall|c: ClientView| #[trigger]
            table.contains(c) && stage_meets(search, m)(c) ==> rows.contains(c),
        search.stage != SearchStage::Trigram ==> forall|i: int, j: int|
            0 <= i < j < rows.len() ==> !(m.goes_before)(
                (#[trigger] rows[j]).name,
                (#[trigger] rows[i]).name,
            ),
        search.stage == SearchStage::Trigram ==> forall|i: int, j: int|
            0 <= i < j < rows.len() ==> (m.similarity)((#[trigger] rows[i]).name, search.name) >= (
            m.similarity)((#[trigger] rows[j]).name, search.name),
        forall|c: ClientView, i: int|
            #![trigger table.contains(c), rows[i]]
            table.contains(c) && stage_meets(search, m)(c) && !rows.contains(c) && 0 <= i
                < rows.len() ==> rows.len() == 10 && !stage_order(search, m)(c, rows[i]),
        rows.len() > 0 ==> (found_output(search.name, rows, search.stage).data matches Some(
            JsonView::List(items),
        ) && items.len() == rows.len() && forall|i: int|
            0 <= i < rows.len() ==> #[trigger] items[i] == JsonView::Object(
                found_members(rows[i], search.stage),
            )),
{
    let wanted = stage_meets(search, m);
    if table.filter(wanted).len() <= 10 {
        assert forall|c: ClientView| #[trigger] table.contains(c) && wanted(c) implies rows.contains(
            c,
        ) by {
            all_that_are_wanted_come(table, wanted, 10, rows, c);
        }
    }
    assert forall|i: int, j: int| 0 <= i < j < rows.len() implies !stage_order(search, m)(
        #[trigger] rows[j],
        #[trigger] rows[i],
    ) by {}
}

/// Whether the table holds a client that a search by name is after, at its stage.
pub open spec fn holds_match(table: Seq<ClientView>, search: NameSearchView, m: NameMatching) -> bool {
    exists|c: ClientView| #[trigger] table.contains(c) && stage_meets(search, m)(c)
}

/// A stage of a search by name finds a client exactly when the table holds one that it is after.
proof fn stage_finds_where_there_is_a_match(
    table: Seq<ClientView>,
    search: NameSearchView,
    m: NameMatching,
    rows: Seq<ClientView>,
)
    requires
        finds(table, search, m, rows),
    ensures
        rows.len() > 0 <==> holds_match(table, search, m),
{
    if rows.len() > 0 {
        assert(table.contains(rows[0]) && stage_meets(search, m)(rows[0]));
    }
    if holds_match(table, search, m) {
        let c = choose|c: ClientView| #[trigger] table.contains(c) && stage_meets(search, m)(c);
        assert(rows.len() == 0 ==> !rows.contains(c));
    }
}

/// A search by name tells of the clients that sound like the name, where the table holds any; else
/// of those that are similar to it; else of those that hold it. Where the table holds none of
/// these, the answer is that there are none.
pub proof fn name_search_answers_from_the_table(
    table: Seq<ClientView>,
    purpose: Purpose,
    name: Seq<char>,
    m: NameMatching,
    phonetic: Seq<ClientView>,
    trigram: Seq<ClientView>,
    substring: Seq<ClientView>,
    now: TimestampView,
)
    requires
        finds(table, NameSearchView { purpose, stage: SearchStage::Phonetic, name }, m, phonetic),
        finds(table, NameSearchView { purpose, stage: SearchStage::Trigram, name }, m, trigram),
        finds(table, NameSearchView { purpose, stage: SearchStage::Substring, name }, m, substring),
    ensures
        ({
            let first = NameSearchView { purpose, stage: SearchStage::Phonetic, name };
            let second = NameSearchView { purpose, stage: SearchStage::Trigram, name };
            let third = NameSearchView { purpose, stage: SearchStage::Substring, name };
            let end = find_course(first, seq![Ok(phonetic), Ok(trigram), Ok(substring)], now);
            &&& holds_match(table, first, m) ==> phonetic.len() > 0 && end == StepView::Done(
                find_output(first, phonetic, now),
            )
            &&& !holds_match(table, first, m) && holds_match(table, second, m) ==> trigram.len() > 0
                && end == StepView::Done(find_output(second, trigram, now))
            &&& !holds_match(table, first, m) && !holds_match(table, second, m) ==> end
                == StepView::Done(find_output(third, substring, now)) && (substring.len() > 0
                <==> holds_match(table, third, m))
        }),
{
    let first = NameSearchView { purpose, stage: SearchStage::Phonetic, name };
    let second = NameSearchView { purpose, stage: SearchStage::Trigram, name };
    let third = NameSearchView { purpose, stage: SearchStage::Substring, name };
    stage_finds_where_there_is_a_match(table, first, m, phonetic);
    stage_finds_where_there_is_a_match(table, second, m, trigram);
    stage_finds_where_there_is_a_match(table, third, m, substring);
    first_stage_that_finds_answers(
        purpose,
        name,
        Ok(phonetic),
        Ok(trigram),
        Ok(substring),
        now,
    );
}

/// The first stage of a search by name that is to tell who was found.
pub open spec fn details_search(name: Seq<char>) -> NameSearchView {
    NameSearchView { purpose: Purpose::Details, stage: SearchStage::Phonetic, name }
}

/// A client that was added is found by the name that was given for it, with or without white space
/// around it, where no more than ten clients have names that sound alike: it is found once, by the
/// sound of its name, as an active client, and with all the data that were reported when it was
/// added.
pub proof fn added_client_is_found_by_name(
    added_with: ArgumentsView,
    found_with: ArgumentsView,
    client: NewClientView,
    given: InsertedView,
    table: Seq<ClientView>,
    m: NameMatching,
    rows: Seq<ClientView>,
    now: TimestampView,
)
    requires
        add_step(added_with) == StepView::Insert(client),
        found_with.name == added_with.name,
        (m.sounds_alike)(client.name, client.name),
        table.push(new_row(client, given)).filter(
            stage_meets(details_search(client.name), m),
        ).len() <= 10,
        finds(table.push(new_row(client, given)), details_search(client.name), m, rows),
    ensures
        ({
            let row = new_row(client, given);
            let search = details_search(client.name);
            let output = found_output(client.name, rows, SearchStage::Phonetic);
            let entry = found_members(row, SearchStage::Phonetic);
            &&& find_step(Purpose::Details, found_with) == StepView::Find(search)
            &&& found_step(search, Ok(rows), now) == StepView::Done(output)
            &&& row.status == "active"@
            &&& exists|i: int|
                0 <= i < rows.len() && #[trigger] rows[i] == row && (output.data matches Some(
                    JsonView::List(items),
                ) && items.len() == rows.len() && items[i] == JsonView::Object(entry)) && (forall|
                    j: int,
                |
                    0 <= j < rows.len() && j != i ==> #[trigger] rows[j].id != given.id)
            &&& forall|k: int|
                0 <= k < saved_members(client, given).len() ==> entry.contains(
                    #[trigger] saved_members(client, given)[k],
                )
        }),
{
    let row = new_row(client, given);
    let after = table.push(row);
    let wanted = stage_meets(details_search(client.name), m);
    assert(after[table.len() as int] == row);
    assert(after.contains(row) && wanted(row));
    all_that_are_wanted_come(after, wanted, 10, rows, row);
    let i = choose|i: int| 0 <= i < rows.len() && rows[i] == row;
    assert forall|j: int| 0 <= j < rows.len() && j != i implies #[trigger] rows[j].id
        != given.id by {
        if j < i {
            assert(rows[j].id != rows[i].id);
        } else {
            assert(rows[i].id != rows[j].id);
        }
    }
    let output = found_output(client.name, rows, SearchStage::Phonetic);
    let entry = found_members(row, SearchStage::Phonetic);
    assert(rows[i] == row && output.data->0->List_0[i] == JsonView::Object(entry));
    let saved = saved_members(client, given);
    assert(entry[0] == saved[0] && entry[1] == saved[1] && entry[2] == saved[2]);
    assert(entry[3] == saved[3] && entry[4] == saved[4] && entry[5] == saved[5]);
    assert(entry[6] == saved[6] && entry[8] == saved[7] && entry[9] == saved[8]);
    assert forall|k: int| 0 <= k < saved.len() implies entry.contains(#[trigger] saved[k]) by {
        if k < 7 {
            assert(entry[k] == saved[k]);
        } else {
            assert(entry[k + 1] == saved[k]);
        }
    }
}

} // verus!
