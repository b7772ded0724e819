//! What the statements mean: which clients their own SQL brings, with the values that are bound to
//! their own placeholders, and which values they write to which columns.

use crate::client::ClientView;
use crate::lookup::{
    column_matches, document_of, meets, stage_meets, stage_order, Matching, NameMatching,
};
use crate::pattern::{containing_matches_what_holds, holds, matches_pattern};
use crate::requests::{
    ClientChangesView, FilterSearchView, NameSearchView, NewClientView, SearchStage,
};
use crate::statement::{
    active_statement, bindable, filter_statement, insert_statement, name_statement, placeholder,
    search_is_bindable, update_statement, with_area, with_budget, with_requirements, BindView,
    StatementView, SELECT_CLIENTS,
};
use crate::table::{bound_integer, bound_text};
use crate::text::{decimal, decimal_names_the_integer, reads, reads_alone, reads_push};
use vstd::prelude::*;

verus! {

/// A condition of a statement that searches for clients, with the numbers of its placeholders.
pub enum Condition {
    /// The notes and the preferred areas match a full-text query.
    FullText(nat),
    /// The notes match a pattern, or the preferred areas match one.
    NotesOrAreas(nat, nat),
    /// The upper end of the budget is open, or at least an amount.
    UpperEndReaches(nat),
    /// The lower end of the budget is open, or at most an amount.
    LowerEndWithin(nat),
    /// The preferred areas match a pattern.
    Areas(nat),
}

/// The SQL of a condition.
pub open spec fn condition_sql(condition: Condition) -> Seq<char> {
    match condition {
        Condition::FullText(n) => " AND to_tsvector('english', coalesce(notes,'') || ' ' || \
             coalesce(preferred_areas,'')) @@ websearch_to_tsquery('english', "@ + placeholder(n)
            + ")"@,
        Condition::NotesOrAreas(n, m) => " AND (notes ILIKE "@ + placeholder(n)
            + " OR preferred_areas ILIKE "@ + placeholder(m) + ")"@,
        Condition::UpperEndReaches(n) => " AND (budget_max IS NULL OR budget_max >= "@
            + placeholder(n) + ")"@,
        Condition::LowerEndWithin(n) => " AND (budget_min IS NULL OR budget_min <= "@
            + placeholder(n) + ")"@,
        Condition::Areas(n) => " AND preferred_areas ILIKE "@ + placeholder(n),
    }
}

/// Whether every placeholder of a condition is one of the first `n`.
pub open spec fn is_numbered(condition: Condition, n: nat) -> bool {
    match condition {
        Condition::FullText(i) => 1 <= i <= n,
        Condition::NotesOrAreas(i, j) => 1 <= i <= n && 1 <= j <= n,
        Condition::UpperEndReaches(i) => 1 <= i <= n,
        Condition::LowerEndWithin(i) => 1 <= i <= n,
        Condition::Areas(i) => 1 <= i <= n,
    }
}

/// Whether a condition holds of a client, with these values bound.
pub open spec fn condition_holds(
    condition: Condition,
    binds: Seq<BindView>,
    m: Matching,
    c: ClientView,
) -> bool {
    match condition {
        Condition::FullText(n) => bound_text(binds[n - 1]) matches Some(query) && (m.full_text)(
            query,
            document_of(c),
        ),
        Condition::NotesOrAreas(n, k) => (bound_text(binds[n - 1]) matches Some(pattern)
            && column_matches(c.notes, pattern, m.same)) || (bound_text(
            binds[k - 1],
        ) matches Some(pattern) && column_matches(c.preferred_areas, pattern, m.same)),
        Condition::UpperEndReaches(n) => c.budget_max is None || (bound_integer(
            binds[n - 1],
        ) matches Some(amount) && c.budget_max->0 >= amount),
        Condition::LowerEndWithin(n) => c.budget_min is None || (bound_integer(
            binds[n - 1],
        ) matches Some(amount) && c.budget_min->0 <= amount),
        Condition::Areas(n) => bound_text(binds[n - 1]) matches Some(pattern) && column_matches(
            c.preferred_areas,
            pattern,
            m.same,
        ),
    }
}

/// The SQL of conditions, one after another.
pub open spec fn conditions_sql(conditions: Seq<Condition>) -> Seq<char>
    decreases conditions.len(),
{
    if conditions.len() == 0 {
        Seq::empty()
    } else {
        conditions_sql(conditions.drop_last()) + condition_sql(conditions.last())
    }
}

/// Whether all conditions are about the first `n` placeholders.
pub open spec fn are_numbered(conditions: Seq<Condition>, n: nat) -> bool {
    forall|i: int| 0 <= i < conditions.len() ==> is_numbered(#[trigger] conditions[i], n)
}

/// Whether all conditions hold of a client, with these values bound.
pub open spec fn all_hold(
    conditions: Seq<Condition>,
    binds: Seq<BindView>,
    m: Matching,
    c: ClientView,
) -> bool {
    forall|i: int|
        0 <= i < conditions.len() ==> condition_holds(#[trigger] conditions[i], binds, m, c)
}

/// Whether the SQL of a search says that these conditions are to hold, that the most recently
/// added clients come first, and that no more than ten come.
pub open spec fn asks_for(sql: Seq<char>, conditions: Seq<Condition>) -> bool {
    sql == "SELECT id, name, email, phone, budget_min, budget_max, \
            preferred_areas, status, notes, created_at FROM clients"@ + " WHERE 1=1"@
        + conditions_sql(conditions) + " ORDER BY created_at DESC LIMIT 10"@
}

/// One more condition comes behind the others.
proof fn one_more_condition(
    start: Seq<char>,
    conditions: Seq<Condition>,
    condition: Condition,
    sql: Seq<char>,
)
    requires
        sql == start + conditions_sql(conditions) + condition_sql(condition),
    ensures
        sql == start + conditions_sql(conditions.push(condition)),
{
    assert(conditions.push(condition).drop_last() =~= conditions);
    assert(sql =~= start + conditions_sql(conditions.push(condition)));
}

/// Values that are bound later do not matter to conditions on earlier ones.
proof fn later_values_do_not_matter(
    conditions: Seq<Condition>,
    binds: Seq<BindView>,
    longer: Seq<BindView>,
    m: Matching,
    c: ClientView,
)
    requires
        are_numbered(conditions, binds.len()),
        binds.len() <= longer.len(),
        longer.take(binds.len() as int) == binds,
    ensures
        are_numbered(conditions, longer.len()),
        all_hold(conditions, longer, m, c) <==> all_hold(conditions, binds, m, c),
{
    assert forall|i: int| 0 <= i < conditions.len() implies condition_holds(
        #[trigger] conditions[i],
        longer,
        m,
        c,
    ) == condition_holds(conditions[i], binds, m, c) by {
        let condition = conditions[i];
        assert(is_numbered(condition, binds.len()));
        assert forall|k: int| 0 <= k < binds.len() implies #[trigger] binds[k] == longer[k] by {
            assert(longer.take(binds.len() as int)[k] == longer[k]);
        }
        match condition {
            Condition::FullText(n) => {
                assert(binds[n - 1] == longer[n - 1]);
            },
            Condition::NotesOrAreas(n, k) => {
                assert(binds[n - 1] == longer[n - 1] && binds[k - 1] == longer[k - 1]);
            },
            Condition::UpperEndReaches(n) => {
                assert(binds[n - 1] == longer[n - 1]);
            },
            Condition::LowerEndWithin(n) => {
                assert(binds[n - 1] == longer[n - 1]);
            },
            Condition::Areas(n) => {
                assert(binds[n - 1] == longer[n - 1]);
            },
        }
    }
    assert forall|i: int| 0 <= i < conditions.len() implies is_numbered(
        #[trigger] conditions[i],
        longer.len(),
    ) by {
        assert(is_numbered(conditions[i], binds.len()));
    }
}

/// One more condition is to hold too.
proof fn one_more_is_to_hold(
    conditions: Seq<Condition>,
    condition: Condition,
    binds: Seq<BindView>,
    m: Matching,
    c: ClientView,
)
    ensures
        all_hold(conditions.push(condition), binds, m, c) <==> all_hold(conditions, binds, m, c)
            && condition_holds(condition, binds, m, c),
        are_numbered(conditions, binds.len()) && is_numbered(condition, binds.len())
            ==> are_numbered(conditions.push(condition), binds.len()),
{
    let more = conditions.push(condition);
    if all_hold(more, binds, m, c) {
        assert forall|i: int| 0 <= i < conditions.len() implies condition_holds(
            #[trigger] conditions[i],
            binds,
            m,
            c,
        ) by {
            assert(more[i] == conditions[i]);
        }
        assert(more[conditions.len() as int] == condition);
    }
}

/// The search, with its requirements and budget alone.
spec fn without_area(search: FilterSearchView) -> FilterSearchView {
    FilterSearchView { area: None, ..search }
}

/// The search, with its requirements alone.
spec fn requirements_only(search: FilterSearchView) -> FilterSearchView {
    FilterSearchView { area: None, budget_min: None, budget_max: None, ..search }
}

/// The conditions of the requirements.
spec fn first_conditions(search: FilterSearchView) -> Seq<Condition> {
    if search.requirements is None {
        Seq::empty()
    } else if search.full_text {
        Seq::empty().push(Condition::FullText(1))
    } else {
        Seq::empty().push(Condition::NotesOrAreas(1, 2))
    }
}

/// The conditions of the requirements and the budget, where `n` values were bound before.
spec fn next_conditions(search: FilterSearchView, n: nat) -> Seq<Condition> {
    if search.budget_min is Some || search.budget_max is Some {
        first_conditions(search).push(Condition::UpperEndReaches(n + 1)).push(
            Condition::LowerEndWithin(n + 2),
        )
    } else {
        first_conditions(search)
    }
}

/// The start of every search.
spec fn start() -> StatementView {
    StatementView { sql: SELECT_CLIENTS@ + " WHERE 1=1"@, binds: Seq::empty() }
}

/// The statement of a search says what its requirements mean.
proof fn requirements_mean(search: FilterSearchView, m: Matching, c: ClientView)
    ensures
        ({
            let s = with_requirements(start(), search.requirements, search.full_text);
            let conditions = first_conditions(search);
            &&& s.sql == start().sql + conditions_sql(conditions)
            &&& are_numbered(conditions, s.binds.len())
            &&& all_hold(conditions, s.binds, m, c) <==> meets(requirements_only(search), m)(c)
        }),
{
    let s = with_requirements(start(), search.requirements, search.full_text);
    let none = Seq::<Condition>::empty();
    assert(conditions_sql(none) =~= Seq::empty());
    assert(start().sql + conditions_sql(none) =~= start().sql);
    if search.requirements is Some {
        if search.full_text {
            let condition = Condition::FullText(1);
            assert(s.sql =~= start().sql + conditions_sql(none) + condition_sql(condition));
            one_more_condition(start().sql, none, condition, s.sql);
            one_more_is_to_hold(none, condition, s.binds, m, c);
        } else {
            let condition = Condition::NotesOrAreas(1, 2);
            assert(s.sql =~= start().sql + conditions_sql(none) + condition_sql(condition));
            one_more_condition(start().sql, none, condition, s.sql);
            one_more_is_to_hold(none, condition, s.binds, m, c);
        }
    }
}

/// The statement of a search says what its requirements and its budget mean.
proof fn budget_means(search: FilterSearchView, m: Matching, c: ClientView)
    ensures
        ({
            let required = with_requirements(start(), search.requirements, search.full_text);
            let s = with_budget(required, search.budget_min, search.budget_max);
            let conditions = next_conditions(search, required.binds.len());
            &&& s.sql == start().sql + conditions_sql(conditions)
            &&& are_numbered(conditions, s.binds.len())
            &&& all_hold(conditions, s.binds, m, c) <==> meets(without_area(search), m)(c)
        }),
{
    requirements_mean(search, m, c);
    let required = with_requirements(start(), search.requirements, search.full_text);
    let s = with_budget(required, search.budget_min, search.budget_max);
    let conditions = first_conditions(search);
    if search.budget_min is Some || search.budget_max is Some {
        let n = required.binds.len();
        let upper = Condition::UpperEndReaches(n + 1);
        let lower = Condition::LowerEndWithin(n + 2);
        reveal_strlit(")");
        reveal_strlit(") AND (budget_min IS NULL OR budget_min <= ");
        reveal_strlit(" AND (budget_min IS NULL OR budget_min <= ");
        assert(") AND (budget_min IS NULL OR budget_min <= "@ =~= ")"@
            + " AND (budget_min IS NULL OR budget_min <= "@);
        let half = required.sql + condition_sql(upper);
        one_more_condition(start().sql, conditions, upper, half);
        assert(s.sql =~= half + condition_sql(lower));
        one_more_condition(start().sql, conditions.push(upper), lower, s.sql);
        assert(s.binds.take(n as int) =~= required.binds);
        later_values_do_not_matter(conditions, required.binds, s.binds, m, c);
        one_more_is_to_hold(conditions, upper, s.binds, m, c);
        one_more_is_to_hold(conditions.push(upper), lower, s.binds, m, c);
    }
}

/// The statement of a search, taken by its own SQL and the values bound to its own placeholders,
/// asks for exactly the clients that the search is after.
pub proof fn search_statement_means_the_search(search: FilterSearchView, m: Matching)
    ensures
        exists|conditions: Seq<Condition>|
            #![trigger asks_for(filter_statement(search).sql, conditions)]
            asks_for(filter_statement(search).sql, conditions) && are_numbered(
                conditions,
                filter_statement(search).binds.len(),
            ) && forall|c: ClientView|
                #![trigger meets(search, m)(c)]
                all_hold(conditions, filter_statement(search).binds, m, c) <==> meets(search, m)(c),
{
    let required = with_requirements(start(), search.requirements, search.full_text);
    let affordable = with_budget(required, search.budget_min, search.budget_max);
    let near = with_area(affordable, search.area);
    let statement = filter_statement(search);
    let earlier = next_conditions(search, required.binds.len());
    let area = Condition::Areas(affordable.binds.len() + 1);
    let conditions = if search.area is Some {
        earlier.push(area)
    } else {
        earlier
    };
    assert(statement.binds == near.binds);
    budget_means(search, m, arbitrary());
    if search.area is Some {
        assert(near.sql =~= affordable.sql + condition_sql(area));
        one_more_condition(start().sql, earlier, area, near.sql);
        assert(near.binds.take(affordable.binds.len() as int) =~= affordable.binds);
    }
    assert(near.sql == start().sql + conditions_sql(conditions));
    assert(asks_for(statement.sql, conditions));
    assert forall|c: ClientView|
        #![trigger meets(search, m)(c)]
        all_hold(conditions, statement.binds, m, c) <==> meets(search, m)(c) by {
        budget_means(search, m, c);
        if search.area is Some {
            later_values_do_not_matter(earlier, affordable.binds, near.binds, m, c);
            one_more_is_to_hold(earlier, area, near.binds, m, c);
        }
    }
    if search.area is Some {
        later_values_do_not_matter(earlier, affordable.binds, near.binds, m, arbitrary());
        one_more_is_to_hold(earlier, area, near.binds, m, arbitrary());
    }
}

/// The start of every statement that reads clients.
pub open spec fn select_sql() -> Seq<char> {
    "SELECT id, name, email, phone, budget_min, budget_max, \
     preferred_areas, status, notes, created_at FROM clients"@
}

/// The statement of a search by name binds one value, and compares the names of the clients with
/// it: by their sound and by their similarity with the very name that is searched for, and at the
/// last stage with a pattern that matches exactly what holds the name.
pub proof fn name_statement_means_the_search(
    search: NameSearchView,
    same: spec_fn(char, char) -> bool,
)
    ensures
        name_statement(search).binds.len() == 1,
        search.stage == SearchStage::Phonetic ==> {
            &&& name_statement(search).sql == select_sql()
                + " WHERE soundex(name) = soundex($1) ORDER BY name ASC LIMIT 10"@
            &&& name_statement(search).binds[0] == BindView::Text(Some(search.name))
        },
        search.stage == SearchStage::Trigram ==> {
            &&& name_statement(search).sql == select_sql()
                + " WHERE similarity(name, $1) > 0.3 \
                   ORDER BY similarity(name, $1) DESC LIMIT 10"@
            &&& name_statement(search).binds[0] == BindView::Text(Some(search.name))
        },
        search.stage == SearchStage::Substring ==> {
            &&& name_statement(search).sql == select_sql()
                + " WHERE name ILIKE $1 ORDER BY name ASC LIMIT 10"@
            &&& bound_text(name_statement(search).binds[0]) matches Some(pattern) && forall|
                text: Seq<char>,
            |
                #![trigger holds(text, search.name, same)]
                matches_pattern(text, pattern, same) <==> holds(text, search.name, same)
        },
{
    if search.stage == SearchStage::Substring {
        let pattern = bound_text(name_statement(search).binds[0])->0;
        assert forall|text: Seq<char>|
            #![trigger holds(text, search.name, same)]
            matches_pattern(text, pattern, same) <==> holds(text, search.name, same) by {
            containing_matches_what_holds(text, search.name, same);
        }
    }
}

/// At each of its stages a search by name is after the clients whose name compares with the name
/// that is searched for as the stage says, and brings them in the order of the stage.
pub proof fn stages_compare_with_the_name(
    search: NameSearchView,
    m: NameMatching,
    c: ClientView,
    other: ClientView,
)
    ensures
        search.stage == SearchStage::Phonetic ==> (stage_meets(search, m)(c) <==> (m.sounds_alike)(
            c.name,
            search.name,
        )),
        search.stage == SearchStage::Trigram ==> (stage_meets(search, m)(c) <==> (m.similarity)(
            c.name,
            search.name,
        ) > m.threshold),
        search.stage == SearchStage::Substring ==> (stage_meets(search, m)(c) <==> holds(
            c.name,
            search.name,
            m.same,
        )),
        search.stage == SearchStage::Trigram ==> (stage_order(search, m)(c, other) <==> (
        m.similarity)(c.name, search.name) > (m.similarity)(other.name, search.name)),
        search.stage != SearchStage::Trigram ==> (stage_order(search, m)(c, other) <==> (
        m.goes_before)(c.name, other.name)),
{
    containing_matches_what_holds(c.name, search.name, m.same);
}

/// The statement that adds a client writes every field to the column of its name, and marks the
/// client as active.
pub proof fn insert_statement_means_the_client(client: NewClientView)
    ensures
        insert_statement(client).sql
            == "INSERT INTO clients \
                (name, email, phone, budget_min, budget_max, preferred_areas, notes, status) \
                VALUES \
                ($1, $2, $3, $4, $5, $6, $7, 'active') \
                RETURNING id, created_at"@,
        insert_statement(client).binds.len() == 7,
        insert_statement(client).binds[0] == BindView::Text(Some(client.name)),
        insert_statement(client).binds[1] == BindView::Text(Some(client.email)),
        insert_statement(client).binds[2] == BindView::Text(Some(client.phone)),
        insert_statement(client).binds[3] == BindView::Integer(client.budget_min),
        insert_statement(client).binds[4] == BindView::Integer(client.budget_max),
        insert_statement(client).binds[5] == BindView::Text(client.preferred_areas),
        insert_statement(client).binds[6] == BindView::Text(Some(client.notes)),
{
}

/// The statement that changes a client is for the client with the identifier, and gives every
/// column what is to be written to it, or null where it is to stay.
pub proof fn update_statement_means_the_changes(changes: ClientChangesView)
    ensures
        update_statement(changes).sql
            == "UPDATE clients SET \
                name            = COALESCE($2, name), \
                email           = COALESCE($3, email), \
                phone           = COALESCE($4, phone), \
                budget_min      = COALESCE($5, budget_min), \
                budget_max      = COALESCE($6, budget_max), \
                preferred_areas = COALESCE($7, preferred_areas), \
                notes           = COALESCE($8, notes), \
                status          = COALESCE($9, status) \
                WHERE id = $1 \
                RETURNING id, name, email, phone, budget_min, budget_max, \
                preferred_areas, status, notes, created_at"@,
        update_statement(changes).binds.len() == 9,
        update_statement(changes).binds[0] == BindView::Id(changes.id),
        update_statement(changes).binds[1] == BindView::Text(changes.name),
        update_statement(changes).binds[2] == BindView::Text(changes.email),
        update_statement(changes).binds[3] == BindView::Text(changes.phone),
        update_statement(changes).binds[4] == BindView::Integer(changes.budget_min),
        update_statement(changes).binds[5] == BindView::Integer(changes.budget_max),
        update_statement(changes).binds[6] == BindView::Text(changes.preferred_areas),
        update_statement(changes).binds[7] == BindView::Text(changes.notes),
        update_statement(changes).binds[8] == BindView::Text(changes.status),
{
}

/// The statement of the list asks for the active clients, the most recently added first, and for
/// fifty at most.
pub proof fn list_statement_means_the_active_clients()
    ensures
        active_statement().sql == select_sql()
            + " WHERE status = 'active' ORDER BY created_at DESC LIMIT 50"@,
        active_statement().binds.len() == 0,
{
}

/// A search can be bound exactly when every text that its statement binds is short enough.
pub proof fn bindable_searches_bind_short_texts(search: FilterSearchView)
    ensures
        search_is_bindable(search) <==> forall|i: int|
            0 <= i < filter_statement(search).binds.len() ==> (bound_text(
                #[trigger] filter_statement(search).binds[i],
            ) matches Some(text) ==> bindable(text)),
{
    let start = start();
    let required = with_requirements(start, search.requirements, search.full_text);
    let affordable = with_budget(required, search.budget_min, search.budget_max);
    let binds = filter_statement(search).binds;
    let n = required.binds.len();
    assert(search.requirements is Some ==> n > 0 && binds[0] == required.binds[0]);
    assert(search.area is Some ==> binds[affordable.binds.len() as int] == BindView::Text(
        Some(crate::pattern::between_percents(search.area->0)),
    ));
    if search_is_bindable(search) {
        assert forall|i: int| 0 <= i < binds.len() implies (bound_text(#[trigger] binds[i]) matches Some(
            text,
        ) ==> bindable(text)) by {
            if i < n {
                assert(binds[i] == required.binds[i]);
            } else if i < affordable.binds.len() {
                assert(bound_text(binds[i]) is None);
            }
        }
    }
}

/// A placeholder is a dollar sign and its number, and no two numbers have the same one.
pub proof fn placeholders_read(n: nat, other: nat)
    ensures
        reads(seq!["$"@, decimal(n as int)], placeholder(n)),
        placeholder(n) == placeholder(other) <==> n == other,
{
    reads_alone("$"@);
    reads_push(seq!["$"@], "$"@, decimal(n as int));
    assert(seq!["$"@].push(decimal(n as int)) =~= seq!["$"@, decimal(n as int)]);
    if placeholder(n) == placeholder(other) {
        reveal_strlit("$");
        assert(placeholder(n).skip(1) =~= decimal(n as int));
        assert(placeholder(other).skip(1) =~= decimal(other as int));
        decimal_names_the_integer(n as int);
        decimal_names_the_integer(other as int);
    }
}

} // verus!
