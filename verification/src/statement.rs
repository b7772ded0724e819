//! The SQL statements that the tools run, and the values bound to their placeholders.

use crate::pattern::{between_percents, between_percents_text, containing, containing_text};
use crate::requests::{
    ClientChanges, ClientChangesView, FilterSearch, FilterSearchView, NameSearch, NameSearchView,
    NewClient, NewClientView, SearchStage,
};
use crate::text::{
    copy_text, decimal, occurs_at_end, occurs_at_start, occurs_in, occurs_within, text_view,
};
use vstd::prelude::*;
use vstd::utf8::encode_utf8;

verus! {

/// The columns of a client, in every statement that reads clients.
pub const SELECT_CLIENTS: &'static str =
    "SELECT id, name, email, phone, budget_min, budget_max, \
     preferred_areas, status, notes, created_at FROM clients";

/// Names that sound like the one bound.
pub const PHONETIC_CONDITION: &'static str =
    " WHERE soundex(name) = soundex($1) ORDER BY name ASC LIMIT 10";

/// Names that are similar to the one bound, the most similar ones first.
pub const TRIGRAM_CONDITION: &'static str =
    " WHERE similarity(name, $1) > 0.3 \
     ORDER BY similarity(name, $1) DESC LIMIT 10";

/// Names that match the pattern bound, in upper or lower case.
pub const SUBSTRING_CONDITION: &'static str = " WHERE name ILIKE $1 ORDER BY name ASC LIMIT 10";

/// The active clients, the most recently added first.
pub const ACTIVE_CONDITION: &'static str =
    " WHERE status = 'active' \
     ORDER BY created_at DESC LIMIT 50";

/// Clients whose notes and preferred areas match the full-text query that is bound next.
pub const FULL_TEXT_CONDITION: &'static str =
    " AND to_tsvector('english', coalesce(notes,'') || ' ' || \
     coalesce(preferred_areas,'')) @@ websearch_to_tsquery('english', ";

/// Adds a client, as an active one.
pub const INSERT_CLIENT: &'static str =
    "INSERT INTO clients \
     (name, email, phone, budget_min, budget_max, preferred_areas, notes, status) \
     VALUES \
     ($1, $2, $3, $4, $5, $6, $7, 'active') \
     RETURNING id, created_at";

/// Changes a client. A null that is bound leaves its column as it is, so a field can be changed
/// but never cleared.
pub const UPDATE_CLIENT: &'static str =
    "UPDATE clients SET \
     name            = COALESCE($2, name), \
     email           = COALESCE($3, email), \
     phone           = COALESCE($4, phone), \
     budget_min      = COALESCE($5, budget_min), \
     budget_max      = COALESCE($6, budget_max), \
     preferred_areas = COALESCE($7, preferred_areas), \
     notes           = COALESCE($8, notes), \
     status          = COALESCE($9, status) \
     WHERE id = $1 \
     RETURNING id, name, email, phone, budget_min, budget_max, \
     preferred_areas, status, notes, created_at";

/// The placeholder with the number `n`.
pub open spec fn placeholder(n: nat) -> Seq<char> {
    "$"@ + decimal(n as int)
}

/// A value that is bound to a placeholder; where there is none, null is bound.
pub enum Bind {
    Id(u128),
    Text(Option<String>),
    Integer(Option<i64>),
}

/// The mathematical value of what is bound to a placeholder.
pub enum BindView {
    Id(u128),
    Text(Option<Seq<char>>),
    Integer(Option<i64>),
}

impl View for Bind {
    type V = BindView;

    open spec fn view(&self) -> BindView {
        match self {
            Bind::Id(id) => BindView::Id(*id),
            Bind::Text(text) => BindView::Text(text_view(*text)),
            Bind::Integer(n) => BindView::Integer(*n),
        }
    }
}

/// A statement: its text, and the values of its placeholders `$1`, `$2` and so on.
pub struct Statement {
    pub sql: String,
    pub binds: Vec<Bind>,
}

/// The mathematical value of a statement.
pub struct StatementView {
    pub sql: Seq<char>,
    pub binds: Seq<BindView>,
}

impl View for Statement {
    type V = StatementView;

    open spec fn view(&self) -> StatementView {
        StatementView { sql: self.sql@, binds: self.binds@.map_values(|b: Bind| b@) }
    }
}

impl StatementView {
    /// The statement with `sql` added at its end.
    pub open spec fn then_sql(self, sql: Seq<char>) -> StatementView {
        StatementView { sql: self.sql + sql, binds: self.binds }
    }

    /// The statement with one more placeholder at its end, and the value that is bound to it.
    pub open spec fn then_bind(self, bind: BindView) -> StatementView {
        StatementView {
            sql: self.sql + placeholder(self.binds.len() + 1),
            binds: self.binds.push(bind),
        }
    }
}

/// Whether a text is short enough to be bound by `push_bind`: its UTF-8 form must not be longer
/// than the greatest `i32`.
pub open spec fn bindable(text: Seq<char>) -> bool {
    encode_utf8(text).len() <= i32::MAX
}

/// A query of `sqlx::QueryBuilder`, as it is being put together.
#[verifier::external_body]
pub struct SqlBuilder {
    builder: sqlx::QueryBuilder<'static, sqlx::Postgres>,
}

/// The SQL text that a builder holds.
pub uninterp spec fn built_sql(builder: SqlBuilder) -> Seq<char>;

/// The values that a builder has bound, in the order of their placeholders.
pub uninterp spec fn built_binds(builder: SqlBuilder) -> Seq<BindView>;

/// `sqlx::QueryBuilder::new`: the builder holds the text that it starts with, and no values.
#[verifier::external_body]
fn builder_new(init: &str) -> (builder: SqlBuilder)
    ensures
        built_sql(builder) == init@,
        built_binds(builder) == Seq::<BindView>::empty(),
{
    SqlBuilder { builder: sqlx::QueryBuilder::new(init) }
}

/// `sqlx::QueryBuilder::push`: appends the text.
#[verifier::external_body]
fn builder_push(builder: &mut SqlBuilder, sql: &str)
    ensures
        built_sql(*final(builder)) == built_sql(*old(builder)) + sql@,
        built_binds(*final(builder)) == built_binds(*old(builder)),
{
    builder.builder.push(sql);
}

/// `sqlx::QueryBuilder::push_bind` of a text: binds it, and appends the placeholder, a dollar
/// sign and the number of values bound so far. It panics on a text that is not `bindable`.
#[verifier::external_body]
fn builder_push_bind_text(builder: &mut SqlBuilder, value: &str)
    requires
        bindable(value@),
    ensures
        built_sql(*final(builder)) == built_sql(*old(builder)) + placeholder(
            built_binds(*old(builder)).len() + 1,
        ),
        built_binds(*final(builder)) == built_binds(*old(builder)).push(
            BindView::Text(Some(value@)),
        ),
{
    builder.builder.push_bind(value.to_string());
}

/// `sqlx::QueryBuilder::push_bind` of a number: binds it, and appends the placeholder, a dollar
/// sign and the number of values bound so far.
#[verifier::external_body]
fn builder_push_bind_integer(builder: &mut SqlBuilder, value: i64)
    ensures
        built_sql(*final(builder)) == built_sql(*old(builder)) + placeholder(
            built_binds(*old(builder)).len() + 1,
        ),
        built_binds(*final(builder)) == built_binds(*old(builder)).push(
            BindView::Integer(Some(value)),
        ),
{
    builder.builder.push_bind(value);
}

/// `sqlx::QueryBuilder::into_sql`: the text that the builder holds.
#[verifier::external_body]
fn builder_into_sql(builder: SqlBuilder) -> (sql: String)
    ensures
        sql@ == built_sql(builder),
{
    builder.builder.into_sql()
}

/// A statement that is being put together: the builder of its text, and the values bound so far.
struct Draft {
    builder: SqlBuilder,
    binds: Vec<Bind>,
}

impl Draft {
    /// The statement as it stands.
    spec fn statement(self) -> StatementView {
        StatementView {
            sql: built_sql(self.builder),
            binds: self.binds@.map_values(|b: Bind| b@),
        }
    }

    /// Whether the values of the builder are the ones that were bound.
    spec fn well_formed(self) -> bool {
        built_binds(self.builder) == self.statement().binds
    }

    fn new(init: &str) -> (draft: Draft)
        ensures
            draft.well_formed(),
            draft.statement() == (StatementView { sql: init@, binds: Seq::empty() }),
    {
        let draft = Draft { builder: builder_new(init), binds: Vec::new() };
        assert(draft.statement().binds =~= Seq::<BindView>::empty());
        draft
    }

    fn push(&mut self, sql: &str)
        requires
            old(self).well_formed(),
        ensures
            final(self).well_formed(),
            final(self).statement() == old(self).statement().then_sql(sql@),
    {
        builder_push(&mut self.builder, sql);
    }

    fn push_bind_text(&mut self, value: &str)
        requires
            old(self).well_formed(),
            bindable(value@),
        ensures
            final(self).well_formed(),
            final(self).statement() == old(self).statement().then_bind(
                BindView::Text(Some(value@)),
            ),
    {
        builder_push_bind_text(&mut self.builder, value);
        self.binds.push(Bind::Text(Some(value.to_string())));
        assert(self.statement().binds =~= old(self).statement().binds.push(
            BindView::Text(Some(value@)),
        ));
    }

    fn push_bind_integer(&mut self, value: i64)
        requires
            old(self).well_formed(),
        ensures
            final(self).well_formed(),
            final(self).statement() == old(self).statement().then_bind(
                BindView::Integer(Some(value)),
            ),
    {
        builder_push_bind_integer(&mut self.builder, value);
        self.binds.push(Bind::Integer(Some(value)));
        assert(self.statement().binds =~= old(self).statement().binds.push(
            BindView::Integer(Some(value)),
        ));
    }

    fn finish(self) -> (statement: Statement)
        ensures
            statement@ == self.statement(),
    {
        Statement { sql: builder_into_sql(self.builder), binds: self.binds }
    }
}

/// The condition on the requirements, where any are given: they are matched against the notes and
/// the preferred areas. The full-text query drops common words and word endings; the substring
/// match is for terms that it misses.
pub open spec fn with_requirements(
    s: StatementView,
    requirements: Option<Seq<char>>,
    full_text: bool,
) -> StatementView {
    match requirements {
        Some(req) => if full_text {
            s.then_sql(FULL_TEXT_CONDITION@).then_bind(BindView::Text(Some(req))).then_sql(")"@)
        } else {
            let pattern = BindView::Text(Some(containing(req)));
            s.then_sql(" AND (notes ILIKE "@).then_bind(pattern).then_sql(
                " OR preferred_areas ILIKE "@,
            ).then_bind(pattern).then_sql(")"@)
        },
        None => s,
    }
}

/// The least and the greatest amount of a budget that is searched for: an end that is not given
/// is open.
pub open spec fn budget_window(min: Option<i64>, max: Option<i64>) -> (i64, i64) {
    (min.unwrap_or(i64::MIN), max.unwrap_or(i64::MAX))
}

/// The condition on the budget, where either end is given: the client's own range overlaps the
/// one that is searched for, and an end that the client leaves open stays open.
pub open spec fn with_budget(s: StatementView, min: Option<i64>, max: Option<i64>) -> StatementView {
    if min is Some || max is Some {
        let (low, high) = budget_window(min, max);
        s.then_sql(" AND (budget_max IS NULL OR budget_max >= "@).then_bind(
            BindView::Integer(Some(low)),
        ).then_sql(") AND (budget_min IS NULL OR budget_min <= "@).then_bind(
            BindView::Integer(Some(high)),
        ).then_sql(")"@)
    } else {
        s
    }
}

/// The condition on the area, where one is given: the preferred areas match the area between two
/// `%`.
pub open spec fn with_area(s: StatementView, area: Option<Seq<char>>) -> StatementView {
    match area {
        Some(a) => s.then_sql(" AND preferred_areas ILIKE "@).then_bind(
            BindView::Text(Some(between_percents(a))),
        ),
        None => s,
    }
}

/// The statement of a search by filters: the conditions of all that are given, the most recently
/// added clients first, and ten of them at most.
pub open spec fn filter_statement(search: FilterSearchView) -> StatementView {
    let start = StatementView { sql: SELECT_CLIENTS@ + " WHERE 1=1"@, binds: Seq::empty() };
    let required = with_requirements(start, search.requirements, search.full_text);
    let affordable = with_budget(required, search.budget_min, search.budget_max);
    let near = with_area(affordable, search.area);
    near.then_sql(" ORDER BY created_at DESC LIMIT 10"@)
}

/// The text that a search binds for its requirements.
pub open spec fn requirements_bind(requirements: Seq<char>, full_text: bool) -> Seq<char> {
    if full_text {
        requirements
    } else {
        containing(requirements)
    }
}

/// Whether every text that a search binds is short enough.
pub open spec fn search_is_bindable(search: FilterSearchView) -> bool {
    &&& search.requirements matches Some(req) ==> bindable(requirements_bind(req, search.full_text))
    &&& search.area matches Some(a) ==> bindable(between_percents(a))
}

/// Whether a text is short enough to be bound.
fn is_bindable(text: &str) -> (short: bool)
    ensures
        short == bindable(text@),
{
    text.as_bytes().len() <= 0x7fff_ffff
}

/// Whether every text that the search binds is short enough.
pub fn can_bind_search(search: &FilterSearch) -> (short: bool)
    ensures
        short == search_is_bindable(search@),
{
    let requirements = match &search.requirements {
        Some(req) => if search.full_text {
            is_bindable(req.as_str())
        } else {
            is_bindable(containing_text(req.as_str()).as_str())
        },
        None => true,
    };
    let area = match &search.area {
        Some(a) => is_bindable(between_percents_text(a.as_str()).as_str()),
        None => true,
    };
    requirements && area
}

/// Puts the statement of a search together from the filters that are given.
pub fn build_search_query(search: &FilterSearch) -> (statement: Statement)
    requires
        search_is_bindable(search@),
    ensures
        statement@ == filter_statement(search@),
{
    let mut draft = Draft::new(SELECT_CLIENTS.to_string().concat(" WHERE 1=1").as_str());
    if let Some(req) = &search.requirements {
        if search.full_text {
            draft.push(FULL_TEXT_CONDITION);
            draft.push_bind_text(req.as_str());
            draft.push(")");
        } else {
            let pattern = containing_text(req.as_str());
            draft.push(" AND (notes ILIKE ");
            draft.push_bind_text(pattern.as_str());
            draft.push(" OR preferred_areas ILIKE ");
            draft.push_bind_text(pattern.as_str());
            draft.push(")");
        }
    }
    if search.budget_min.is_some() || search.budget_max.is_some() {
        draft.push(" AND (budget_max IS NULL OR budget_max >= ");
        draft.push_bind_integer(search.budget_min.unwrap_or(i64::MIN));
        draft.push(") AND (budget_min IS NULL OR budget_min <= ");
        draft.push_bind_integer(search.budget_max.unwrap_or(i64::MAX));
        draft.push(")");
    }
    if let Some(a) = &search.area {
        draft.push(" AND preferred_areas ILIKE ");
        draft.push_bind_text(between_percents_text(a.as_str()).as_str());
    }
    draft.push(" ORDER BY created_at DESC LIMIT 10");
    draft.finish()
}

/// The condition of a stage of a search by name.
pub open spec fn stage_condition(stage: SearchStage) -> Seq<char> {
    match stage {
        SearchStage::Phonetic => PHONETIC_CONDITION@,
        SearchStage::Trigram => TRIGRAM_CONDITION@,
        SearchStage::Substring => SUBSTRING_CONDITION@,
    }
}

/// The text that a stage of a search by name binds.
pub open spec fn stage_bind(stage: SearchStage, name: Seq<char>) -> Seq<char> {
    match stage {
        SearchStage::Substring => containing(name),
        _ => name,
    }
}

/// The statement of a search by name, at its stage.
pub open spec fn name_statement(search: NameSearchView) -> StatementView {
    StatementView {
        sql: SELECT_CLIENTS@ + stage_condition(search.stage),
        binds: seq![BindView::Text(Some(stage_bind(search.stage, search.name)))],
    }
}

impl NameSearch {
    /// The statement of the search, at its stage.
    pub fn statement(&self) -> (statement: Statement)
        ensures
            statement@ == name_statement(self@),
    {
        let (condition, bind) = match self.stage {
            SearchStage::Phonetic => (PHONETIC_CONDITION, self.name.clone()),
            SearchStage::Trigram => (TRIGRAM_CONDITION, self.name.clone()),
            SearchStage::Substring => (SUBSTRING_CONDITION, containing_text(self.name.as_str())),
        };
        let mut binds: Vec<Bind> = Vec::new();
        binds.push(Bind::Text(Some(bind)));
        let statement = Statement { sql: SELECT_CLIENTS.to_string().concat(condition), binds };
        assert(statement@.binds =~= name_statement(self@).binds);
        statement
    }
}

/// The statement that adds a client.
pub open spec fn insert_statement(client: NewClientView) -> StatementView {
    StatementView {
        sql: INSERT_CLIENT@,
        binds: seq![
            BindView::Text(Some(client.name)),
            BindView::Text(Some(client.email)),
            BindView::Text(Some(client.phone)),
            BindView::Integer(client.budget_min),
            BindView::Integer(client.budget_max),
            BindView::Text(client.preferred_areas),
            BindView::Text(Some(client.notes)),
        ],
    }
}

impl NewClient {
    /// The statement that adds the client.
    pub fn statement(&self) -> (statement: Statement)
        ensures
            statement@ == insert_statement(self@),
    {
        let mut binds: Vec<Bind> = Vec::new();
        binds.push(Bind::Text(Some(self.name.clone())));
        binds.push(Bind::Text(Some(self.email.clone())));
        binds.push(Bind::Text(Some(self.phone.clone())));
        binds.push(Bind::Integer(self.budget_min));
        binds.push(Bind::Integer(self.budget_max));
        binds.push(Bind::Text(copy_text(&self.preferred_areas)));
        binds.push(Bind::Text(Some(self.notes.clone())));
        let statement = Statement { sql: INSERT_CLIENT.to_string(), binds };
        assert(statement@.binds =~= insert_statement(self@).binds);
        statement
    }
}

/// The statement that changes a client.
pub open spec fn update_statement(changes: ClientChangesView) -> StatementView {
    StatementView {
        sql: UPDATE_CLIENT@,
        binds: seq![
            BindView::Id(changes.id),
            BindView::Text(changes.name),
            BindView::Text(changes.email),
            BindView::Text(changes.phone),
            BindView::Integer(changes.budget_min),
            BindView::Integer(changes.budget_max),
            BindView::Text(changes.preferred_areas),
            BindView::Text(changes.notes),
            BindView::Text(changes.status),
        ],
    }
}

impl ClientChanges {
    /// The statement that changes the client.
    pub fn statement(&self) -> (statement: Statement)
        ensures
            statement@ == update_statement(self@),
    {
        let mut binds: Vec<Bind> = Vec::new();
        binds.push(Bind::Id(self.id));
        binds.push(Bind::Text(copy_text(&self.name)));
        binds.push(Bind::Text(copy_text(&self.email)));
        binds.push(Bind::Text(copy_text(&self.phone)));
        binds.push(Bind::Integer(self.budget_min));
        binds.push(Bind::Integer(self.budget_max));
        binds.push(Bind::Text(copy_text(&self.preferred_areas)));
        binds.push(Bind::Text(copy_text(&self.notes)));
        binds.push(Bind::Text(copy_text(&self.status)));
        let statement = Statement { sql: UPDATE_CLIENT.to_string(), binds };
        assert(statement@.binds =~= update_statement(self@).binds);
        statement
    }
}

/// The statement that lists the active clients.
pub open spec fn active_statement() -> StatementView {
    StatementView { sql: SELECT_CLIENTS@ + ACTIVE_CONDITION@, binds: Seq::empty() }
}

/// The statement that lists the active clients.
pub fn list_statement() -> (statement: Statement)
    ensures
        statement@ == active_statement(),
{
    let statement = Statement {
        sql: SELECT_CLIENTS.to_string().concat(ACTIVE_CONDITION),
        binds: Vec::new(),
    };
    assert(statement@.binds =~= Seq::<BindView>::empty());
    statement
}

/// Whether the condition on the budget holds of a client, as the statement words it: the upper end
/// is open or reaches `low`, and the lower end is open or does not exceed `high`.
pub open spec fn budget_condition(
    low: i64,
    high: i64,
    client_min: Option<i64>,
    client_max: Option<i64>,
) -> bool {
    (client_max is None || client_max->0 >= low) && (client_min is None || client_min->0 <= high)
}

/// Whether an amount lies in a range whose ends are open where they are not given.
pub open spec fn in_budget(amount: int, min: Option<i64>, max: Option<i64>) -> bool {
    (min matches Some(mn) ==> mn <= amount) && (max matches Some(mx) ==> amount <= mx)
}

/// Whether a range is none that runs backwards.
pub open spec fn is_range(min: Option<i64>, max: Option<i64>) -> bool {
    min is Some && max is Some ==> min->0 <= max->0
}

/// A client matches a search by budget exactly when some amount lies both in the client's own
/// budget and in the one that is searched for, where an end that is not given is open.
pub proof fn budget_filter_is_overlap(
    min: Option<i64>,
    max: Option<i64>,
    client_min: Option<i64>,
    client_max: Option<i64>,
)
    requires
        is_range(min, max),
        is_range(client_min, client_max),
    ensures
        ({
            let (low, high) = budget_window(min, max);
            budget_condition(low, high, client_min, client_max) <==> exists|amount: int|
                #[trigger] in_budget(amount, min, max) && in_budget(amount, client_min, client_max)
        }),
{
    let (low, high) = budget_window(min, max);
    if budget_condition(low, high, client_min, client_max) {
        let amount: int = match (min, client_min) {
            (Some(a), Some(b)) => if a >= b {
                a as int
            } else {
                b as int
            },
            (Some(a), None) => a as int,
            (None, Some(b)) => b as int,
            (None, None) => match (max, client_max) {
                (Some(a), Some(b)) => if a <= b {
                    a as int
                } else {
                    b as int
                },
                (Some(a), None) => a as int,
                (None, Some(b)) => b as int,
                (None, None) => 0,
            },
        };
        assert(in_budget(amount, min, max) && in_budget(amount, client_min, client_max));
    }
}

/// Whether a statement holds a placeholder for every value that is bound.
pub open spec fn holds_placeholders(s: StatementView) -> bool {
    forall|i: int|
        0 <= i < s.binds.len() ==> occurs_in(#[trigger] placeholder((i + 1) as nat), s.sql)
}

/// Whatever SQL is added to a statement, its placeholders stay.
proof fn then_sql_holds_placeholders(s: StatementView, sql: Seq<char>)
    requires
        holds_placeholders(s),
    ensures
        holds_placeholders(s.then_sql(sql)),
{
    assert forall|i: int| 0 <= i < s.binds.len() implies occurs_in(
        #[trigger] placeholder((i + 1) as nat),
        s.sql + sql,
    ) by {
        occurs_at_start(s.sql, sql);
        occurs_within(placeholder((i + 1) as nat), s.sql, s.sql + sql);
    }
}

/// A value that is bound brings its placeholder.
proof fn then_bind_holds_placeholders(s: StatementView, bind: BindView)
    requires
        holds_placeholders(s),
    ensures
        holds_placeholders(s.then_bind(bind)),
{
    let longer = s.then_bind(bind);
    let last = placeholder(s.binds.len() + 1);
    assert forall|i: int| 0 <= i < longer.binds.len() implies occurs_in(
        #[trigger] placeholder((i + 1) as nat),
        longer.sql,
    ) by {
        if i < s.binds.len() {
            occurs_at_start(s.sql, last);
            occurs_within(placeholder((i + 1) as nat), s.sql, longer.sql);
        } else {
            occurs_at_end(s.sql, last);
        }
    }
}

/// The statement of a search holds a placeholder for every value that it binds.
pub proof fn search_holds_placeholders(search: FilterSearchView)
    ensures
        holds_placeholders(filter_statement(search)),
{
    let start = StatementView { sql: SELECT_CLIENTS@ + " WHERE 1=1"@, binds: Seq::empty() };
    let required = with_requirements(start, search.requirements, search.full_text);
    assert(holds_placeholders(required)) by {
        if let Some(req) = search.requirements {
            if search.full_text {
                let bind = BindView::Text(Some(req));
                then_sql_holds_placeholders(start, FULL_TEXT_CONDITION@);
                let opened = start.then_sql(FULL_TEXT_CONDITION@);
                then_bind_holds_placeholders(opened, bind);
                then_sql_holds_placeholders(opened.then_bind(bind), ")"@);
            } else {
                let bind = BindView::Text(Some(containing(req)));
                then_sql_holds_placeholders(start, " AND (notes ILIKE "@);
                let s = start.then_sql(" AND (notes ILIKE "@);
                then_bind_holds_placeholders(s, bind);
                let s = s.then_bind(bind);
                then_sql_holds_placeholders(s, " OR preferred_areas ILIKE "@);
                let s = s.then_sql(" OR preferred_areas ILIKE "@);
                then_bind_holds_placeholders(s, bind);
                then_sql_holds_placeholders(s.then_bind(bind), ")"@);
            }
        }
    }
    let affordable = with_budget(required, search.budget_min, search.budget_max);
    assert(holds_placeholders(affordable)) by {
        if search.budget_min is Some || search.budget_max is Some {
            let (low, high) = budget_window(search.budget_min, search.budget_max);
            let low = BindView::Integer(Some(low));
            let high = BindView::Integer(Some(high));
            let upper = " AND (budget_max IS NULL OR budget_max >= "@;
            let lower = ") AND (budget_min IS NULL OR budget_min <= "@;
            then_sql_holds_placeholders(required, upper);
            let s = required.then_sql(upper);
            then_bind_holds_placeholders(s, low);
            let s = s.then_bind(low);
            then_sql_holds_placeholders(s, lower);
            let s = s.then_sql(lower);
            then_bind_holds_placeholders(s, high);
            then_sql_holds_placeholders(s.then_bind(high), ")"@);
        }
    }
    let near = with_area(affordable, search.area);
    assert(holds_placeholders(near)) by {
        if let Some(a) = search.area {
            let bind = BindView::Text(Some(between_percents(a)));
            then_sql_holds_placeholders(affordable, " AND preferred_areas ILIKE "@);
            then_bind_holds_placeholders(
                affordable.then_sql(" AND preferred_areas ILIKE "@),
                bind,
            );
        }
    }
    then_sql_holds_placeholders(near, " ORDER BY created_at DESC LIMIT 10"@);
}

/// The filters of a search combine: the conditions of all of them stand in the statement, each
/// behind an `AND`, and a filter that is not given binds nothing.
pub proof fn filters_combine(search: FilterSearchView)
    ensures
        ({
            let sql = filter_statement(search).sql;
            &&& search.requirements is Some && search.full_text ==> occurs_in(
                FULL_TEXT_CONDITION@,
                sql,
            )
            &&& search.requirements is Some && !search.full_text ==> occurs_in(
                " AND (notes ILIKE "@,
                sql,
            ) && occurs_in(" OR preferred_areas ILIKE "@, sql)
            &&& search.budget_min is Some || search.budget_max is Some ==> occurs_in(
                " AND (budget_max IS NULL OR budget_max >= "@,
                sql,
            ) && occurs_in(") AND (budget_min IS NULL OR budget_min <= "@, sql)
            &&& search.area is Some ==> occurs_in(" AND preferred_areas ILIKE "@, sql)
            &&& filter_statement(search).binds.len() == (if search.requirements is Some {
                if search.full_text {
                    1nat
                } else {
                    2
                }
            } else {
                0
            }) + (if search.budget_min is Some || search.budget_max is Some {
                2nat
            } else {
                0
            }) + (if search.area is Some {
                1nat
            } else {
                0
            })
        }),
{
    let start = StatementView { sql: SELECT_CLIENTS@ + " WHERE 1=1"@, binds: Seq::empty() };
    let required = with_requirements(start, search.requirements, search.full_text);
    let affordable = with_budget(required, search.budget_min, search.budget_max);
    let near = with_area(affordable, search.area);
    let sql = filter_statement(search).sql;
    requirements_stand(start, search.requirements, search.full_text);
    budget_stands(required, search.budget_min, search.budget_max);
    area_stands(affordable, search.area);
    occurs_at_start(near.sql, " ORDER BY created_at DESC LIMIT 10"@);
    occurs_within(affordable.sql, near.sql, sql);
    occurs_within(required.sql, affordable.sql, sql);
    if search.requirements is Some {
        if search.full_text {
            occurs_within(FULL_TEXT_CONDITION@, required.sql, sql);
        } else {
            occurs_within(" AND (notes ILIKE "@, required.sql, sql);
            occurs_within(" OR preferred_areas ILIKE "@, required.sql, sql);
        }
    }
    if search.budget_min is Some || search.budget_max is Some {
        occurs_within(" AND (budget_max IS NULL OR budget_max >= "@, affordable.sql, sql);
        occurs_within(") AND (budget_min IS NULL OR budget_min <= "@, affordable.sql, sql);
    }
    if search.area is Some {
        occurs_within(" AND preferred_areas ILIKE "@, near.sql, sql);
    }
}

/// The condition on the requirements stands in the statement, and binds its values.
proof fn requirements_stand(s: StatementView, requirements: Option<Seq<char>>, full_text: bool)
    ensures
        ({
            let longer = with_requirements(s, requirements, full_text);
            &&& requirements is Some && full_text ==> occurs_in(FULL_TEXT_CONDITION@, longer.sql)
                && longer.binds.len() == s.binds.len() + 1
            &&& requirements is Some && !full_text ==> occurs_in(" AND (notes ILIKE "@, longer.sql)
                && occurs_in(" OR preferred_areas ILIKE "@, longer.sql) && longer.binds.len()
                == s.binds.len() + 2
            &&& requirements is None ==> longer == s
        }),
{
    let longer = with_requirements(s, requirements, full_text);
    let first = placeholder(s.binds.len() + 1);
    let second = placeholder(s.binds.len() + 2);
    if requirements is Some {
        if full_text {
            assert(longer.sql =~= s.sql + FULL_TEXT_CONDITION@ + (first + ")"@));
        } else {
            let notes = " AND (notes ILIKE "@;
            let areas = " OR preferred_areas ILIKE "@;
            assert(longer.sql =~= s.sql + notes + (first + areas + second + ")"@));
            assert(longer.sql =~= (s.sql + notes + first) + areas + (second + ")"@));
        }
    }
}

/// The condition on the budget stands in the statement, behind what that held, and binds its
/// values.
proof fn budget_stands(s: StatementView, min: Option<i64>, max: Option<i64>)
    ensures
        ({
            let longer = with_budget(s, min, max);
            let upper = " AND (budget_max IS NULL OR budget_max >= "@;
            let lower = ") AND (budget_min IS NULL OR budget_min <= "@;
            &&& occurs_in(s.sql, longer.sql)
            &&& min is Some || max is Some ==> occurs_in(upper, longer.sql) && occurs_in(
                lower,
                longer.sql,
            ) && longer.binds.len() == s.binds.len() + 2
            &&& min is None && max is None ==> longer == s
        }),
{
    let longer = with_budget(s, min, max);
    let upper = " AND (budget_max IS NULL OR budget_max >= "@;
    let lower = ") AND (budget_min IS NULL OR budget_min <= "@;
    let first = placeholder(s.binds.len() + 1);
    let second = placeholder(s.binds.len() + 2);
    if min is Some || max is Some {
        let tail = first + lower + second + ")"@;
        assert(longer.sql =~= s.sql + upper + tail);
        assert(longer.sql =~= (s.sql + upper + first) + lower + (second + ")"@));
        assert(longer.sql =~= s.sql + (upper + tail));
        occurs_at_start(s.sql, upper + tail);
    } else {
        assert(s.sql =~= s.sql + Seq::empty());
        occurs_at_start(s.sql, Seq::empty());
    }
}

/// The condition on the area stands in the statement, behind what that held, and binds its value.
proof fn area_stands(s: StatementView, area: Option<Seq<char>>)
    ensures
        ({
            let longer = with_area(s, area);
            &&& occurs_in(s.sql, longer.sql)
            &&& area is Some ==> occurs_in(" AND preferred_areas ILIKE "@, longer.sql)
                && longer.binds.len() == s.binds.len() + 1
            &&& area is None ==> longer == s
        }),
{
    let longer = with_area(s, area);
    let condition = " AND preferred_areas ILIKE "@;
    let first = placeholder(s.binds.len() + 1);
    if area is Some {
        assert(longer.sql =~= s.sql + condition + first);
        assert(longer.sql =~= s.sql + (condition + first));
        occurs_at_start(s.sql, condition + first);
    } else {
        assert(s.sql =~= s.sql + Seq::empty());
        occurs_at_start(s.sql, Seq::empty());
    }
}

/// What is searched for is bound and never written into the SQL: two searches that give the same
/// filters, whatever their values, run the same text.
pub proof fn values_stay_out_of_the_sql(search: FilterSearchView, other: FilterSearchView)
    requires
        search.requirements is Some <==> other.requirements is Some,
        search.budget_min is Some || search.budget_max is Some <==> other.budget_min is Some
            || other.budget_max is Some,
        search.area is Some <==> other.area is Some,
        search.full_text == other.full_text || search.requirements is None,
    ensures
        filter_statement(search).sql == filter_statement(other).sql,
{
}

} // verus!
