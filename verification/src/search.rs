//! Finding clients without a name: by what they are looking for, by budget, or by area.

use crate::arguments::{Arguments, ArgumentsView};
use crate::client::{
    amount_if_known, amounts, client_members, detail_line, if_known, rupees, rupees_text, ClientRow,
    ClientView,
};
use crate::json::JsonView;
use crate::requests::{FilterSearch, FilterSearchView};
use crate::step::{
    clients_json, clients_view, detail_lines, detail_lines_show_every_client, is_blank,
    rows_or_none, rows_view, strip_unless_blank, stripped_unless_blank, summary_only, with_data,
    write_clients_json, write_detail_lines, OutputView, Step, StepView, ToolOutput,
};
use crate::text::{
    decimal, decimal_text, in_order, in_order_concat, in_order_extends, in_order_push, join, joined,
    joined_push, occurs_in, stripped, stripped_twice,
};
use vstd::prelude::*;

verus! {

/// The answer to a search without any filter.
pub const NO_FILTERS: &'static str =
    "No search filters given. Ask the realtor what to go on — what the \
     client's after, roughly what budget, or which area.";

/// How a search starts: it needs one filter at least, and texts that are blank are none.
pub open spec fn search_step(a: ArgumentsView) -> StepView {
    let search = FilterSearchView {
        requirements: stripped_unless_blank(a.requirements),
        budget_min: a.budget_min,
        budget_max: a.budget_max,
        area: stripped_unless_blank(a.area),
        full_text: true,
    };
    if search.has_filter() {
        StepView::Search(search)
    } else {
        StepView::Done(summary_only(NO_FILTERS@))
    }
}

impl FilterSearchView {
    /// Whether any filter is given.
    pub open spec fn has_filter(self) -> bool {
        self.requirements is Some || self.budget_min is Some || self.budget_max is Some
            || self.area is Some
    }

    /// Whether the requirements are given, and no other filter.
    pub open spec fn requirements_only(self) -> bool {
        self.requirements is Some && self.budget_min is None && self.budget_max is None
            && self.area is None
    }
}

/// Starts a search.
pub fn search_clients(arguments: &Arguments) -> (step: Step)
    ensures
        step@ == search_step(arguments@),
{
    let requirements = strip_unless_blank(&arguments.requirements);
    let budget_min = arguments.budget_min;
    let budget_max = arguments.budget_max;
    let area = strip_unless_blank(&arguments.area);
    if requirements.is_none() && budget_min.is_none() && budget_max.is_none() && area.is_none() {
        Step::Done(ToolOutput::summary_only(NO_FILTERS.to_string()))
    } else {
        Step::Search(FilterSearch { requirements, budget_min, budget_max, area, full_text: true })
    }
}

/// The requirements that are searched for, in words.
pub open spec fn requirements_criterion(requirements: Option<Seq<char>>) -> Seq<Seq<char>> {
    match requirements {
        Some(req) => seq!["looking for '"@ + req + "'"@],
        None => Seq::empty(),
    }
}

/// The budget that is searched for, in words.
pub open spec fn budget_criterion(min: Option<i64>, max: Option<i64>) -> Seq<Seq<char>> {
    match (min, max) {
        (Some(mn), Some(mx)) => if mn == mx {
            seq!["budget around "@ + rupees(mn)]
        } else {
            seq!["budget between "@ + rupees(mn) + " and "@ + rupees(mx)]
        },
        (Some(mn), None) => seq!["budget from "@ + rupees(mn)],
        (None, Some(mx)) => seq!["budget up to "@ + rupees(mx)],
        (None, None) => Seq::empty(),
    }
}

/// The area that is searched for, in words.
pub open spec fn area_criterion(area: Option<Seq<char>>) -> Seq<Seq<char>> {
    match area {
        Some(a) => seq!["area '"@ + a + "'"@],
        None => Seq::empty(),
    }
}

/// All that is searched for, in words.
pub open spec fn criteria(search: FilterSearchView) -> Seq<char> {
    joined(
        requirements_criterion(search.requirements) + budget_criterion(
            search.budget_min,
            search.budget_max,
        ) + area_criterion(search.area),
        ", "@,
    )
}

/// The answer to a search, from the clients that it found.
pub open spec fn search_output(search: FilterSearchView, rows: Seq<ClientView>) -> OutputView {
    if rows.len() == 0 {
        summary_only("No clients found matching "@ + criteria(search) + "."@)
    } else {
        with_data(
            "Found "@ + decimal(rows.len() as int) + " client(s) matching "@ + criteria(search)
                + ".\n"@ + detail_lines(rows),
            clients_json(rows),
        )
    }
}

/// What follows a search. Where the full-text query finds nothing and the requirements were the
/// only filter, they are looked for once more as a substring; where that fails, it counts as
/// finding nothing.
pub open spec fn searched_step(
    search: FilterSearchView,
    reply: Result<Seq<ClientView>, Seq<char>>,
) -> StepView {
    match reply {
        Ok(rows) => if search.full_text && rows.len() == 0 && search.requirements_only() {
            StepView::Search(FilterSearchView { full_text: false, ..search })
        } else {
            StepView::Done(search_output(search, rows))
        },
        Err(error) => if search.full_text {
            StepView::Done(summary_only("Database error: "@ + error))
        } else {
            StepView::Done(search_output(search, Seq::empty()))
        },
    }
}

/// All that is searched for, in words.
pub fn write_criteria(search: &FilterSearch) -> (text: String)
    ensures
        text@ == criteria(search@),
{
    let mut parts: Vec<String> = Vec::new();
    let ghost view = |part: String| part@;
    if let Some(req) = &search.requirements {
        parts.push("looking for '".to_string().concat(req.as_str()).concat("'"));
    }
    let ghost first = requirements_criterion(search@.requirements);
    assert(parts@.map_values(view) =~= first);
    match (search.budget_min, search.budget_max) {
        (Some(mn), Some(mx)) => if mn == mx {
            parts.push("budget around ".to_string().concat(rupees_text(mn).as_str()));
        } else {
            parts.push(
                "budget between ".to_string().concat(rupees_text(mn).as_str()).concat(
                    " and ",
                ).concat(rupees_text(mx).as_str()),
            );
        },
        (Some(mn), None) => parts.push(
            "budget from ".to_string().concat(rupees_text(mn).as_str()),
        ),
        (None, Some(mx)) => parts.push(
            "budget up to ".to_string().concat(rupees_text(mx).as_str()),
        ),
        (None, None) => {},
    }
    let ghost second = first + budget_criterion(search.budget_min, search.budget_max);
    assert(parts@.map_values(view) =~= second);
    if let Some(a) = &search.area {
        parts.push("area '".to_string().concat(a.as_str()).concat("'"));
    }
    assert(parts@.map_values(view) =~= second + area_criterion(search@.area));
    join(&parts, ", ")
}

/// Answers a search with the clients that it found.
pub fn search_found(search: &FilterSearch, rows: &Vec<ClientRow>) -> (output: ToolOutput)
    ensures
        output@ == search_output(search@, clients_view(rows@)),
{
    let criteria = write_criteria(search);
    if rows.len() == 0 {
        ToolOutput::summary_only(
            "No clients found matching ".to_string().concat(criteria.as_str()).concat("."),
        )
    } else {
        let summary = "Found ".to_string().concat(decimal_text(rows.len() as i128).as_str()).concat(
            " client(s) matching ",
        ).concat(criteria.as_str()).concat(".\n").concat(write_detail_lines(rows).as_str());
        ToolOutput::with_data(summary, write_clients_json(rows))
    }
}

/// Goes on after a search.
pub fn search_replied(search: FilterSearch, reply: Result<Vec<ClientRow>, String>) -> (step: Step)
    ensures
        step@ == searched_step(search@, rows_view(reply)),
{
    match reply {
        Ok(rows) => {
            let requirements_only = search.requirements.is_some() && search.budget_min.is_none()
                && search.budget_max.is_none() && search.area.is_none();
            if search.full_text && rows.len() == 0 && requirements_only {
                Step::Search(FilterSearch { full_text: false, ..search })
            } else {
                Step::Done(search_found(&search, &rows))
            }
        },
        Err(error) => if search.full_text {
            Step::Done(
                ToolOutput::summary_only("Database error: ".to_string().concat(error.as_str())),
            )
        } else {
            let none: Vec<ClientRow> = Vec::new();
            assert(clients_view(none@) =~= Seq::empty());
            Step::Done(search_found(&search, &none))
        },
    }
}

/// A search goes to the database exactly when one filter at least is given, where a blank text is
/// none; every text that it takes there is trimmed and not empty.
pub proof fn search_needs_a_filter(a: ArgumentsView)
    ensures
        search_step(a) is Search <==> !is_blank(a.requirements) || a.budget_min is Some
            || a.budget_max is Some || !is_blank(a.area),
        search_step(a) !is Search ==> search_step(a) == StepView::Done(summary_only(NO_FILTERS@)),
        search_step(a) matches StepView::Search(search) ==> {
            &&& search.has_filter()
            &&& search.full_text
            &&& search.requirements matches Some(req) ==> req.len() > 0 && stripped(req) == req
            &&& search.area matches Some(area) ==> area.len() > 0 && stripped(area) == area
        },
{
    if let Some(requirements) = a.requirements {
        stripped_twice(requirements);
    }
    if let Some(area) = a.area {
        stripped_twice(area);
    }
}

/// A search whose full-text query finds nothing is tried once more where the requirements were its
/// only filter, then as a substring, and never a third time. The answer tells of the clients that
/// were found last, and of what was searched for in the same words.
pub proof fn search_retries_once(
    search: FilterSearchView,
    first: Seq<ClientView>,
    second: Result<Seq<ClientView>, Seq<char>>,
)
    requires
        search.full_text,
    ensures
        ({
            let retry = FilterSearchView { full_text: false, ..search };
            let step = searched_step(search, Ok(first));
            &&& step == StepView::Search(retry) <==> first.len() == 0 && search.requirements_only()
            &&& step != StepView::Search(retry) ==> step == StepView::Done(
                search_output(search, first),
            )
            &&& searched_step(retry, second) == StepView::Done(
                search_output(search, rows_or_none(second)),
            )
        }),
{
}

/// The criteria name every filter that is given.
pub proof fn criteria_name_every_filter(search: FilterSearchView)
    ensures
        in_order(
            if_known(search.requirements) + (if search.budget_min == search.budget_max {
                amount_if_known(search.budget_min)
            } else {
                amounts(search.budget_min, search.budget_max)
            }) + if_known(search.area),
            criteria(search),
        ),
{
    let first = requirements_criterion(search.requirements);
    let second = budget_criterion(search.budget_min, search.budget_max);
    let third = area_criterion(search.area);
    let all = first + second + third;
    criterion_names_the_text("looking for '"@, search.requirements, first);
    criterion_names_the_text("area '"@, search.area, third);
    budget_criterion_names_the_ends(search.budget_min, search.budget_max);
    let ends = if search.budget_min == search.budget_max {
        amount_if_known(search.budget_min)
    } else {
        amounts(search.budget_min, search.budget_max)
    };
    joined_concat_names(if_known(search.requirements), first, ends, second);
    joined_concat_names(
        if_known(search.requirements) + ends,
        first + second,
        if_known(search.area),
        third,
    );
}

/// The criterion of a text names the text.
proof fn criterion_names_the_text(
    opening: Seq<char>,
    text: Option<Seq<char>>,
    criterion: Seq<Seq<char>>,
)
    requires
        criterion == (match text {
            Some(t) => seq![opening + t + "'"@],
            None => Seq::empty(),
        }),
    ensures
        in_order(if_known(text), joined(criterion, ", "@)),
{
    if let Some(t) = text {
        let none = Seq::<Seq<char>>::empty();
        in_order_push(none, opening, t, "'"@);
        assert(none.push(t) =~= if_known(text));
    }
}

/// The criterion of a budget names its ends, once where they are the same.
proof fn budget_criterion_names_the_ends(min: Option<i64>, max: Option<i64>)
    ensures
        in_order(
            if min == max {
                amount_if_known(min)
            } else {
                amounts(min, max)
            },
            joined(budget_criterion(min, max), ", "@),
        ),
{
    let none = Seq::<Seq<char>>::empty();
    let empty = Seq::<char>::empty();
    match (min, max) {
        (Some(mn), Some(mx)) => if mn == mx {
            in_order_push(none, "budget around "@, rupees(mn), empty);
            assert(none.push(rupees(mn)) =~= amount_if_known(min));
            assert("budget around "@ + rupees(mn) + empty =~= "budget around "@ + rupees(mn));
        } else {
            in_order_push(none, "budget between "@, rupees(mn), " and "@);
            let before = "budget between "@ + rupees(mn) + " and "@;
            in_order_push(none.push(rupees(mn)), before, rupees(mx), empty);
            assert(none.push(rupees(mn)).push(rupees(mx)) =~= amounts(min, max));
            assert(before + rupees(mx) + empty =~= before + rupees(mx));
        },
        (Some(mn), None) => {
            in_order_push(none, "budget from "@, rupees(mn), empty);
            assert(none.push(rupees(mn)) =~= amounts(min, max));
            assert("budget from "@ + rupees(mn) + empty =~= "budget from "@ + rupees(mn));
        },
        (None, Some(mx)) => {
            in_order_push(none, "budget up to "@, rupees(mx), empty);
            assert(none.push(rupees(mx)) =~= amounts(min, max));
            assert("budget up to "@ + rupees(mx) + empty =~= "budget up to "@ + rupees(mx));
        },
        (None, None) => {},
    }
}

/// What two lists of criteria name, the two lists name together.
proof fn joined_concat_names(
    named: Seq<Seq<char>>,
    parts: Seq<Seq<char>>,
    more_named: Seq<Seq<char>>,
    more_parts: Seq<Seq<char>>,
)
    requires
        in_order(named, joined(parts, ", "@)),
        in_order(more_named, joined(more_parts, ", "@)),
        more_parts.len() <= 1,
    ensures
        in_order(named + more_named, joined(parts + more_parts, ", "@)),
{
    if more_parts.len() == 0 {
        assert(parts + more_parts =~= parts);
        let empty = Seq::<char>::empty();
        in_order_concat(named, joined(parts, ", "@), more_named, empty);
        assert(joined(parts, ", "@) + empty =~= joined(parts, ", "@));
    } else {
        let part = more_parts[0];
        assert(parts + more_parts =~= parts.push(part));
        joined_push(parts, ", "@, part);
        if parts.len() == 0 {
            in_order_concat(named, joined(parts, ", "@), more_named, part);
            assert(joined(parts, ", "@) + part =~= part);
        } else {
            in_order_extends(named, joined(parts, ", "@), ", "@);
            in_order_concat(named, joined(parts, ", "@) + ", "@, more_named, part);
        }
    }
}

/// The answer to a search gives the detail line of every client that was found, and the data hold
/// each of them, in the same order.
pub proof fn search_output_shows_every_client(
    search: FilterSearchView,
    rows: Seq<ClientView>,
    i: int,
)
    requires
        0 <= i < rows.len(),
    ensures
        occurs_in(detail_line(rows[i]), search_output(search, rows).summary),
        search_output(search, rows).data matches Some(JsonView::List(items)) && items.len()
            == rows.len() && items[i] == JsonView::Object(client_members(rows[i])),
{
    let opening = "Found "@ + decimal(rows.len() as int) + " client(s) matching "@ + criteria(
        search,
    ) + ".\n"@;
    detail_lines_show_every_client(opening, rows, i);
}

} // verus!
