//! Finding clients by name: to tell who they are, or to brief the realtor on one of them.

use crate::arguments::{Arguments, ArgumentsView};
use crate::client::{briefing, client_members, detail_line, text_or, ClientRow, ClientView};
use crate::clock::{utc_now, Timestamp, TimestampView};
use crate::json::{Json, JsonView};
use crate::requests::{NameSearch, NameSearchView, Purpose, SearchStage};
use crate::statement::name_statement;
use crate::step::{
    clients_json, clients_view, detail_lines, detail_lines_show_every_client, is_blank, miss_field,
    missing_field, rows_or_none, rows_view, strip_unless_blank, summary_only, with_data,
    write_clients_json, write_detail_lines, OutputView, Step, StepView, ToolOutput,
};
use crate::text::{
    decimal, decimal_text, in_order_occurs, join, joined, joined_shows_every_part, occurs_in,
    occurs_within, stripped,
};
use vstd::prelude::*;

verus! {

/// How a call that finds clients by name starts: with the first stage of the search, unless the
/// name is absent or blank.
pub open spec fn find_step(purpose: Purpose, a: ArgumentsView) -> StepView {
    if is_blank(a.name) {
        missing_field("name"@)
    } else {
        StepView::Find(
            NameSearchView { purpose, stage: SearchStage::Phonetic, name: stripped(a.name->0) },
        )
    }
}

/// Starts a call that finds clients by name.
pub fn find_client(purpose: Purpose, arguments: &Arguments) -> (step: Step)
    ensures
        step@ == find_step(purpose, arguments@),
{
    match strip_unless_blank(&arguments.name) {
        Some(name) => Step::Find(NameSearch { purpose, stage: SearchStage::Phonetic, name }),
        None => miss_field("name"),
    }
}

/// How a client was found, where a stage found any.
pub open spec fn match_method(stage: SearchStage) -> Seq<char> {
    match stage {
        SearchStage::Phonetic => "phonetic soundex match"@,
        SearchStage::Trigram => "fuzzy trigram match"@,
        SearchStage::Substring => "substring match"@,
    }
}

/// The stage that is tried after one that found nothing.
pub open spec fn stage_after(stage: SearchStage) -> Option<SearchStage> {
    match stage {
        SearchStage::Phonetic => Some(SearchStage::Trigram),
        SearchStage::Trigram => Some(SearchStage::Substring),
        SearchStage::Substring => None,
    }
}

/// The members of the JSON object of a client that was found by name.
pub open spec fn found_members(c: ClientView, stage: SearchStage) -> Seq<(Seq<char>, JsonView)> {
    client_members(c).push(("match_method"@, JsonView::Text(match_method(stage))))
}

/// The answer that tells who was found.
pub open spec fn found_output(
    name: Seq<char>,
    rows: Seq<ClientView>,
    stage: SearchStage,
) -> OutputView {
    if rows.len() == 0 {
        summary_only(
            "No clients found matching '"@ + name
                + "'. Tried substring, trigram similarity, and phonetic Soundex matching."@,
        )
    } else {
        with_data(
            "Found "@ + decimal(rows.len() as int) + " client(s) matching '"@ + name
                + "'. [internal, do not say aloud: matched via "@ + match_method(stage) + "]\n"@
                + detail_lines(rows),
            JsonView::List(
                rows.map_values(|row: ClientView| JsonView::Object(found_members(row, stage))),
            ),
        )
    }
}

/// A client as one of several to choose from.
pub open spec fn option_text(c: ClientView) -> Seq<char> {
    c.name + " ("@ + c.preferred_areas.unwrap_or("no area on file"@) + ")"@
}

/// The answer that briefs the realtor: on the client, where one was found; where several were, it
/// asks which of them is meant.
pub open spec fn prep_output(
    name: Seq<char>,
    rows: Seq<ClientView>,
    now: TimestampView,
) -> OutputView {
    if rows.len() == 0 {
        summary_only(
            "No client found matching '"@ + name
                + "', so there's nothing to brief on. Ask the realtor to confirm the name."@,
        )
    } else if rows.len() == 1 {
        with_data(briefing(rows[0], now), JsonView::Object(client_members(rows[0])))
    } else {
        with_data(
            "Several clients match '"@ + name
                + "' — ask the realtor which one before briefing: "@ + joined(
                rows.map_values(|row: ClientView| option_text(row)),
                "; "@,
            ) + "."@,
            clients_json(rows),
        )
    }
}

/// The answer to a call that finds clients by name, from the clients that were found.
pub open spec fn find_output(
    search: NameSearchView,
    rows: Seq<ClientView>,
    now: TimestampView,
) -> OutputView {
    match search.purpose {
        Purpose::Details => found_output(search.name, rows, search.stage),
        Purpose::Briefing => prep_output(search.name, rows, now),
    }
}

/// What follows a stage of the search: the answer, where the stage found any clients or was the
/// last one, and else the next stage. A stage that fails counts as one that finds nothing.
pub open spec fn found_step(
    search: NameSearchView,
    reply: Result<Seq<ClientView>, Seq<char>>,
    now: TimestampView,
) -> StepView {
    let rows = rows_or_none(reply);
    match stage_after(search.stage) {
        Some(stage) if rows.len() == 0 => StepView::Find(NameSearchView { stage, ..search }),
        _ => StepView::Done(find_output(search, rows, now)),
    }
}

/// How a client was found.
fn match_method_text(stage: SearchStage) -> (method: &'static str)
    ensures
        method@ == match_method(stage),
{
    match stage {
        SearchStage::Phonetic => "phonetic soundex match",
        SearchStage::Trigram => "fuzzy trigram match",
        SearchStage::Substring => "substring match",
    }
}

/// Answers with who was found.
pub fn clients_found(name: &str, rows: &Vec<ClientRow>, stage: SearchStage) -> (output: ToolOutput)
    ensures
        output@ == found_output(name@, clients_view(rows@), stage),
{
    if rows.len() == 0 {
        return ToolOutput::summary_only(
            "No clients found matching '".to_string().concat(name).concat(
                "'. Tried substring, trigram similarity, and phonetic Soundex matching.",
            ),
        );
    }
    let method = match_method_text(stage);
    let summary = "Found ".to_string().concat(decimal_text(rows.len() as i128).as_str()).concat(
        " client(s) matching '",
    ).concat(name).concat("'. [internal, do not say aloud: matched via ").concat(method).concat(
        "]\n",
    ).concat(write_detail_lines(rows).as_str());
    let mut items: Vec<Json> = Vec::new();
    let mut i: usize = 0;
    while i < rows.len()
        invariant
            i <= rows.len(),
            items@.len() == i,
            method@ == match_method(stage),
            forall|k: int|
                0 <= k < i ==> #[trigger] items@[k]@ == JsonView::Object(
                    found_members(rows@[k]@, stage),
                ),
        decreases rows.len() - i,
    {
        items.push(rows[i].members().with("match_method", Json::text(method)).object());
        i = i + 1;
    }
    assert(items@.map_values(|item: Json| item@) =~= clients_view(rows@).map_values(
        |row: ClientView| JsonView::Object(found_members(row, stage)),
    ));
    ToolOutput::with_data(summary, Json::list(items))
}

/// Answers with the briefing, or asks which client is meant, as of `now`.
pub fn client_prepped(name: &str, rows: &Vec<ClientRow>, now: Timestamp) -> (output: ToolOutput)
    ensures
        output@ == prep_output(name@, clients_view(rows@), now@),
{
    if rows.len() == 0 {
        return ToolOutput::summary_only(
            "No client found matching '".to_string().concat(name).concat(
                "', so there's nothing to brief on. Ask the realtor to confirm the name.",
            ),
        );
    }
    if rows.len() == 1 {
        assert(clients_view(rows@)[0] == rows@[0]@);
        return ToolOutput::with_data(rows[0].briefing(now), rows[0].to_json());
    }
    let mut options: Vec<String> = Vec::new();
    let mut i: usize = 0;
    while i < rows.len()
        invariant
            i <= rows.len(),
            options@.len() == i,
            forall|k: int| 0 <= k < i ==> #[trigger] options@[k]@ == option_text(rows@[k]@),
        decreases rows.len() - i,
    {
        let area = text_or(&rows[i].preferred_areas, "no area on file");
        options.push(rows[i].name.clone().concat(" (").concat(area).concat(")"));
        i = i + 1;
    }
    assert(options@.map_values(|option: String| option@) =~= clients_view(rows@).map_values(
        |row: ClientView| option_text(row),
    ));
    let summary = "Several clients match '".to_string().concat(name).concat(
        "' — ask the realtor which one before briefing: ",
    ).concat(join(&options, "; ").as_str()).concat(".");
    ToolOutput::with_data(summary, write_clients_json(rows))
}

/// Goes on after a stage of the search, as of `now`.
pub fn stage_replied_at(
    search: NameSearch,
    reply: Result<Vec<ClientRow>, String>,
    now: Timestamp,
) -> (step: Step)
    ensures
        step@ == found_step(search@, rows_view(reply), now@),
{
    let ghost found = rows_view(reply);
    let rows = match reply {
        Ok(rows) => rows,
        Err(_) => {
            let none: Vec<ClientRow> = Vec::new();
            assert(clients_view(none@) =~= Seq::empty());
            none
        },
    };
    let purpose = search.purpose;
    if rows.len() == 0 {
        match search.stage {
            SearchStage::Phonetic => {
                return Step::Find(
                    NameSearch { purpose, stage: SearchStage::Trigram, name: search.name },
                );
            },
            SearchStage::Trigram => {
                return Step::Find(
                    NameSearch { purpose, stage: SearchStage::Substring, name: search.name },
                );
            },
            SearchStage::Substring => {},
        }
    }
    match purpose {
        Purpose::Details => Step::Done(clients_found(search.name.as_str(), &rows, search.stage)),
        Purpose::Briefing => Step::Done(client_prepped(search.name.as_str(), &rows, now)),
    }
}

/// Whether the answer to this reply is a briefing.
fn is_briefing(search: &NameSearch, reply: &Result<Vec<ClientRow>, String>) -> (briefs: bool)
    ensures
        briefs == (search@.purpose == Purpose::Briefing && rows_or_none(rows_view(*reply)).len()
            == 1),
{
    match reply {
        Ok(rows) => search.purpose == Purpose::Briefing && rows.len() == 1,
        Err(_) => false,
    }
}

/// Goes on after a stage of the search, as of the time that the system clock shows. The clock is
/// read only for a briefing: no other answer depends on the time.
pub fn stage_replied(search: NameSearch, reply: Result<Vec<ClientRow>, String>) -> (step: Step)
    ensures
        exists|now: TimestampView|
            now.in_range() && step@ == #[trigger] found_step(search@, rows_view(reply), now),
{
    let now = if is_briefing(&search, &reply) {
        utc_now()
    } else {
        Timestamp::epoch()
    };
    let step = stage_replied_at(search, reply, now);
    assert(step@ == found_step(search@, rows_view(reply), now@));
    step
}

/// The course of a search by name, from what the database replies at each stage, as of `now`. It
/// stops short where the replies run out.
pub open spec fn find_course(
    search: NameSearchView,
    replies: Seq<Result<Seq<ClientView>, Seq<char>>>,
    now: TimestampView,
) -> StepView
    decreases replies.len(),
{
    if replies.len() == 0 {
        StepView::Find(search)
    } else {
        match found_step(search, replies[0], now) {
            StepView::Find(next) => find_course(next, replies.drop_first(), now),
            step => step,
        }
    }
}

/// A search by name answers with the clients of the first stage that finds any, and says which
/// stage that was: names that sound alike come before similar ones, and those before the ones
/// that hold the text. A stage that fails is passed over. Where no stage finds any, the answer is
/// that there are none.
pub proof fn first_stage_that_finds_answers(
    purpose: Purpose,
    name: Seq<char>,
    phonetic: Result<Seq<ClientView>, Seq<char>>,
    trigram: Result<Seq<ClientView>, Seq<char>>,
    substring: Result<Seq<ClientView>, Seq<char>>,
    now: TimestampView,
)
    ensures
        ({
            let start = NameSearchView { purpose, stage: SearchStage::Phonetic, name };
            let (stage, rows) = if rows_or_none(phonetic).len() > 0 {
                (SearchStage::Phonetic, rows_or_none(phonetic))
            } else if rows_or_none(trigram).len() > 0 {
                (SearchStage::Trigram, rows_or_none(trigram))
            } else {
                (SearchStage::Substring, rows_or_none(substring))
            };
            find_course(start, seq![phonetic, trigram, substring], now) == StepView::Done(
                find_output(NameSearchView { stage, ..start }, rows, now),
            )
        }),
{
    let start = NameSearchView { purpose, stage: SearchStage::Phonetic, name };
    let second = NameSearchView { stage: SearchStage::Trigram, ..start };
    let third = NameSearchView { stage: SearchStage::Substring, ..start };
    let replies = seq![phonetic, trigram, substring];
    assert(replies.drop_first() =~= seq![trigram, substring]);
    assert(seq![trigram, substring].drop_first() =~= seq![substring]);
    assert(find_course(third, seq![substring], now) == found_step(third, substring, now));
    assert(rows_or_none(trigram).len() == 0 ==> find_course(second, seq![trigram, substring], now)
        == find_course(third, seq![substring], now));
    assert(rows_or_none(trigram).len() > 0 ==> find_course(second, seq![trigram, substring], now)
        == found_step(second, trigram, now));
}

/// A stage that finds clients ends the search: with the answer that tells who they are, or with the
/// one that briefs the realtor, as the tool wants it, on all that it found. A stage that finds none
/// or fails is followed by the next one, for the same name and the same purpose; behind the last
/// stage, the answer is that there are none.
pub proof fn stages_end_as_the_tool_wants(
    search: NameSearchView,
    reply: Result<Seq<ClientView>, Seq<char>>,
    now: TimestampView,
)
    ensures
        ({
            let step = found_step(search, reply, now);
            let rows = match reply {
                Ok(rows) => rows,
                Err(_) => Seq::empty(),
            };
            let ends = rows.len() > 0 || search.stage == SearchStage::Substring;
            &&& ends && search.purpose == Purpose::Details ==> step == StepView::Done(
                found_output(search.name, rows, search.stage),
            )
            &&& ends && search.purpose == Purpose::Briefing ==> step == StepView::Done(
                prep_output(search.name, rows, now),
            )
            &&& !ends ==> (step matches StepView::Find(next) && next.name == search.name
                && next.purpose == search.purpose && next.stage == (if search.stage
                == SearchStage::Phonetic {
                SearchStage::Trigram
            } else {
                SearchStage::Substring
            }))
        }),
{
}

/// To brief the realtor, clients are looked up as they are to tell who they are: by the same
/// statements, in the same stages.
pub proof fn briefings_search_alike(
    search: NameSearchView,
    purpose: Purpose,
    reply: Result<Seq<ClientView>, Seq<char>>,
    now: TimestampView,
)
    ensures
        ({
            let other = NameSearchView { purpose, ..search };
            &&& name_statement(other) == name_statement(search)
            &&& found_step(search, reply, now) matches StepView::Find(next) ==> found_step(
                other,
                reply,
                now,
            ) == StepView::Find(NameSearchView { purpose, ..next })
            &&& found_step(search, reply, now) is Done <==> found_step(other, reply, now) is Done
        }),
{
}

/// Only a briefing depends on the time: every other step after a stage is the same at any time.
pub proof fn only_briefings_depend_on_time(
    search: NameSearchView,
    reply: Result<Seq<ClientView>, Seq<char>>,
    now: TimestampView,
    later: TimestampView,
)
    requires
        search.purpose == Purpose::Details || rows_or_none(reply).len() != 1,
    ensures
        found_step(search, reply, now) == found_step(search, reply, later),
{
}

/// Of several clients that match a name, none is briefed on: every one of them is offered, and the
/// data hold them all.
pub proof fn several_matches_are_all_offered(
    name: Seq<char>,
    rows: Seq<ClientView>,
    now: TimestampView,
    i: int,
)
    requires
        rows.len() > 1,
        0 <= i < rows.len(),
    ensures
        occurs_in(option_text(rows[i]), prep_output(name, rows, now).summary),
        prep_output(name, rows, now).data == Some(clients_json(rows)),
        forall|later: TimestampView|
            prep_output(name, rows, now) == #[trigger] prep_output(name, rows, later),
{
    let options = rows.map_values(|row: ClientView| option_text(row));
    joined_shows_every_part(options, "; "@);
    in_order_occurs(options, joined(options, "; "@), i);
    let opening = "Several clients match '"@ + name
        + "' — ask the realtor which one before briefing: "@;
    assert(occurs_in(joined(options, "; "@), opening + joined(options, "; "@) + "."@));
    occurs_within(
        option_text(rows[i]),
        joined(options, "; "@),
        opening + joined(options, "; "@) + "."@,
    );
}

/// The answer to a search by name gives the detail line of every client that was found, and the
/// data hold each of them, in the same order, with the way in which it was found.
pub proof fn found_output_shows_every_client(
    name: Seq<char>,
    rows: Seq<ClientView>,
    stage: SearchStage,
    i: int,
)
    requires
        0 <= i < rows.len(),
    ensures
        occurs_in(detail_line(rows[i]), found_output(name, rows, stage).summary),
        found_output(name, rows, stage).data matches Some(JsonView::List(items)) && items.len()
            == rows.len() && items[i] == JsonView::Object(
            client_members(rows[i]).push(("match_method"@, JsonView::Text(match_method(stage)))),
        ),
{
    let opening = "Found "@ + decimal(rows.len() as int) + " client(s) matching '"@ + name
        + "'. [internal, do not say aloud: matched via "@ + match_method(stage) + "]\n"@;
    detail_lines_show_every_client(opening, rows, i);
}

} // verus!
