//! The words of the answers: what each of them reads as, part by part.

use crate::add::{added_output, saved_summary, InsertedView};
use crate::client::{
    briefing, budget_phrase, detail_line, id_bracket, prospect_age, rupees, wants, ClientView,
};
use crate::clock::{whole_days, TimestampView};
use crate::find::{found_output, option_text, prep_output};
use crate::ident::id_text;
use crate::list::listed_output;
use crate::requests::{FilterSearchView, NewClientView, SearchStage};
use crate::search::{
    area_criterion, budget_criterion, criteria, requirements_criterion, search_output, searched_step,
};
use crate::server::address_for;
use crate::step::{detail_lines, StepView};
use crate::text::{
    decimal, is_white_space, joined, joined_push, reads, stripped_is_empty, together,
    together_reads,
};
use crate::update::updated_output;
use vstd::prelude::*;

verus! {

/// The words for what is known, or the ones for what is not.
pub open spec fn known_or(text: Option<Seq<char>>, unknown: Seq<char>) -> Seq<char> {
    match text {
        Some(text) => text,
        None => unknown,
    }
}

/// An amount of money is the sign of the rupee and the amount in decimal.
pub proof fn rupees_read(amount: i64)
    ensures
        reads(
            seq!["₹"@, decimal(amount as int)],
            rupees(amount),
        ),
{
    let parts = seq!["₹"@, decimal(amount as int)];
    together_reads(parts);
    reveal_with_fuel(together, 3);
    let line = together(parts, 2);
    assert(rupees(amount) == line);
}

/// A budget is told by the ends that are known: from the one to the other, from the lower one on,
/// or up to the upper one.
pub proof fn budgets_read(
    opening: Seq<char>,
    both: Seq<char>,
    low: i64,
    high: i64,
    unknown: Seq<char>,
)
    ensures
        reads(
            seq![opening, both, rupees(low), " to "@, rupees(high)],
            budget_phrase(opening, both, Some(low), Some(high), unknown),
        ),
        reads(
            seq![opening, "from "@, rupees(low)],
            budget_phrase(opening, both, Some(low), None, unknown),
        ),
        reads(
            seq![opening, "up to "@, rupees(high)],
            budget_phrase(opening, both, None, Some(high), unknown),
        ),
        budget_phrase(opening, both, None, None, unknown) == unknown,
{
    let parts = seq![opening, both, rupees(low), " to "@, rupees(high)];
    together_reads(parts);
    reveal_with_fuel(together, 6);
    let line = together(parts, 5);
    assert(budget_phrase(opening, both, Some(low), Some(high), unknown) == line);
    let parts = seq![opening, "from "@, rupees(low)];
    together_reads(parts);
    reveal_with_fuel(together, 4);
    let line = together(parts, 3);
    assert(budget_phrase(opening, both, Some(low), None, unknown) == line);
    let parts = seq![opening, "up to "@, rupees(high)];
    together_reads(parts);
    reveal_with_fuel(together, 4);
    let line = together(parts, 3);
    assert(budget_phrase(opening, both, None, Some(high), unknown) == line);
}

/// The bracket of an identifier says that it is nothing to be said aloud.
pub proof fn id_brackets_read(id: u128)
    ensures
        reads(
            seq!["[internal, do not say aloud: id "@, id_text(id), "]"@],
            id_bracket(id),
        ),
{
    let parts = seq!["[internal, do not say aloud: id "@, id_text(id), "]"@];
    together_reads(parts);
    reveal_with_fuel(together, 4);
    let line = together(parts, 3);
    assert(id_bracket(id) == line);
}

/// The detail line tells of every field of a client, or that it is not known, and of nothing
/// else.
pub proof fn detail_lines_read(c: ClientView)
    ensures
        ({
            let budget = budget_phrase(
                "a budget "@,
                "of "@,
                c.budget_min,
                c.budget_max,
                "no budget on file"@,
            );
            let areas = match c.preferred_areas {
                Some(areas) => "interested in "@ + areas,
                None => "no preferred areas yet"@,
            };
            let phone = known_or(c.phone, "no phone on file"@);
            let notes = known_or(c.notes, "no notes"@);
            reads(
                seq![
                    c.name,
                    " ("@,
                    c.status,
                    ") — phone "@,
                    phone,
                    ", email "@,
                    c.email,
                    ", "@,
                    budget,
                    ", "@,
                    areas,
                    ". Notes: "@,
                    notes,
                    ". "@,
                    id_bracket(c.id),
                ],
                detail_line(c),
            )
        }),
{
    let budget = budget_phrase(
        "a budget "@,
        "of "@,
        c.budget_min,
        c.budget_max,
        "no budget on file"@,
    );
    let areas = match c.preferred_areas {
        Some(areas) => "interested in "@ + areas,
        None => "no preferred areas yet"@,
    };
    let phone = known_or(c.phone, "no phone on file"@);
    let notes = known_or(c.notes, "no notes"@);
    let parts = seq![
        c.name,
        " ("@,
        c.status,
        ") — phone "@,
        phone,
        ", email "@,
        c.email,
        ", "@,
        budget,
        ", "@,
        areas,
        ". Notes: "@,
        notes,
        ". "@,
        id_bracket(c.id),
    ];
    together_reads(parts);
    reveal_with_fuel(together, 16);
    let line = together(parts, 15);
    assert(detail_line(c) == line);
}

/// The age of a prospect is told in the largest unit that it has two of: as today, since
/// yesterday, in days up to two weeks, in whole weeks up to sixty days, and then in whole months of
/// thirty days.
pub proof fn prospect_age_counts(days: int, n: int)
    ensures
        days <= 0 ==> prospect_age(days) == "added today"@,
        days == 1 ==> prospect_age(days) == "a prospect since yesterday"@,
        2 <= days < 14 ==> reads(
            seq!["a prospect for "@, decimal(days), " days"@],
            prospect_age(days),
        ),
        14 <= days < 60 && 7 * n <= days < 7 * (n + 1) ==> reads(
            seq!["a prospect for about "@, decimal(n), " weeks"@],
            prospect_age(days),
        ),
        60 <= days && 30 * n <= days < 30 * (n + 1) ==> reads(
            seq!["a prospect for about "@, decimal(n), " months"@],
            prospect_age(days),
        ),
{
    if 2 <= days < 14 {
        let parts = seq!["a prospect for "@, decimal(days), " days"@];
        together_reads(parts);
        reveal_with_fuel(together, 4);
        let line = together(parts, 3);
    }
    if 14 <= days < 60 && 7 * n <= days < 7 * (n + 1) {
        assert(days / 7 == n);
        let parts = seq!["a prospect for about "@, decimal(n), " weeks"@];
        together_reads(parts);
        reveal_with_fuel(together, 4);
        let line = together(parts, 3);
    }
    if 60 <= days && 30 * n <= days < 30 * (n + 1) {
        assert(days / 30 == n);
        let parts = seq!["a prospect for about "@, decimal(n), " months"@];
        together_reads(parts);
        reveal_with_fuel(together, 4);
        let line = together(parts, 3);
    }
}

/// The whole days from one time to another fit between them, and one more would not.
pub proof fn whole_days_fit(now: TimestampView, then: TimestampView)
    ensures
        ({
            let day = 86_400_000_000_000int;
            let elapsed = (now.seconds - then.seconds) * 1_000_000_000 + (now.nanos - then.nanos);
            let days = whole_days(now, then);
            &&& elapsed >= 0 ==> days * day <= elapsed < (days + 1) * day
            &&& elapsed < 0 ==> (days - 1) * day < elapsed <= days * day
        }),
{
}

/// What a client wants is what the notes say, unless they say nothing but white space.
pub proof fn wants_are_the_notes(notes: Option<Seq<char>>)
    ensures
        wants(notes) == if notes matches Some(text) && exists|i: int|
            0 <= i < text.len() && !is_white_space(#[trigger] text[i]) {
            notes->0
        } else {
            "no requirements captured yet — worth asking what they're after"@
        },
{
    if let Some(text) = notes {
        stripped_is_empty(text);
    }
}

/// The briefing tells who the client is, how long they have been a prospect, their status, what
/// they want, their budget and areas, and how to reach them, and of nothing else.
pub proof fn briefings_read(c: ClientView, now: TimestampView)
    ensures
        ({
            let age = prospect_age(whole_days(now, c.created_at));
            let budget = budget_phrase(
                "budget "@,
                ""@,
                c.budget_min,
                c.budget_max,
                "no budget on file yet"@,
            );
            let areas = match c.preferred_areas {
                Some(areas) => "prefers "@ + areas,
                None => "no preferred areas noted"@,
            };
            let phone = known_or(c.phone, "no phone on file"@);
            reads(
                seq![
                    "Prep for "@,
                    c.name,
                    " — "@,
                    age,
                    ", currently "@,
                    c.status,
                    ". What they want: "@,
                    wants(c.notes),
                    ". "@,
                    budget,
                    ". "@,
                    areas,
                    ". Reach them on "@,
                    phone,
                    " or "@,
                    c.email,
                    ". "@,
                    id_bracket(c.id),
                ],
                briefing(c, now),
            )
        }),
{
    let age = prospect_age(whole_days(now, c.created_at));
    let budget = budget_phrase(
        "budget "@,
        ""@,
        c.budget_min,
        c.budget_max,
        "no budget on file yet"@,
    );
    let areas = match c.preferred_areas {
        Some(areas) => "prefers "@ + areas,
        None => "no preferred areas noted"@,
    };
    let phone = known_or(c.phone, "no phone on file"@);
    let parts = seq![
        "Prep for "@,
        c.name,
        " — "@,
        age,
        ", currently "@,
        c.status,
        ". What they want: "@,
        wants(c.notes),
        ". "@,
        budget,
        ". "@,
        areas,
        ". Reach them on "@,
        phone,
        " or "@,
        c.email,
        ". "@,
        id_bracket(c.id),
    ];
    together_reads(parts);
    reveal_with_fuel(together, 19);
    let line = together(parts, 18);
    assert(briefing(c, now) == line);
}

/// The summary of a client that was added reads back what was recorded, and nothing else.
pub proof fn saved_summaries_read(c: NewClientView, id: u128)
    ensures
        ({
            let budget = budget_phrase(", budget "@, ""@, c.budget_min, c.budget_max, ""@);
            let areas = match c.preferred_areas {
                Some(areas) => ", interested in "@ + areas,
                None => ""@,
            };
            reads(
                seq![
                    "Saved "@,
                    c.name,
                    " — phone "@,
                    c.phone,
                    ", email "@,
                    c.email,
                    budget,
                    areas,
                    ". Notes: "@,
                    c.notes,
                    ". "@,
                    id_bracket(id),
                ],
                saved_summary(c, id),
            )
        }),
{
    let budget = budget_phrase(", budget "@, ""@, c.budget_min, c.budget_max, ""@);
    let areas = match c.preferred_areas {
        Some(areas) => ", interested in "@ + areas,
        None => ""@,
    };
    let parts = seq![
        "Saved "@,
        c.name,
        " — phone "@,
        c.phone,
        ", email "@,
        c.email,
        budget,
        areas,
        ". Notes: "@,
        c.notes,
        ". "@,
        id_bracket(id),
    ];
    together_reads(parts);
    reveal_with_fuel(together, 13);
    let line = together(parts, 12);
    assert(saved_summary(c, id) == line);
}

/// The answer that tells who was found says how many there are, what was searched for, how they
/// were found, and who they are; or that nobody was found.
pub proof fn found_answers_read(name: Seq<char>, rows: Seq<ClientView>, stage: SearchStage)
    ensures
        rows.len() == 0 ==> reads(
            seq![
                "No clients found matching '"@,
                name,
                "'. Tried substring, trigram similarity, and phonetic Soundex matching."@,
            ],
            found_output(name, rows, stage).summary,
        ),
        rows.len() > 0 && stage == SearchStage::Phonetic ==> reads(
            seq![
                "Found "@,
                decimal(rows.len() as int),
                " client(s) matching '"@,
                name,
                "'. [internal, do not say aloud: matched via "@,
                "phonetic soundex match"@,
                "]\n"@,
                detail_lines(rows),
            ],
            found_output(name, rows, stage).summary,
        ),
        rows.len() > 0 && stage == SearchStage::Trigram ==> reads(
            seq![
                "Found "@,
                decimal(rows.len() as int),
                " client(s) matching '"@,
                name,
                "'. [internal, do not say aloud: matched via "@,
                "fuzzy trigram match"@,
                "]\n"@,
                detail_lines(rows),
            ],
            found_output(name, rows, stage).summary,
        ),
        rows.len() > 0 && stage == SearchStage::Substring ==> reads(
            seq![
                "Found "@,
                decimal(rows.len() as int),
                " client(s) matching '"@,
                name,
                "'. [internal, do not say aloud: matched via "@,
                "substring match"@,
                "]\n"@,
                detail_lines(rows),
            ],
            found_output(name, rows, stage).summary,
        ),
{
    if rows.len() == 0 {
        let parts = seq![
            "No clients found matching '"@,
            name,
            "'. Tried substring, trigram similarity, and phonetic Soundex matching."@,
        ];
        together_reads(parts);
        reveal_with_fuel(together, 4);
        let line = together(parts, 3);
        assert(found_output(name, rows, stage).summary == line);
    }
    if rows.len() > 0 && stage == SearchStage::Phonetic {
        let parts = seq![
            "Found "@,
            decimal(rows.len() as int),
            " client(s) matching '"@,
            name,
            "'. [internal, do not say aloud: matched via "@,
            "phonetic soundex match"@,
            "]\n"@,
            detail_lines(rows),
        ];
        together_reads(parts);
        reveal_with_fuel(together, 9);
        let line = together(parts, 8);
        assert(found_output(name, rows, stage).summary == line);
    }
    if rows.len() > 0 && stage == SearchStage::Trigram {
        let parts = seq![
            "Found "@,
            decimal(rows.len() as int),
            " client(s) matching '"@,
            name,
            "'. [internal, do not say aloud: matched via "@,
            "fuzzy trigram match"@,
            "]\n"@,
            detail_lines(rows),
        ];
        together_reads(parts);
        reveal_with_fuel(together, 9);
        let line = together(parts, 8);
        assert(found_output(name, rows, stage).summary == line);
    }
    if rows.len() > 0 && stage == SearchStage::Substring {
        let parts = seq![
            "Found "@,
            decimal(rows.len() as int),
            " client(s) matching '"@,
            name,
            "'. [internal, do not say aloud: matched via "@,
            "substring match"@,
            "]\n"@,
            detail_lines(rows),
        ];
        together_reads(parts);
        reveal_with_fuel(together, 9);
        let line = together(parts, 8);
        assert(found_output(name, rows, stage).summary == line);
    }
}

/// A client to choose from is told by the name and the preferred areas.
pub proof fn options_read(c: ClientView)
    ensures
        ({
            let areas = known_or(c.preferred_areas, "no area on file"@);
            reads(
                seq![c.name, " ("@, areas, ")"@],
                option_text(c),
            )
        }),
{
    let areas = known_or(c.preferred_areas, "no area on file"@);
    let parts = seq![c.name, " ("@, areas, ")"@];
    together_reads(parts);
    reveal_with_fuel(together, 5);
    let line = together(parts, 4);
    assert(option_text(c) == line);
}

/// The answer that briefs the realtor is the briefing on the one client that was found; of several
/// it asks which is meant, and of none it says so.
pub proof fn prep_answers_read(name: Seq<char>, rows: Seq<ClientView>, now: TimestampView)
    ensures
        rows.len() == 0 ==> reads(
            seq![
                "No client found matching '"@,
                name,
                "', so there's nothing to brief on. Ask the realtor to confirm the name."@,
            ],
            prep_output(name, rows, now).summary,
        ),
        rows.len() == 1 ==> reads(
            seq![briefing(rows[0], now)],
            prep_output(name, rows, now).summary,
        ),
        rows.len() > 1 ==> reads(
            seq![
                "Several clients match '"@,
                name,
                "' — ask the realtor which one before briefing: "@,
                joined(rows.map_values(|row: ClientView| option_text(row)), "; "@),
                "."@,
            ],
            prep_output(name, rows, now).summary,
        ),
{
    if rows.len() == 0 {
        let parts = seq![
            "No client found matching '"@,
            name,
            "', so there's nothing to brief on. Ask the realtor to confirm the name."@,
        ];
        together_reads(parts);
        reveal_with_fuel(together, 4);
        let line = together(parts, 3);
        assert(prep_output(name, rows, now).summary == line);
    }
    if rows.len() == 1 {
        let parts = seq![briefing(rows[0], now)];
        together_reads(parts);
        reveal_with_fuel(together, 2);
        let line = together(parts, 1);
        assert(prep_output(name, rows, now).summary == line);
    }
    if rows.len() > 1 {
        let parts = seq![
            "Several clients match '"@,
            name,
            "' — ask the realtor which one before briefing: "@,
            joined(rows.map_values(|row: ClientView| option_text(row)), "; "@),
            "."@,
        ];
        together_reads(parts);
        reveal_with_fuel(together, 6);
        let line = together(parts, 5);
        assert(prep_output(name, rows, now).summary == line);
    }
}

/// The answer to a search says how many clients match, what was searched for, and who they are; or
/// that nobody matches.
pub proof fn search_answers_read(search: FilterSearchView, rows: Seq<ClientView>)
    ensures
        rows.len() == 0 ==> reads(
            seq!["No clients found matching "@, criteria(search), "."@],
            search_output(search, rows).summary,
        ),
        rows.len() > 0 ==> reads(
            seq![
                "Found "@,
                decimal(rows.len() as int),
                " client(s) matching "@,
                criteria(search),
                ".\n"@,
                detail_lines(rows),
            ],
            search_output(search, rows).summary,
        ),
{
    if rows.len() == 0 {
        let parts = seq!["No clients found matching "@, criteria(search), "."@];
        together_reads(parts);
        reveal_with_fuel(together, 4);
        let line = together(parts, 3);
        assert(search_output(search, rows).summary == line);
    }
    if rows.len() > 0 {
        let parts = seq![
            "Found "@,
            decimal(rows.len() as int),
            " client(s) matching "@,
            criteria(search),
            ".\n"@,
            detail_lines(rows),
        ];
        together_reads(parts);
        reveal_with_fuel(together, 7);
        let line = together(parts, 6);
        assert(search_output(search, rows).summary == line);
    }
}

/// The list says how many active clients there are, and who they are.
pub proof fn list_answers_read(rows: Seq<ClientView>)
    ensures
        rows.len() > 0 ==> reads(
            seq![decimal(rows.len() as int), " active client(s):\n"@, detail_lines(rows)],
            listed_output(Ok(rows)).summary,
        ),
        rows.len() == 0 ==> reads(
            seq!["No active clients found."@],
            listed_output(Ok(rows)).summary,
        ),
{
    if rows.len() > 0 {
        let parts = seq![decimal(rows.len() as int), " active client(s):\n"@, detail_lines(rows)];
        together_reads(parts);
        reveal_with_fuel(together, 4);
        let line = together(parts, 3);
        assert(listed_output(Ok(rows)).summary == line);
    }
    if rows.len() == 0 {
        let parts = seq!["No active clients found."@];
        together_reads(parts);
        reveal_with_fuel(together, 2);
        let line = together(parts, 1);
        assert(listed_output(Ok(rows)).summary == line);
    }
}

/// The answer to an update reads the client back, or names the identifier that no client has.
pub proof fn update_answers_read(id: u128, row: ClientView)
    ensures
        reads(
            seq!["Client updated. "@, detail_line(row)],
            updated_output(id, Ok(Some(row))).summary,
        ),
        reads(
            seq![
                "No client found with ID "@,
                id_text(id),
                ". Use get_client_by_name to look up the correct ID."@,
            ],
            updated_output(id, Ok(None)).summary,
        ),
{
    let parts = seq!["Client updated. "@, detail_line(row)];
    together_reads(parts);
    reveal_with_fuel(together, 3);
    let line = together(parts, 2);
    assert(updated_output(id, Ok(Some(row))).summary == line);
    let parts = seq![
        "No client found with ID "@,
        id_text(id),
        ". Use get_client_by_name to look up the correct ID."@,
    ];
    together_reads(parts);
    reveal_with_fuel(together, 4);
    let line = together(parts, 3);
    assert(updated_output(id, Ok(None)).summary == line);
}

/// An answer to a call that failed says what failed, and how.
pub proof fn failures_read(
    client: NewClientView,
    search: FilterSearchView,
    id: u128,
    error: Seq<char>,
)
    ensures
        reads(seq!["Failed to add client: "@, error], added_output(client, Err(error)).summary),
        reads(seq!["Failed to update client: "@, error], updated_output(id, Err(error)).summary),
        reads(seq!["Database error: "@, error], listed_output(Err(error)).summary),
        search.full_text ==> (searched_step(search, Err(error)) matches StepView::Done(output)
            && output.data is None && reads(seq!["Database error: "@, error], output.summary)),
        !search.full_text ==> searched_step(search, Err(error)) == StepView::Done(
            search_output(search, Seq::empty()),
        ),
{
    let parts = seq!["Failed to add client: "@, error];
    together_reads(parts);
    reveal_with_fuel(together, 3);
    let line = together(parts, 2);
    let parts = seq!["Failed to update client: "@, error];
    together_reads(parts);
    reveal_with_fuel(together, 3);
    let line = together(parts, 2);
    let parts = seq!["Database error: "@, error];
    together_reads(parts);
    reveal_with_fuel(together, 3);
    let line = together(parts, 2);
}

/// The answer to an add that went well is its summary, and carries the data.
pub proof fn add_answers_read(client: NewClientView, row: InsertedView)
    ensures
        added_output(client, Ok(row)).summary == saved_summary(client, row.id),
        added_output(client, Ok(row)).data is Some,
{
}

/// The lines of a list of clients are the detail line of each of them, in their order, each on a
/// line of its own.
pub proof fn lines_grow(rows: Seq<ClientView>, row: ClientView)
    ensures
        detail_lines(seq![row]) == detail_line(row),
        rows.len() > 0 ==> reads(
            seq![detail_lines(rows), "\n"@, detail_line(row)],
            detail_lines(rows.push(row)),
        ),
{
    let lines = rows.map_values(|row: ClientView| detail_line(row));
    assert(seq![row].map_values(|row: ClientView| detail_line(row)) =~= seq![detail_line(row)]);
    assert(rows.push(row).map_values(|row: ClientView| detail_line(row)) =~= lines.push(
        detail_line(row),
    ));
    joined_push(lines, "\n"@, detail_line(row));
    let parts = seq![detail_lines(rows), "\n"@, detail_line(row)];
    together_reads(parts);
    reveal_with_fuel(together, 4);
    let line = together(parts, 3);
}

/// What is searched for is told filter by filter: each one alone in its own words, and several with
/// a comma between each two.
pub proof fn criteria_read(search: FilterSearchView, low: i64, high: i64)
    ensures
        ({
            let requirements = FilterSearchView {
                budget_min: None,
                budget_max: None,
                area: None,
                ..search
            };
            let budget = FilterSearchView { requirements: None, area: None, ..search };
            let area = FilterSearchView {
                requirements: None,
                budget_min: None,
                budget_max: None,
                ..search
            };
            let later = FilterSearchView { requirements: None, ..search };
            let has_budget = search.budget_min is Some || search.budget_max is Some;
            &&& search.requirements matches Some(req) ==> reads(
                seq!["looking for '"@, req, "'"@],
                criteria(requirements),
            )
            &&& search.area matches Some(a) ==> reads(seq!["area '"@, a, "'"@], criteria(area))
            &&& search.budget_min == Some(low) && search.budget_max == Some(high) && low != high
                ==> reads(
                seq!["budget between "@, rupees(low), " and "@, rupees(high)],
                criteria(budget),
            )
            &&& search.budget_min == Some(low) && search.budget_max == Some(low) ==> reads(
                seq!["budget around "@, rupees(low)],
                criteria(budget),
            )
            &&& search.budget_min == Some(low) && search.budget_max is None ==> reads(
                seq!["budget from "@, rupees(low)],
                criteria(budget),
            )
            &&& search.budget_min is None && search.budget_max == Some(high) ==> reads(
                seq!["budget up to "@, rupees(high)],
                criteria(budget),
            )
            &&& search.requirements is Some && (has_budget || search.area is Some) ==> reads(
                seq![criteria(requirements), ", "@, criteria(later)],
                criteria(search),
            )
            &&& search.requirements is None && has_budget && search.area is Some ==> reads(
                seq![criteria(budget), ", "@, criteria(area)],
                criteria(search),
            )
        }),
{
    one_criterion_reads(search, low, high);
    several_criteria_read(search);
}

/// A filter alone is told in its own words.
proof fn one_criterion_reads(search: FilterSearchView, low: i64, high: i64)
    ensures
        ({
            let requirements = FilterSearchView {
                budget_min: None,
                budget_max: None,
                area: None,
                ..search
            };
            let budget = FilterSearchView { requirements: None, area: None, ..search };
            let area = FilterSearchView {
                requirements: None,
                budget_min: None,
                budget_max: None,
                ..search
            };
            &&& search.requirements matches Some(req) ==> reads(
                seq!["looking for '"@, req, "'"@],
                criteria(requirements),
            )
            &&& search.area matches Some(a) ==> reads(seq!["area '"@, a, "'"@], criteria(area))
            &&& search.budget_min == Some(low) && search.budget_max == Some(high) && low != high
                ==> reads(
                seq!["budget between "@, rupees(low), " and "@, rupees(high)],
                criteria(budget),
            )
            &&& search.budget_min == Some(low) && search.budget_max == Some(low) ==> reads(
                seq!["budget around "@, rupees(low)],
                criteria(budget),
            )
            &&& search.budget_min == Some(low) && search.budget_max is None ==> reads(
                seq!["budget from "@, rupees(low)],
                criteria(budget),
            )
            &&& search.budget_min is None && search.budget_max == Some(high) ==> reads(
                seq!["budget up to "@, rupees(high)],
                criteria(budget),
            )
        }),
{
    let none = Seq::<Seq<char>>::empty();
    if let Some(req) = search.requirements {
        let parts = seq!["looking for '"@, req, "'"@];
        together_reads(parts);
        reveal_with_fuel(together, 4);
        let line = together(parts, 3);
        assert(seq![line] + none + none =~= seq![line]);
    }
    if let Some(a) = search.area {
        let parts = seq!["area '"@, a, "'"@];
        together_reads(parts);
        reveal_with_fuel(together, 4);
        let line = together(parts, 3);
        assert(none + none + seq![line] =~= seq![line]);
    }
    if search.budget_min is Some || search.budget_max is Some {
        let part = budget_criterion(search.budget_min, search.budget_max)[0];
        assert(budget_criterion(search.budget_min, search.budget_max) =~= seq![part]);
        assert(none + seq![part] + none =~= seq![part]);
        assert(joined(seq![part], ", "@) == part);
    }
    if search.budget_min == Some(low) && search.budget_max == Some(high) && low != high {
        let parts = seq!["budget between "@, rupees(low), " and "@, rupees(high)];
        together_reads(parts);
        reveal_with_fuel(together, 5);
        let line = together(parts, 4);
    }
    if search.budget_min == Some(low) && search.budget_max == Some(low) {
        let parts = seq!["budget around "@, rupees(low)];
        together_reads(parts);
        reveal_with_fuel(together, 3);
        let line = together(parts, 2);
    }
    if search.budget_min == Some(low) && search.budget_max is None {
        let parts = seq!["budget from "@, rupees(low)];
        together_reads(parts);
        reveal_with_fuel(together, 3);
        let line = together(parts, 2);
    }
    if search.budget_min is None && search.budget_max == Some(high) {
        let parts = seq!["budget up to "@, rupees(high)];
        together_reads(parts);
        reveal_with_fuel(together, 3);
        let line = together(parts, 2);
    }
}

/// Filters together are told with a comma between each two.
proof fn several_criteria_read(search: FilterSearchView)
    ensures
        ({
            let requirements = FilterSearchView {
                budget_min: None,
                budget_max: None,
                area: None,
                ..search
            };
            let budget = FilterSearchView { requirements: None, area: None, ..search };
            let area = FilterSearchView {
                requirements: None,
                budget_min: None,
                budget_max: None,
                ..search
            };
            let later = FilterSearchView { requirements: None, ..search };
            let has_budget = search.budget_min is Some || search.budget_max is Some;
            &&& search.requirements is Some && (has_budget || search.area is Some) ==> reads(
                seq![criteria(requirements), ", "@, criteria(later)],
                criteria(search),
            )
            &&& search.requirements is None && has_budget && search.area is Some ==> reads(
                seq![criteria(budget), ", "@, criteria(area)],
                criteria(search),
            )
        }),
{
    let none = Seq::<Seq<char>>::empty();
    let first = requirements_criterion(search.requirements);
    let second = budget_criterion(search.budget_min, search.budget_max);
    let third = area_criterion(search.area);
    let requirements = FilterSearchView { budget_min: None, budget_max: None, area: None, ..search };
    let budget = FilterSearchView { requirements: None, area: None, ..search };
    let area = FilterSearchView { requirements: None, budget_min: None, budget_max: None, ..search };
    let later = FilterSearchView { requirements: None, ..search };
    let has_budget = search.budget_min is Some || search.budget_max is Some;
    assert(first + none + none =~= first);
    assert(none + second + none =~= second);
    assert(none + none + third =~= third);
    assert(none + second + third =~= second + third);
    if has_budget && search.area is Some {
        assert(second + third =~= second.push(third[0]));
        joined_push(second, ", "@, third[0]);
        assert(criteria(later) == criteria(budget) + ", "@ + criteria(area));
    }
    if has_budget && search.area is None {
        assert(second + third =~= second);
    }
    if !has_budget && search.area is Some {
        assert(second + third =~= third);
    }
    if search.requirements is None && has_budget && search.area is Some {
        let parts = seq![criteria(budget), ", "@, criteria(area)];
        together_reads(parts);
        reveal_with_fuel(together, 4);
        let line = together(parts, 3);
        assert(later == search);
    }
    if search.requirements is Some && (has_budget || search.area is Some) {
        if has_budget && search.area is Some {
            let two = first.push(second[0]);
            assert(first + second =~= two);
            assert(first + second + third =~= two.push(third[0]));
            joined_push(first, ", "@, second[0]);
            joined_push(two, ", "@, third[0]);
        } else if has_budget {
            assert(first + second + third =~= first.push(second[0]));
            joined_push(first, ", "@, second[0]);
        } else {
            assert(first + second + third =~= first.push(third[0]));
            joined_push(first, ", "@, third[0]);
        }
        assert(criteria(search) =~= criteria(requirements) + ", "@ + criteria(later));
        let parts = seq![criteria(requirements), ", "@, criteria(later)];
        together_reads(parts);
        reveal_with_fuel(together, 4);
        let line = together(parts, 3);
    }
}

/// The address to listen on is every interface, at the port that is set, or at 8080.
pub proof fn addresses_read(port: Option<Seq<char>>)
    ensures
        reads(seq!["0.0.0.0:"@, known_or(port, "8080"@)], address_for(port)),
{
    let parts = seq!["0.0.0.0:"@, known_or(port, "8080"@)];
    together_reads(parts);
    reveal_with_fuel(together, 3);
    let line = together(parts, 2);
    assert(address_for(port) == line);
}

} // verus!
