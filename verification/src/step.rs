//! The course of a tool call: what it asks the database for next, or what it answers.

use crate::client::{client_members, detail_line, ClientRow, ClientView};
use crate::json::{Json, JsonView};
use crate::requests::{
    ClientChanges, ClientChangesView, FilterSearch, FilterSearchView, NameSearch, NameSearchView,
    NewClient, NewClientView, SearchStage,
};
use crate::text::{
    in_order_occurs, join, joined, joined_shows_every_part, occurs_at_end, occurs_in, occurs_within,
    stripped, text_view,
};
use vstd::prelude::*;

verus! {

/// The answer of a tool: the summary that the model sees, and the data, where there are any, that
/// go past it.
pub struct ToolOutput {
    pub summary: String,
    pub data: Option<Json>,
}

/// The mathematical value of the answer of a tool.
pub struct OutputView {
    pub summary: Seq<char>,
    pub data: Option<JsonView>,
}

impl View for ToolOutput {
    type V = OutputView;

    open spec fn view(&self) -> OutputView {
        OutputView {
            summary: self.summary@,
            data: match self.data {
                Some(data) => Some(data@),
                None => None,
            },
        }
    }
}

/// What a tool call does next: it answers, or asks the database for something.
pub enum Step {
    Done(ToolOutput),
    Insert(NewClient),
    Find(NameSearch),
    Search(FilterSearch),
    Update(ClientChanges),
    List,
}

/// The mathematical value of a step.
pub enum StepView {
    Done(OutputView),
    Insert(NewClientView),
    Find(NameSearchView),
    Search(FilterSearchView),
    Update(ClientChangesView),
    List,
}

impl View for Step {
    type V = StepView;

    open spec fn view(&self) -> StepView {
        match self {
            Step::Done(output) => StepView::Done(output@),
            Step::Insert(client) => StepView::Insert(client@),
            Step::Find(search) => StepView::Find(search@),
            Step::Search(search) => StepView::Search(search@),
            Step::Update(changes) => StepView::Update(changes@),
            Step::List => StepView::List,
        }
    }
}

impl StepView {
    /// The number of statements that the call still runs, at most.
    pub open spec fn statements_left(self) -> nat {
        match self {
            StepView::Done(_) => 0,
            StepView::Find(search) => match search.stage {
                SearchStage::Phonetic => 3,
                SearchStage::Trigram => 2,
                SearchStage::Substring => 1,
            },
            StepView::Search(search) => if search.full_text {
                2
            } else {
                1
            },
            _ => 1,
        }
    }
}

/// An answer without data.
pub open spec fn summary_only(summary: Seq<char>) -> OutputView {
    OutputView { summary, data: None }
}

/// An answer with data.
pub open spec fn with_data(summary: Seq<char>, data: JsonView) -> OutputView {
    OutputView { summary, data: Some(data) }
}

impl ToolOutput {
    /// An answer without data.
    pub fn summary_only(summary: String) -> (output: ToolOutput)
        ensures
            output@ == summary_only(summary@),
    {
        ToolOutput { summary, data: None }
    }

    /// An answer with data.
    pub fn with_data(summary: String, data: Json) -> (output: ToolOutput)
        ensures
            output@ == with_data(summary@, data@),
    {
        ToolOutput { summary, data: Some(data) }
    }
}

/// The answer to a call that lacks a field.
pub open spec fn missing_field(field: Seq<char>) -> StepView {
    StepView::Done(summary_only("Missing required field: "@ + field))
}

/// Answers a call that lacks a field.
pub fn miss_field(field: &str) -> (step: Step)
    ensures
        step@ == missing_field(field@),
{
    Step::Done(
        ToolOutput::summary_only("Missing required field: ".to_string().concat(field)),
    )
}

/// Whether a text is missing, or holds nothing but white space.
pub open spec fn is_blank(text: Option<Seq<char>>) -> bool {
    match text {
        Some(t) => stripped(t).len() == 0,
        None => true,
    }
}

/// A text without the white space at its two ends, where there is one.
pub open spec fn stripped_if_some(text: Option<Seq<char>>) -> Option<Seq<char>> {
    match text {
        Some(t) => Some(stripped(t)),
        None => None,
    }
}

/// A text without the white space at its two ends, where that leaves anything.
pub open spec fn stripped_unless_blank(text: Option<Seq<char>>) -> Option<Seq<char>> {
    if is_blank(text) {
        None
    } else {
        stripped_if_some(text)
    }
}

/// The text without the white space at its two ends, where there is one.
pub fn strip_if_some(text: &Option<String>) -> (short: Option<String>)
    ensures
        text_view(short) == stripped_if_some(text_view(*text)),
{
    match text {
        Some(t) => Some(t.as_str().trim().to_string()),
        None => None,
    }
}

/// The text without the white space at its two ends, where that leaves anything.
pub fn strip_unless_blank(text: &Option<String>) -> (short: Option<String>)
    ensures
        text_view(short) == stripped_unless_blank(text_view(*text)),
{
    match text {
        Some(t) => {
            let short = t.as_str().trim();
            if short.is_empty() {
                None
            } else {
                Some(short.to_string())
            }
        },
        None => None,
    }
}

/// The clients that a statement found, or why it failed.
pub open spec fn rows_view(rows: Result<Vec<ClientRow>, String>) -> Result<
    Seq<ClientView>,
    Seq<char>,
> {
    match rows {
        Ok(rows) => Ok(clients_view(rows@)),
        Err(error) => Err(error@),
    }
}

/// The clients that a statement found: none where it failed.
pub open spec fn rows_or_none(reply: Result<Seq<ClientView>, Seq<char>>) -> Seq<ClientView> {
    match reply {
        Ok(rows) => rows,
        Err(_) => Seq::empty(),
    }
}

/// The values of a list of clients.
pub open spec fn clients_view(rows: Seq<ClientRow>) -> Seq<ClientView> {
    rows.map_values(|row: ClientRow| row@)
}

/// The lines that tell of each of a list of clients.
pub open spec fn detail_lines(rows: Seq<ClientView>) -> Seq<char> {
    joined(rows.map_values(|row: ClientView| detail_line(row)), "\n"@)
}

/// A list of clients as a JSON list.
pub open spec fn clients_json(rows: Seq<ClientView>) -> JsonView {
    JsonView::List(rows.map_values(|row: ClientView| JsonView::Object(client_members(row))))
}

/// The lines that tell of each of a list of clients.
pub fn write_detail_lines(rows: &Vec<ClientRow>) -> (text: String)
    ensures
        text@ == detail_lines(clients_view(rows@)),
{
    let mut lines: Vec<String> = Vec::new();
    let mut i: usize = 0;
    while i < rows.len()
        invariant
            i <= rows.len(),
            lines@.len() == i,
            forall|k: int| 0 <= k < i ==> #[trigger] lines@[k]@ == detail_line(rows@[k]@),
        decreases rows.len() - i,
    {
        lines.push(rows[i].detail_line());
        i = i + 1;
    }
    assert(lines@.map_values(|line: String| line@) =~= clients_view(rows@).map_values(
        |row: ClientView| detail_line(row),
    ));
    join(&lines, "\n")
}

/// The clients as a JSON list.
pub fn write_clients_json(rows: &Vec<ClientRow>) -> (json: Json)
    ensures
        json@ == clients_json(clients_view(rows@)),
{
    let mut items: Vec<Json> = Vec::new();
    let mut i: usize = 0;
    while i < rows.len()
        invariant
            i <= rows.len(),
            items@.len() == i,
            forall|k: int|
                0 <= k < i ==> #[trigger] items@[k]@ == JsonView::Object(
                    client_members(rows@[k]@),
                ),
        decreases rows.len() - i,
    {
        items.push(rows[i].to_json());
        i = i + 1;
    }
    assert(items@.map_values(|item: Json| item@) =~= clients_view(rows@).map_values(
        |row: ClientView| JsonView::Object(client_members(row)),
    ));
    Json::list(items)
}

/// A summary that ends in the detail lines of a list of clients gives that of every one of them.
pub proof fn detail_lines_show_every_client(opening: Seq<char>, rows: Seq<ClientView>, i: int)
    requires
        0 <= i < rows.len(),
    ensures
        occurs_in(detail_line(rows[i]), opening + detail_lines(rows)),
{
    let lines = rows.map_values(|row: ClientView| detail_line(row));
    joined_shows_every_part(lines, "\n"@);
    in_order_occurs(lines, joined(lines, "\n"@), i);
    occurs_at_end(opening, joined(lines, "\n"@));
    occurs_within(detail_line(rows[i]), joined(lines, "\n"@), opening + joined(lines, "\n"@));
}

} // verus!
