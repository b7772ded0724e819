//! Listing the active clients.

use crate::client::{client_members, detail_line, ClientRow, ClientView};
use crate::json::JsonView;
use crate::step::{
    clients_json, detail_lines, detail_lines_show_every_client, rows_view, summary_only, with_data,
    write_clients_json, write_detail_lines, OutputView, Step, StepView, ToolOutput,
};
use crate::text::{decimal, decimal_text, occurs_in};
use vstd::prelude::*;

verus! {

/// The answer to a call that lists the active clients, once the database has replied.
pub open spec fn listed_output(reply: Result<Seq<ClientView>, Seq<char>>) -> OutputView {
    match reply {
        Ok(rows) => if rows.len() == 0 {
            summary_only("No active clients found."@)
        } else {
            with_data(
                decimal(rows.len() as int) + " active client(s):\n"@ + detail_lines(rows),
                clients_json(rows),
            )
        },
        Err(error) => summary_only("Database error: "@ + error),
    }
}

/// Answers a call that lists the active clients, once the database has replied.
pub fn clients_listed(reply: Result<Vec<ClientRow>, String>) -> (step: Step)
    ensures
        step@ == StepView::Done(listed_output(rows_view(reply))),
{
    match reply {
        Ok(rows) => if rows.len() == 0 {
            Step::Done(ToolOutput::summary_only("No active clients found.".to_string()))
        } else {
            let summary = decimal_text(rows.len() as i128).concat(" active client(s):\n").concat(
                write_detail_lines(&rows).as_str(),
            );
            Step::Done(ToolOutput::with_data(summary, write_clients_json(&rows)))
        },
        Err(error) => Step::Done(
            ToolOutput::summary_only("Database error: ".to_string().concat(error.as_str())),
        ),
    }
}

/// The list of the active clients gives the detail line of every one of them, and the data hold
/// each of them, in the same order.
pub proof fn listed_output_shows_every_client(rows: Seq<ClientView>, i: int)
    requires
        0 <= i < rows.len(),
    ensures
        occurs_in(detail_line(rows[i]), listed_output(Ok(rows)).summary),
        listed_output(Ok(rows)).data matches Some(JsonView::List(items)) && items.len()
            == rows.len() && items[i] == JsonView::Object(client_members(rows[i])),
{
    let opening = decimal(rows.len() as int) + " active client(s):\n"@;
    detail_lines_show_every_client(opening, rows, i);
}

} // verus!
