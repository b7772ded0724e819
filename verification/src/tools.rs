//! The tools that the model can call.

use crate::add::{add_client, add_step};
use crate::arguments::{arguments_of, parsed_members, Arguments, ArgumentsView};
use crate::find::{find_client, find_step};
use crate::requests::Purpose;
use crate::search::{search_clients, search_step};
use crate::step::{summary_only, Step, StepView, ToolOutput};
use crate::update::{update_client, update_step};
use vstd::prelude::*;

verus! {

/// A tool that the model can call.
#[derive(Clone, Copy, Debug, PartialEq, Eq, Structural)]
pub enum Tool {
    AddClient,
    GetClientByName,
    SearchClients,
    PrepClient,
    UpdateClient,
    ListClients,
}

/// All tools, in the order in which they are offered.
pub open spec fn all_tools() -> Seq<Tool> {
    seq![
        Tool::AddClient,
        Tool::GetClientByName,
        Tool::SearchClients,
        Tool::PrepClient,
        Tool::UpdateClient,
        Tool::ListClients,
    ]
}

/// The name that the model calls a tool by.
pub open spec fn tool_name(tool: Tool) -> Seq<char> {
    match tool {
        Tool::AddClient => "add_client"@,
        Tool::GetClientByName => "get_client_by_name"@,
        Tool::SearchClients => "search_clients"@,
        Tool::PrepClient => "prep_client"@,
        Tool::UpdateClient => "update_client"@,
        Tool::ListClients => "list_clients"@,
    }
}

/// All tools, in the order in which they are offered.
pub fn client_tools() -> (tools: Vec<Tool>)
    ensures
        tools@ == all_tools(),
{
    let mut tools: Vec<Tool> = Vec::new();
    tools.push(Tool::AddClient);
    tools.push(Tool::GetClientByName);
    tools.push(Tool::SearchClients);
    tools.push(Tool::PrepClient);
    tools.push(Tool::UpdateClient);
    tools.push(Tool::ListClients);
    tools
}

/// How a call with these arguments starts.
pub open spec fn begin_step(tool: Tool, a: ArgumentsView) -> StepView {
    match tool {
        Tool::AddClient => add_step(a),
        Tool::GetClientByName => find_step(Purpose::Details, a),
        Tool::SearchClients => search_step(a),
        Tool::PrepClient => find_step(Purpose::Briefing, a),
        Tool::UpdateClient => update_step(a),
        Tool::ListClients => StepView::List,
    }
}

/// How a call with this text starts: the tool that lists clients does not look at it, and every
/// other tool needs JSON.
pub open spec fn start_step(tool: Tool, text: Seq<char>) -> StepView {
    match parsed_members(text) {
        Ok(members) => begin_step(tool, arguments_of(members)),
        Err(message) => if tool == Tool::ListClients {
            StepView::List
        } else {
            StepView::Done(summary_only("Failed to parse arguments: "@ + message))
        },
    }
}

impl Tool {
    /// The name that the model calls the tool by.
    pub fn name(self) -> (name: &'static str)
        ensures
            name@ == tool_name(self),
    {
        match self {
            Tool::AddClient => "add_client",
            Tool::GetClientByName => "get_client_by_name",
            Tool::SearchClients => "search_clients",
            Tool::PrepClient => "prep_client",
            Tool::UpdateClient => "update_client",
            Tool::ListClients => "list_clients",
        }
    }

    /// Starts a call with these arguments.
    pub fn begin(self, arguments: &Arguments) -> (step: Step)
        ensures
            step@ == begin_step(self, arguments@),
    {
        match self {
            Tool::AddClient => add_client(arguments),
            Tool::GetClientByName => find_client(Purpose::Details, arguments),
            Tool::SearchClients => search_clients(arguments),
            Tool::PrepClient => find_client(Purpose::Briefing, arguments),
            Tool::UpdateClient => update_client(arguments),
            Tool::ListClients => Step::List,
        }
    }

    /// Starts a call with the text that the model sends.
    pub fn start(self, text: &str) -> (step: Step)
        ensures
            step@ == start_step(self, text@),
    {
        if self == Tool::ListClients {
            return Step::List;
        }
        match Arguments::read(text) {
            Ok(arguments) => self.begin(&arguments),
            Err(message) => Step::Done(
                ToolOutput::summary_only(
                    "Failed to parse arguments: ".to_string().concat(message.as_str()),
                ),
            ),
        }
    }
}

} // verus!
