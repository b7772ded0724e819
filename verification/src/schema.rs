//! What the model is told of the tools: their names, what they are for, and their parameters.

use crate::arguments::{arguments_of, integer_member, text_member, Member};
use crate::json::{Json, JsonView, Members};
use crate::requests::ClientChangesView;
use crate::step::{is_blank, missing_field};
use crate::tools::{all_tools, begin_step, client_tools, tool_name, Tool};
use vstd::prelude::*;

verus! {

/// What `add_client` is for.
pub const ADD_DESCRIPTION: &'static str =
    "Add a new real estate prospect to the CRM database. Required fields: full name, phone \
     number, email address, and notes summarising their property requirements. Optional: \
     budget range in INR and preferred areas/localities. After adding, always read back the \
     recorded details to the user so they can confirm everything was captured correctly.";

/// What `name` is to `add_client`.
pub const ADD_NAME: &'static str =
    "Full name of the client (first and last name)";

/// What `phone` is to `add_client`.
pub const ADD_PHONE: &'static str =
    "Mobile or landline number, including country code if provided";

/// What `email` is to `add_client`.
pub const ADD_EMAIL: &'static str =
    "Email address of the client";

/// What `notes` is to `add_client`.
pub const ADD_NOTES: &'static str =
    "Property requirements, preferences, timeline, or any other relevant notes";

/// What `budget_min` is to `add_client`.
pub const ADD_BUDGET_MIN: &'static str =
    "Minimum budget in INR (e.g. 5000000 for 50 lakhs). Omit if not mentioned.";

/// What `budget_max` is to `add_client`.
pub const ADD_BUDGET_MAX: &'static str =
    "Maximum budget in INR (e.g. 10000000 for 1 crore). Omit if not mentioned.";

/// What `preferred_areas` is to `add_client`.
pub const ADD_PREFERRED_AREAS: &'static str =
    "Comma-separated preferred localities or areas (e.g. 'Bandra, Andheri'). Omit if not \
     mentioned.";

/// What `get_client_by_name` is for.
pub const GET_DESCRIPTION: &'static str =
    "Search for one or more clients by name. Uses three progressive stages so names are \
     found even with voice transcription errors or spelling variants: (1) Soundex phonetic \
     match — primary, finds names that sound alike but are spelled differently; (2) trigram \
     similarity — fallback for typos and partial words; (3) case-insensitive substring match \
     — final fallback for exact partial names. Returns up to 10 matching clients with full \
     details: contact info, budget range, preferred areas, status, and notes. Always \
     summarise clearly who was found and their key details.";

/// What `name` is to `get_client_by_name`.
pub const GET_NAME: &'static str =
    "Name or partial name to search for. Phonetically similar or misspelled names are also \
     found.";

/// What `search_clients` is for.
pub const SEARCH_DESCRIPTION: &'static str =
    "Find a client when you DON'T have their name — search by what they're looking for, by \
     budget, or by area. Use this for requests like 'who was looking around 80 lakhs?', 'I \
     forgot his name, the guy who needs a wheelchair-accessible flat', or 'anyone interested \
     in Bandra?'. All three filters are optional and combine with AND, so you can ask for \
     'someone under 1 crore wanting a villa in Andheri' in one call. Provide at least one \
     filter. Budget mapping: 'up to 1 crore' → budget_max only; 'around 80 lakhs' → set both \
     budget_min and budget_max to 8000000; 'between 50 lakhs and 1 crore' → budget_min \
     5000000 and budget_max 10000000. A client matches a budget query when their own budget \
     range overlaps the range you give. Returns up to 10 matching clients with full details. \
     NOTE: if the realtor gives a NAME, use get_client_by_name instead — this tool is only \
     for nameless searches.";

/// What `requirements` is to `search_clients`.
pub const SEARCH_REQUIREMENTS: &'static str =
    "What the client wants or a distinguishing characteristic, matched against their notes \
     and preferred areas — e.g. 'wheelchair accessible', 'villa with garden', 'near a good \
     school'. Pass the meaningful words; common filler words are ignored automatically.";

/// What `budget_min` is to `search_clients`.
pub const SEARCH_BUDGET_MIN: &'static str =
    "Lower bound of the budget being searched, in INR. See the budget mapping in the tool \
     description. Omit if no lower bound.";

/// What `budget_max` is to `search_clients`.
pub const SEARCH_BUDGET_MAX: &'static str =
    "Upper bound of the budget being searched, in INR. See the budget mapping in the tool \
     description. Omit if no upper bound.";

/// What `area` is to `search_clients`.
pub const SEARCH_AREA: &'static str =
    "Locality or area to match against the client's preferred areas, e.g. 'Bandra'. Omit if \
     not searching by area.";

/// What `prep_client` is for.
pub const PREP_DESCRIPTION: &'static str =
    "Brief the realtor on a client before a showing, call, or meeting. Use this whenever the \
     realtor wants to be prepped or briefed — e.g. 'prep me for Priya', 'I've got a showing \
     with the Sharmas, catch me up', 'what do I need to know before I call Rahul'. Looks the \
     client up by name (same fuzzy matching as get_client_by_name) and returns a briefing: \
     how long they've been a prospect, what they're looking for, their budget, preferred \
     areas, and contact details. Deliver it as a short, natural spoken brief — like a \
     colleague catching the realtor up before they walk in — not as a list of fields.";

/// What `name` is to `prep_client`.
pub const PREP_NAME: &'static str =
    "Name or partial name of the client to be briefed on. Phonetically similar or misspelled \
     names are also found.";

/// What `update_client` is for.
pub const UPDATE_DESCRIPTION: &'static str =
    "Update an existing client's details in the CRM. First locate the client with \
     get_client_by_name to obtain their ID, confirm with the user which client is meant if \
     several match, then call this tool with the ID and ONLY the fields that should change — \
     omitted fields keep their current values. Clients can be marked inactive via the status \
     field, but records are never deleted. After updating, always read back the updated \
     details so the user can confirm.";

/// What `client_id` is to `update_client`.
pub const UPDATE_CLIENT_ID: &'static str =
    "UUID of the client to update, as returned by get_client_by_name or list_clients";

/// What `name` is to `update_client`.
pub const UPDATE_NAME: &'static str =
    "New full name. Omit to keep current.";

/// What `phone` is to `update_client`.
pub const UPDATE_PHONE: &'static str =
    "New phone number. Omit to keep current.";

/// What `email` is to `update_client`.
pub const UPDATE_EMAIL: &'static str =
    "New email address. Omit to keep current.";

/// What `notes` is to `update_client`.
pub const UPDATE_NOTES: &'static str =
    "Replacement notes text. Omit to keep current.";

/// What `budget_min` is to `update_client`.
pub const UPDATE_BUDGET_MIN: &'static str =
    "New minimum budget in INR. Omit to keep current.";

/// What `budget_max` is to `update_client`.
pub const UPDATE_BUDGET_MAX: &'static str =
    "New maximum budget in INR. Omit to keep current.";

/// What `preferred_areas` is to `update_client`.
pub const UPDATE_PREFERRED_AREAS: &'static str =
    "Comma-separated preferred localities. Omit to keep current.";

/// What `status` is to `update_client`.
pub const UPDATE_STATUS: &'static str =
    "Set 'inactive' to hide a client from the active list (records are never deleted). Omit \
     to keep current.";

/// What `list_clients` is for.
pub const LIST_DESCRIPTION: &'static str =
    "Retrieve all active clients from the CRM, ordered by most recently added. Returns up to \
     50 clients, each with full contact details, budget range, preferred areas, and notes. \
     Use this when the user wants an overview of all clients, asks 'who are my clients', or \
     does not have a specific name to search for.";

/// A tool, as the model is told of it: its name, its description, and the JSON schema of its
/// parameters.
pub struct FunctionSchema {
    pub name: String,
    pub description: String,
    pub parameters: Json,
}

/// The mathematical value of what the model is told of a tool.
pub struct SchemaView {
    pub name: Seq<char>,
    pub description: Seq<char>,
    pub parameters: JsonView,
}

impl View for FunctionSchema {
    type V = SchemaView;

    open spec fn view(&self) -> SchemaView {
        SchemaView {
            name: self.name@,
            description: self.description@,
            parameters: self.parameters@,
        }
    }
}

/// A parameter of a tool: its key, the kind of its value, the values that it is limited to (none,
/// where it is not limited), and its description.
pub struct ParamView {
    pub key: Seq<char>,
    pub kind: Seq<char>,
    pub choices: Seq<Seq<char>>,
    pub description: Seq<char>,
}

/// A parameter whose value is a text.
pub open spec fn text_param(key: Seq<char>, description: Seq<char>) -> ParamView {
    ParamView { key, kind: "string"@, choices: Seq::empty(), description }
}

/// A parameter whose value is an integer.
pub open spec fn integer_param(key: Seq<char>, description: Seq<char>) -> ParamView {
    ParamView { key, kind: "integer"@, choices: Seq::empty(), description }
}

/// The parameter whose value is the status of a client.
pub open spec fn status_param(description: Seq<char>) -> ParamView {
    ParamView {
        key: "status"@,
        kind: "string"@,
        choices: seq!["active"@, "inactive"@],
        description,
    }
}

/// The parameters of a tool.
pub open spec fn tool_params(tool: Tool) -> Seq<ParamView> {
    match tool {
        Tool::AddClient => seq![
            text_param("name"@, ADD_NAME@),
            text_param("phone"@, ADD_PHONE@),
            text_param("email"@, ADD_EMAIL@),
            text_param("notes"@, ADD_NOTES@),
            integer_param("budget_min"@, ADD_BUDGET_MIN@),
            integer_param("budget_max"@, ADD_BUDGET_MAX@),
            text_param("preferred_areas"@, ADD_PREFERRED_AREAS@),
        ],
        Tool::GetClientByName => seq![
            text_param("name"@, GET_NAME@),
        ],
        Tool::SearchClients => seq![
            text_param("requirements"@, SEARCH_REQUIREMENTS@),
            integer_param("budget_min"@, SEARCH_BUDGET_MIN@),
            integer_param("budget_max"@, SEARCH_BUDGET_MAX@),
            text_param("area"@, SEARCH_AREA@),
        ],
        Tool::PrepClient => seq![
            text_param("name"@, PREP_NAME@),
        ],
        Tool::UpdateClient => seq![
            text_param("client_id"@, UPDATE_CLIENT_ID@),
            text_param("name"@, UPDATE_NAME@),
            text_param("phone"@, UPDATE_PHONE@),
            text_param("email"@, UPDATE_EMAIL@),
            text_param("notes"@, UPDATE_NOTES@),
            integer_param("budget_min"@, UPDATE_BUDGET_MIN@),
            integer_param("budget_max"@, UPDATE_BUDGET_MAX@),
            text_param("preferred_areas"@, UPDATE_PREFERRED_AREAS@),
            status_param(UPDATE_STATUS@),
        ],
        Tool::ListClients => Seq::empty(),
    }
}

/// The keys of the parameters that a call of a tool has to give.
pub open spec fn tool_required(tool: Tool) -> Seq<Seq<char>> {
    match tool {
        Tool::AddClient => seq!["name"@, "phone"@, "email"@, "notes"@],
        Tool::GetClientByName => seq!["name"@],
        Tool::SearchClients => Seq::empty(),
        Tool::PrepClient => seq!["name"@],
        Tool::UpdateClient => seq!["client_id"@],
        Tool::ListClients => Seq::empty(),
    }
}

/// What a tool is for.
pub open spec fn tool_description(tool: Tool) -> Seq<char> {
    match tool {
        Tool::AddClient => ADD_DESCRIPTION@,
        Tool::GetClientByName => GET_DESCRIPTION@,
        Tool::SearchClients => SEARCH_DESCRIPTION@,
        Tool::PrepClient => PREP_DESCRIPTION@,
        Tool::UpdateClient => UPDATE_DESCRIPTION@,
        Tool::ListClients => LIST_DESCRIPTION@,
    }
}

/// A list of texts as a JSON list.
pub open spec fn texts_json(texts: Seq<Seq<char>>) -> JsonView {
    JsonView::List(texts.map_values(|text: Seq<char>| JsonView::Text(text)))
}

/// The JSON schema of one parameter.
pub open spec fn param_json(param: ParamView) -> JsonView {
    JsonView::Object(
        if param.choices.len() == 0 {
            seq![
                ("type"@, JsonView::Text(param.kind)),
                ("description"@, JsonView::Text(param.description)),
            ]
        } else {
            seq![
                ("type"@, JsonView::Text(param.kind)),
                ("enum"@, texts_json(param.choices)),
                ("description"@, JsonView::Text(param.description)),
            ]
        },
    )
}

/// The members of the object that describes parameters, each under its key.
pub open spec fn properties(params: Seq<ParamView>) -> Seq<(Seq<char>, JsonView)> {
    params.map_values(|param: ParamView| (param.key, param_json(param)))
}

/// The JSON schema of the parameters of a tool.
pub open spec fn parameters_json(params: Seq<ParamView>, required: Seq<Seq<char>>) -> JsonView {
    JsonView::Object(
        seq![
            ("type"@, JsonView::Text("object"@)),
            ("properties"@, JsonView::Object(properties(params))),
            ("required"@, texts_json(required)),
        ],
    )
}

/// What the model is told of a tool.
pub open spec fn tool_schema(tool: Tool) -> SchemaView {
    SchemaView {
        name: tool_name(tool),
        description: tool_description(tool),
        parameters: parameters_json(tool_params(tool), tool_required(tool)),
    }
}

/// A parameter of a tool, as it is put into a schema.
struct Param {
    key: &'static str,
    kind: &'static str,
    choices: Vec<String>,
    description: &'static str,
}

impl View for Param {
    type V = ParamView;

    closed spec fn view(&self) -> ParamView {
        ParamView {
            key: self.key@,
            kind: self.kind@,
            choices: self.choices@.map_values(|choice: String| choice@),
            description: self.description@,
        }
    }
}

impl Param {
    fn text(key: &'static str, description: &'static str) -> (param: Param)
        ensures
            param@ == text_param(key@, description@),
    {
        let param = Param { key, kind: "string", choices: Vec::new(), description };
        assert(param@.choices =~= Seq::empty());
        param
    }

    fn integer(key: &'static str, description: &'static str) -> (param: Param)
        ensures
            param@ == integer_param(key@, description@),
    {
        let param = Param { key, kind: "integer", choices: Vec::new(), description };
        assert(param@.choices =~= Seq::empty());
        param
    }

    fn status(description: &'static str) -> (param: Param)
        ensures
            param@ == status_param(description@),
    {
        let mut choices: Vec<String> = Vec::new();
        choices.push("active".to_string());
        choices.push("inactive".to_string());
        let param = Param { key: "status", kind: "string", choices, description };
        assert(param@.choices =~= seq!["active"@, "inactive"@]);
        param
    }

    fn to_json(&self) -> (json: Json)
        ensures
            json@ == param_json(self@),
    {
        let kind = Members::new().with("type", Json::text(self.kind));
        let members = if self.choices.len() == 0 {
            kind
        } else {
            kind.with("enum", write_texts(&self.choices))
        };
        let members = members.with("description", Json::text(self.description));
        assert(members@ =~= param_json(self@)->Object_0);
        members.object()
    }
}

/// A list of texts as a JSON list.
fn write_texts(texts: &Vec<String>) -> (json: Json)
    ensures
        json@ == texts_json(texts@.map_values(|text: String| text@)),
{
    let mut items: Vec<Json> = Vec::new();
    let mut i: usize = 0;
    while i < texts.len()
        invariant
            i <= texts.len(),
            items@.len() == i,
            forall|k: int| 0 <= k < i ==> #[trigger] items@[k]@ == JsonView::Text(texts@[k]@),
        decreases texts.len() - i,
    {
        items.push(Json::text(texts[i].as_str()));
        i = i + 1;
    }
    assert(items@.map_values(|item: Json| item@) =~= texts@.map_values(
        |text: String| text@,
    ).map_values(|text: Seq<char>| JsonView::Text(text)));
    Json::list(items)
}

/// The parameters of a tool.
fn params_of(tool: Tool) -> (params: Vec<Param>)
    ensures
        params@.map_values(|param: Param| param@) == tool_params(tool),
{
    let mut params: Vec<Param> = Vec::new();
    match tool {
        Tool::AddClient => {
            params.push(Param::text("name", ADD_NAME));
            params.push(Param::text("phone", ADD_PHONE));
            params.push(Param::text("email", ADD_EMAIL));
            params.push(Param::text("notes", ADD_NOTES));
            params.push(Param::integer("budget_min", ADD_BUDGET_MIN));
            params.push(Param::integer("budget_max", ADD_BUDGET_MAX));
            params.push(Param::text("preferred_areas", ADD_PREFERRED_AREAS));
        },
        Tool::GetClientByName => {
            params.push(Param::text("name", GET_NAME));
        },
        Tool::SearchClients => {
            params.push(Param::text("requirements", SEARCH_REQUIREMENTS));
            params.push(Param::integer("budget_min", SEARCH_BUDGET_MIN));
            params.push(Param::integer("budget_max", SEARCH_BUDGET_MAX));
            params.push(Param::text("area", SEARCH_AREA));
        },
        Tool::PrepClient => {
            params.push(Param::text("name", PREP_NAME));
        },
        Tool::UpdateClient => {
            params.push(Param::text("client_id", UPDATE_CLIENT_ID));
            params.push(Param::text("name", UPDATE_NAME));
            params.push(Param::text("phone", UPDATE_PHONE));
            params.push(Param::text("email", UPDATE_EMAIL));
            params.push(Param::text("notes", UPDATE_NOTES));
            params.push(Param::integer("budget_min", UPDATE_BUDGET_MIN));
            params.push(Param::integer("budget_max", UPDATE_BUDGET_MAX));
            params.push(Param::text("preferred_areas", UPDATE_PREFERRED_AREAS));
            params.push(Param::status(UPDATE_STATUS));
        },
        Tool::ListClients => {
        },
    }
    assert(params@.map_values(|param: Param| param@) =~= tool_params(tool));
    params
}

/// The keys of the parameters that a call of a tool has to give.
fn required_of(tool: Tool) -> (required: Vec<String>)
    ensures
        required@.map_values(|key: String| key@) == tool_required(tool),
{
    let mut required: Vec<String> = Vec::new();
    match tool {
        Tool::AddClient => {
            required.push("name".to_string());
            required.push("phone".to_string());
            required.push("email".to_string());
            required.push("notes".to_string());
        },
        Tool::GetClientByName => {
            required.push("name".to_string());
        },
        Tool::SearchClients => {
        },
        Tool::PrepClient => {
            required.push("name".to_string());
        },
        Tool::UpdateClient => {
            required.push("client_id".to_string());
        },
        Tool::ListClients => {
        },
    }
    assert(required@.map_values(|key: String| key@) =~= tool_required(tool));
    required
}

/// What a tool is for.
fn description_of(tool: Tool) -> (description: &'static str)
    ensures
        description@ == tool_description(tool),
{
    match tool {
        Tool::AddClient => ADD_DESCRIPTION,
        Tool::GetClientByName => GET_DESCRIPTION,
        Tool::SearchClients => SEARCH_DESCRIPTION,
        Tool::PrepClient => PREP_DESCRIPTION,
        Tool::UpdateClient => UPDATE_DESCRIPTION,
        Tool::ListClients => LIST_DESCRIPTION,
    }
}

/// The object that describes parameters.
fn write_properties(params: &Vec<Param>) -> (json: Json)
    ensures
        json@ == JsonView::Object(properties(params@.map_values(|param: Param| param@))),
{
    let ghost views = params@.map_values(|param: Param| param@);
    let mut members = Members::new();
    let mut i: usize = 0;
    while i < params.len()
        invariant
            i <= params.len(),
            views == params@.map_values(|param: Param| param@),
            members@ == properties(views.take(i as int)),
        decreases params.len() - i,
    {
        members = members.with(params[i].key, params[i].to_json());
        proof {
            assert(views.take(i + 1) =~= views.take(i as int).push(params@[i as int]@));
            assert(members@ =~= properties(views.take(i + 1)));
        }
        i = i + 1;
    }
    assert(views.take(i as int) =~= views);
    members.object()
}

/// What the model is told of a tool.
pub fn schema_of(tool: Tool) -> (schema: FunctionSchema)
    ensures
        schema@ == tool_schema(tool),
{
    let properties = write_properties(&params_of(tool));
    let required = write_texts(&required_of(tool));
    let members = Members::new().with("type", Json::text("object")).with(
        "properties",
        properties,
    ).with("required", required);
    assert(members@ =~= parameters_json(tool_params(tool), tool_required(tool))->Object_0);
    FunctionSchema {
        name: tool.name().to_string(),
        description: description_of(tool).to_string(),
        parameters: members.object(),
    }
}

/// What the model is told of all the tools.
pub fn client_tool_schemas() -> (schemas: Vec<FunctionSchema>)
    ensures
        schemas@.map_values(|schema: FunctionSchema| schema@) == all_tools().map_values(
            |tool: Tool| tool_schema(tool),
        ),
{
    let tools = client_tools();
    let mut schemas: Vec<FunctionSchema> = Vec::new();
    let mut i: usize = 0;
    while i < tools.len()
        invariant
            i <= tools.len(),
            tools@ == all_tools(),
            schemas@.len() == i,
            forall|k: int| 0 <= k < i ==> #[trigger] schemas@[k]@ == tool_schema(tools@[k]),
        decreases tools.len() - i,
    {
        schemas.push(schema_of(tools[i]));
        i = i + 1;
    }
    assert(schemas@.map_values(|schema: FunctionSchema| schema@) =~= all_tools().map_values(
        |tool: Tool| tool_schema(tool),
    ));
    schemas
}

/// No two tools share a name.
pub proof fn tool_names_are_distinct(tool: Tool, other: Tool)
    ensures
        tool_name(tool) == tool_name(other) <==> tool == other,
{
    reveal_strlit("add_client");
    reveal_strlit("get_client_by_name");
    reveal_strlit("search_clients");
    reveal_strlit("prep_client");
    reveal_strlit("update_client");
    reveal_strlit("list_clients");
    assert("add_client"@.len() == 10 && "get_client_by_name"@.len() == 18);
    assert("search_clients"@.len() == 14 && "prep_client"@.len() == 11);
    assert("update_client"@.len() == 13 && "list_clients"@.len() == 12);
}

/// Every tool is offered.
pub proof fn every_tool_is_offered(tool: Tool)
    ensures
        all_tools().contains(tool),
{
    let index: int = match tool {
        Tool::AddClient => 0,
        Tool::GetClientByName => 1,
        Tool::SearchClients => 2,
        Tool::PrepClient => 3,
        Tool::UpdateClient => 4,
        Tool::ListClients => 5,
    };
    assert(all_tools()[index] == tool);
}

/// Every parameter that a call of a tool has to give is one of the tool's parameters.
pub proof fn required_keys_are_parameters(tool: Tool, i: int)
    requires
        0 <= i < tool_required(tool).len(),
    ensures
        exists|j: int|
            0 <= j < tool_params(tool).len() && #[trigger] tool_params(tool)[j].key
                == tool_required(tool)[i],
{
    assert(tool_params(tool)[i].key == tool_required(tool)[i]);
}

/// A call that does not give a text for a parameter that it has to give is refused, and told of a
/// required parameter that it lacks.
pub proof fn required_parameters_are_required(
    tool: Tool,
    members: Map<Seq<char>, Member>,
    key: Seq<char>,
)
    requires
        tool_required(tool).contains(key),
        text_member(members, key) is None,
    ensures
        exists|missing: Seq<char>|
            tool_required(tool).contains(missing) && begin_step(tool, arguments_of(members))
                == #[trigger] missing_field(missing),
{
    let a = arguments_of(members);
    let required = tool_required(tool);
    match tool {
        Tool::AddClient => {
            assert(required[0] == "name"@ && required[1] == "phone"@);
            assert(required[2] == "email"@ && required[3] == "notes"@);
            let missing = if is_blank(a.name) {
                "name"@
            } else if is_blank(a.phone) {
                "phone"@
            } else if is_blank(a.email) {
                "email"@
            } else {
                "notes"@
            };
            assert(begin_step(tool, a) == missing_field(missing));
        },
        Tool::GetClientByName | Tool::PrepClient => {
            assert(required[0] == "name"@);
            assert(begin_step(tool, a) == missing_field("name"@));
        },
        Tool::UpdateClient => {
            assert(required[0] == "client_id"@);
            assert(begin_step(tool, a) == missing_field("client_id"@));
        },
        _ => {},
    }
}

/// Whether two objects hold the same text and the same integer at a key.
pub open spec fn agree_at(
    members: Map<Seq<char>, Member>,
    others: Map<Seq<char>, Member>,
    key: Seq<char>,
) -> bool {
    text_member(members, key) == text_member(others, key) && integer_member(members, key)
        == integer_member(others, key)
}

/// A tool looks at nothing but its parameters: two calls that agree in these start alike.
pub proof fn tools_read_their_parameters_only(
    tool: Tool,
    members: Map<Seq<char>, Member>,
    others: Map<Seq<char>, Member>,
)
    requires
        forall|i: int|
            0 <= i < tool_params(tool).len() ==> agree_at(
                members,
                others,
                #[trigger] tool_params(tool)[i].key,
            ),
    ensures
        begin_step(tool, arguments_of(members)) == begin_step(tool, arguments_of(others)),
{
    let params = tool_params(tool);
    match tool {
        Tool::AddClient => {
            assert(params[0].key == "name"@ && params[1].key == "phone"@);
            assert(params[2].key == "email"@ && params[3].key == "notes"@);
            assert(params[4].key == "budget_min"@ && params[5].key == "budget_max"@);
            assert(params[6].key == "preferred_areas"@);
        },
        Tool::GetClientByName | Tool::PrepClient => {
            assert(params[0].key == "name"@);
        },
        Tool::SearchClients => {
            assert(params[0].key == "requirements"@ && params[1].key == "budget_min"@);
            assert(params[2].key == "budget_max"@ && params[3].key == "area"@);
        },
        Tool::UpdateClient => {
            assert(params[0].key == "client_id"@ && params[1].key == "name"@);
            assert(params[2].key == "phone"@ && params[3].key == "email"@);
            assert(params[4].key == "notes"@ && params[5].key == "budget_min"@);
            assert(params[6].key == "budget_max"@ && params[7].key == "preferred_areas"@);
            assert(params[8].key == "status"@);
        },
        Tool::ListClients => {},
    }
}

/// The values that the model is told a status can have are the ones that an update accepts.
pub proof fn status_choices_are_the_valid_ones(changes: ClientChangesView, description: Seq<char>)
    ensures
        changes.status matches Some(status) ==> (changes.has_valid_status() <==> status_param(
            description,
        ).choices.contains(status)),
{
    let choices = status_param(description).choices;
    assert(choices[0] == "active"@ && choices[1] == "inactive"@);
}

} // verus!
