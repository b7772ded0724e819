//! What the model is told of the tools.

use client_desk::json::Json;
use client_desk::schema::{client_tool_schemas, schema_of, FunctionSchema};
use client_desk::step::Step;
use client_desk::tools::{client_tools, Tool};

fn text(json: &Json) -> &str {
    match json {
        Json::Text(text) => text,
        _ => panic!("no text"),
    }
}

fn object(json: &Json) -> &Vec<(String, Json)> {
    match json {
        Json::Object(members) => members,
        _ => panic!("no object"),
    }
}

fn list(json: &Json) -> Vec<&str> {
    match json {
        Json::List(items) => items.iter().map(text).collect(),
        _ => panic!("no list"),
    }
}

fn keys(json: &Json) -> Vec<&str> {
    object(json).iter().map(|(key, _)| key.as_str()).collect()
}

fn required(schema: &FunctionSchema) -> Vec<&str> {
    list(&object(&schema.parameters)[2].1)
}

/// The parameters of a schema: the key, the kind and the description of each, after a test that
/// it holds nothing else.
fn parameters(schema: &FunctionSchema) -> Vec<(&str, &str, &str)> {
    assert_eq!(keys(&schema.parameters), vec!["type", "properties", "required"]);
    assert_eq!(text(&object(&schema.parameters)[0].1), "object");
    object(&object(&schema.parameters)[1].1)
        .iter()
        .map(|(key, value)| {
            if key == "status" {
                assert_eq!(keys(value), vec!["type", "enum", "description"]);
                assert_eq!(list(&object(value)[1].1), vec!["active", "inactive"]);
                (key.as_str(), text(&object(value)[0].1), text(&object(value)[2].1))
            } else {
                assert_eq!(keys(value), vec!["type", "description"]);
                (key.as_str(), text(&object(value)[0].1), text(&object(value)[1].1))
            }
        })
        .collect()
}

#[test]
fn schemas_of_all_tools_in_order() {
    let names: Vec<String> = client_tool_schemas().into_iter().map(|schema| schema.name).collect();
    assert_eq!(
        names,
        vec![
            "add_client",
            "get_client_by_name",
            "search_clients",
            "prep_client",
            "update_client",
            "list_clients",
        ]
    );
    let tools: Vec<&str> = client_tools().into_iter().map(|tool| tool.name()).collect();
    assert_eq!(names, tools);
}

#[test]
fn schema_of_add_client() {
    let schema = schema_of(Tool::AddClient);
    assert_eq!(schema.name, "add_client");
    assert_eq!(
        schema.description,
        "Add a new real estate prospect to the CRM database. Required fields: full name, phone \
         number, email address, and notes summarising their property requirements. Optional: \
         budget range in INR and preferred areas/localities. After adding, always read back the \
         recorded details to the user so they can confirm everything was captured correctly."
    );
    assert_eq!(
        parameters(&schema),
        vec![
            (
                "name",
                "string",
                "Full name of the client (first and last name)",
            ),
            (
                "phone",
                "string",
                "Mobile or landline number, including country code if provided",
            ),
            (
                "email",
                "string",
                "Email address of the client",
            ),
            (
                "notes",
                "string",
                "Property requirements, preferences, timeline, or any other relevant notes",
            ),
            (
                "budget_min",
                "integer",
                "Minimum budget in INR (e.g. 5000000 for 50 lakhs). Omit if not mentioned.",
            ),
            (
                "budget_max",
                "integer",
                "Maximum budget in INR (e.g. 10000000 for 1 crore). Omit if not mentioned.",
            ),
            (
                "preferred_areas",
                "string",
                "Comma-separated preferred localities or areas (e.g. 'Bandra, Andheri'). Omit if \
                 not mentioned.",
            ),
        ]
    );
    assert_eq!(required(&schema), vec!["name", "phone", "email", "notes"]);
}

#[test]
fn schema_of_get_client_by_name() {
    let schema = schema_of(Tool::GetClientByName);
    assert_eq!(schema.name, "get_client_by_name");
    assert_eq!(
        schema.description,
        "Search for one or more clients by name. Uses three progressive stages so names are \
         found even with voice transcription errors or spelling variants: (1) Soundex phonetic \
         match — primary, finds names that sound alike but are spelled differently; (2) trigram \
         similarity — fallback for typos and partial words; (3) case-insensitive substring match \
         — final fallback for exact partial names. Returns up to 10 matching clients with full \
         details: contact info, budget range, preferred areas, status, and notes. Always \
         summarise clearly who was found and their key details."
    );
    assert_eq!(
        parameters(&schema),
        vec![
            (
                "name",
                "string",
                "Name or partial name to search for. Phonetically similar or misspelled names \
                 are also found.",
            ),
        ]
    );
    assert_eq!(required(&schema), vec!["name"]);
}

#[test]
fn schema_of_search_clients() {
    let schema = schema_of(Tool::SearchClients);
    assert_eq!(schema.name, "search_clients");
    assert_eq!(
        schema.description,
        "Find a client when you DON'T have their name — search by what they're looking for, by \
         budget, or by area. Use this for requests like 'who was looking around 80 lakhs?', 'I \
         forgot his name, the guy who needs a wheelchair-accessible flat', or 'anyone interested \
         in Bandra?'. All three filters are optional and combine with AND, so you can ask for \
         'someone under 1 crore wanting a villa in Andheri' in one call. Provide at least one \
         filter. Budget mapping: 'up to 1 crore' → budget_max only; 'around 80 lakhs' → set both \
         budget_min and budget_max to 8000000; 'between 50 lakhs and 1 crore' → budget_min \
         5000000 and budget_max 10000000. A client matches a budget query when their own budget \
         range overlaps the range you give. Returns up to 10 matching clients with full details. \
         NOTE: if the realtor gives a NAME, use get_client_by_name instead — this tool is only \
         for nameless searches."
    );
    assert_eq!(
        parameters(&schema),
        vec![
            (
                "requirements",
                "string",
                "What the client wants or a distinguishing characteristic, matched against their \
                 notes and preferred areas — e.g. 'wheelchair accessible', 'villa with garden', \
                 'near a good school'. Pass the meaningful words; common filler words are \
                 ignored automatically.",
            ),
            (
                "budget_min",
                "integer",
                "Lower bound of the budget being searched, in INR. See the budget mapping in the \
                 tool description. Omit if no lower bound.",
            ),
            (
                "budget_max",
                "integer",
                "Upper bound of the budget being searched, in INR. See the budget mapping in the \
                 tool description. Omit if no upper bound.",
            ),
            (
                "area",
                "string",
                "Locality or area to match against the client's preferred areas, e.g. 'Bandra'. \
                 Omit if not searching by area.",
            ),
        ]
    );
    assert!(required(&schema).is_empty());
}

#[test]
fn schema_of_prep_client() {
    let schema = schema_of(Tool::PrepClient);
    assert_eq!(schema.name, "prep_client");
    assert_eq!(
        schema.description,
        "Brief the realtor on a client before a showing, call, or meeting. Use this whenever the \
         realtor wants to be prepped or briefed — e.g. 'prep me for Priya', 'I've got a showing \
         with the Sharmas, catch me up', 'what do I need to know before I call Rahul'. Looks the \
         client up by name (same fuzzy matching as get_client_by_name) and returns a briefing: \
         how long they've been a prospect, what they're looking for, their budget, preferred \
         areas, and contact details. Deliver it as a short, natural spoken brief — like a \
         colleague catching the realtor up before they walk in — not as a list of fields."
    );
    assert_eq!(
        parameters(&schema),
        vec![
            (
                "name",
                "string",
                "Name or partial name of the client to be briefed on. Phonetically similar or \
                 misspelled names are also found.",
            ),
        ]
    );
    assert_eq!(required(&schema), vec!["name"]);
}

#[test]
fn schema_of_update_client() {
    let schema = schema_of(Tool::UpdateClient);
    assert_eq!(schema.name, "update_client");
    assert_eq!(
        schema.description,
        "Update an existing client's details in the CRM. First locate the client with \
         get_client_by_name to obtain their ID, confirm with the user which client is meant if \
         several match, then call this tool with the ID and ONLY the fields that should change — \
         omitted fields keep their current values. Clients can be marked inactive via the status \
         field, but records are never deleted. After updating, always read back the updated \
         details so the user can confirm."
    );
    assert_eq!(
        parameters(&schema),
        vec![
            (
                "client_id",
                "string",
                "UUID of the client to update, as returned by get_client_by_name or list_clients",
            ),
            (
                "name",
                "string",
                "New full name. Omit to keep current.",
            ),
            (
                "phone",
                "string",
                "New phone number. Omit to keep current.",
            ),
            (
                "email",
                "string",
                "New email address. Omit to keep current.",
            ),
            (
                "notes",
                "string",
                "Replacement notes text. Omit to keep current.",
            ),
            (
                "budget_min",
                "integer",
                "New minimum budget in INR. Omit to keep current.",
            ),
            (
                "budget_max",
                "integer",
                "New maximum budget in INR. Omit to keep current.",
            ),
            (
                "preferred_areas",
                "string",
                "Comma-separated preferred localities. Omit to keep current.",
            ),
            (
                "status",
                "string",
                "Set 'inactive' to hide a client from the active list (records are never \
                 deleted). Omit to keep current.",
            ),
        ]
    );
    assert_eq!(required(&schema), vec!["client_id"]);
}

#[test]
fn schema_of_list_clients() {
    let schema = schema_of(Tool::ListClients);
    assert_eq!(schema.name, "list_clients");
    assert_eq!(
        schema.description,
        "Retrieve all active clients from the CRM, ordered by most recently added. Returns up to \
         50 clients, each with full contact details, budget range, preferred areas, and notes. \
         Use this when the user wants an overview of all clients, asks 'who are my clients', or \
         does not have a specific name to search for."
    );
    assert!(parameters(&schema).is_empty());
    assert!(required(&schema).is_empty());
}

#[test]
fn calls_without_a_required_parameter_are_refused() {
    for tool in client_tools() {
        let schema = schema_of(tool);
        for missing in required(&schema) {
            let members: Vec<String> = required(&schema)
                .into_iter()
                .filter(|key| *key != missing)
                .map(|key| format!("\"{}\": \"x\"", key))
                .collect();
            match tool.start(&format!("{{{}}}", members.join(", "))) {
                Step::Done(output) => {
                    assert_eq!(output.summary, format!("Missing required field: {}", missing));
                },
                _ => panic!("not refused"),
            }
        }
    }
}

#[test]
fn tools_read_their_parameters_only() {
    let text = r#"{"client_id": "x", "phone": "1", "area": "Bandra", "status": "gone",
        "requirements": "villa", "budget_min": 1}"#;
    match Tool::GetClientByName.start(text) {
        Step::Done(output) => assert_eq!(output.summary, "Missing required field: name"),
        _ => panic!("not refused"),
    }
    match Tool::SearchClients.start(r#"{"name": "Priya", "preferred_areas": "Bandra"}"#) {
        Step::Done(output) => assert!(output.summary.starts_with("No search filters given.")),
        _ => panic!("not refused"),
    }
}
