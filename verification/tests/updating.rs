//! Changing a client.

use client_desk::arguments::Arguments;
use client_desk::client::ClientRow;
use client_desk::clock::Timestamp;
use client_desk::json::Json;
use client_desk::requests::ClientChanges;
use client_desk::statement::{Bind, Statement};
use client_desk::step::{Step, ToolOutput};
use client_desk::tools::Tool;
use client_desk::update::{change_client, client_updated};

const ID: &str = "67e55044-10b1-426f-9247-bb680e5fe0c8";
const ID_NUMBER: u128 = 0x67e5_5044_10b1_426f_9247_bb68_0e5f_e0c8;

fn answer(step: Step) -> ToolOutput {
    match step {
        Step::Done(output) => output,
        _ => panic!("no answer"),
    }
}

fn update(members: &str) -> ClientChanges {
    match Tool::UpdateClient.start(&format!("{{\"client_id\": \"{}\"{}}}", ID, members)) {
        Step::Update(changes) => changes,
        _ => panic!("no update"),
    }
}

fn refused(text: &str) -> String {
    let output = answer(Tool::UpdateClient.start(text));
    assert!(output.data.is_none());
    output.summary
}

fn client() -> ClientRow {
    ClientRow {
        id: ID_NUMBER,
        name: "Priya".to_string(),
        email: "p@example.com".to_string(),
        phone: None,
        budget_min: None,
        budget_max: None,
        preferred_areas: None,
        status: "inactive".to_string(),
        notes: None,
        created_at: Timestamp::new(0, 0).unwrap(),
    }
}

fn shown(statement: &Statement) -> Vec<String> {
    statement
        .binds
        .iter()
        .map(|bind| match bind {
            Bind::Id(id) => format!("id {:x}", id),
            Bind::Text(Some(text)) => format!("'{}'", text),
            Bind::Integer(Some(n)) => n.to_string(),
            _ => "null".to_string(),
        })
        .collect()
}

#[test]
fn update_needs_an_identifier() {
    assert_eq!(refused("{}"), "Missing required field: client_id");
    assert_eq!(refused(r#"{"client_id": 7, "name": "a"}"#), "Missing required field: client_id");
    let invalid = "Invalid client_id: not a valid UUID. \
                   Use get_client_by_name first to obtain the client's ID.";
    for id in ["", "priya", "67e55044-10b1-426f-9247-bb680e5fe0c", " 67e55044-10b1-426f-9247-bb680e5fe0c8"] {
        assert_eq!(refused(&format!("{{\"client_id\": \"{}\", \"name\": \"a\"}}", id)), invalid);
    }
    assert!(refused("{").starts_with("Failed to parse arguments: "));
}

#[test]
fn update_reads_the_forms_of_an_identifier() {
    for id in [
        ID.to_string(),
        ID.to_uppercase(),
        ID.replace('-', ""),
        format!("{{{}}}", ID),
        format!("urn:uuid:{}", ID),
    ] {
        let text = format!("{{\"client_id\": \"{}\", \"name\": \"a\"}}", id);
        match Tool::UpdateClient.start(&text) {
            Step::Update(changes) => assert_eq!(changes.id, ID_NUMBER),
            _ => panic!("no update"),
        }
    }
}

#[test]
fn identifiers_of_answers_can_be_updated() {
    for id in [0, 1, ID_NUMBER, u128::MAX, 0xabcd << 64] {
        let mut row = client();
        row.id = id;
        let line = row.detail_line();
        let (_, bracket) = line.split_once("[internal, do not say aloud: id ").unwrap();
        let text = format!(
            "{{\"client_id\": \"{}\", \"name\": \"a\"}}",
            bracket.strip_suffix(']').unwrap()
        );
        match Tool::UpdateClient.start(&text) {
            Step::Update(changes) => assert_eq!(changes.id, id),
            _ => panic!("no update"),
        }
    }
}

#[test]
fn update_accepts_two_statuses() {
    assert_eq!(update(", \"status\": \" inactive \"").status.as_deref(), Some("inactive"));
    assert_eq!(update(", \"status\": \"active\"").status.as_deref(), Some("active"));
    for status in ["Active", "", "deleted"] {
        assert_eq!(
            refused(&format!("{{\"client_id\": \"{}\", \"status\": \"{}\"}}", ID, status)),
            "Invalid status: must be 'active' or 'inactive'."
        );
    }
}

#[test]
fn update_has_to_change_something() {
    let none = "No fields to update: provide at least one of name, phone, email, \
                notes, budget_min, budget_max, preferred_areas, or status.";
    assert_eq!(refused(&format!("{{\"client_id\": \"{}\"}}", ID)), none);
    assert_eq!(
        refused(&format!("{{\"client_id\": \"{}\", \"budget_min\": 1.5, \"area\": \"x\"}}", ID)),
        none
    );
}

#[test]
fn update_takes_each_field_alone() {
    assert_eq!(update(", \"name\": \" a \"").name.as_deref(), Some("a"));
    assert_eq!(update(", \"email\": \"e \"").email.as_deref(), Some("e"));
    assert_eq!(update(", \"phone\": \" 1\"").phone.as_deref(), Some("1"));
    assert_eq!(update(", \"notes\": \"n\\n\"").notes.as_deref(), Some("n"));
    assert_eq!(update(", \"preferred_areas\": \"b \"").preferred_areas.as_deref(), Some("b"));
    assert_eq!(update(", \"budget_min\": 3").budget_min, Some(3));
    assert_eq!(update(", \"budget_max\": -4").budget_max, Some(-4));
}

#[test]
fn update_keeps_a_blank_text() {
    assert_eq!(update(", \"notes\": \"  \"").notes.as_deref(), Some(""));
}

#[test]
fn statement_of_an_update() {
    let statement = update(", \"phone\": \"1\", \"budget_max\": 9").statement();
    assert_eq!(
        statement.sql,
        "UPDATE clients SET name            = COALESCE($2, name), \
         email           = COALESCE($3, email), phone           = COALESCE($4, phone), \
         budget_min      = COALESCE($5, budget_min), budget_max      = COALESCE($6, budget_max), \
         preferred_areas = COALESCE($7, preferred_areas), notes           = COALESCE($8, notes), \
         status          = COALESCE($9, status) WHERE id = $1 RETURNING id, name, email, phone, \
         budget_min, budget_max, preferred_areas, status, notes, created_at"
    );
    assert_eq!(
        shown(&statement),
        vec![
            "id 67e5504410b1426f9247bb680e5fe0c8",
            "null",
            "null",
            "'1'",
            "null",
            "9",
            "null",
            "null",
            "null",
        ]
    );
}

#[test]
fn statement_of_an_update_of_everything() {
    let changes = update(
        ", \"name\": \"n\", \"email\": \"e\", \"phone\": \"p\", \"budget_min\": 1, \
         \"budget_max\": 2, \"preferred_areas\": \"a\", \"notes\": \"t\", \"status\": \"active\"",
    );
    assert_eq!(
        shown(&changes.statement()),
        vec![
            "id 67e5504410b1426f9247bb680e5fe0c8",
            "'n'",
            "'e'",
            "'p'",
            "1",
            "2",
            "'a'",
            "'t'",
            "'active'",
        ]
    );
}

#[test]
fn updated_client_is_read_back() {
    let changes = update(", \"status\": \"inactive\"");
    let output = answer(client_updated(&changes, Ok(Some(client()))));
    assert_eq!(output.summary, format!("Client updated. {}", client().detail_line()));
    assert!(matches!(output.data, Some(Json::Object(members)) if members.len() == 10));
}

#[test]
fn update_of_nobody() {
    let output = answer(client_updated(&update(", \"name\": \"a\""), Ok(None)));
    assert_eq!(
        output.summary,
        "No client found with ID 67e55044-10b1-426f-9247-bb680e5fe0c8. \
         Use get_client_by_name to look up the correct ID."
    );
    assert!(output.data.is_none());
}

#[test]
fn update_that_fails_says_how() {
    let output = answer(client_updated(&update(", \"name\": \"a\""), Err("gone".to_string())));
    assert_eq!(output.summary, "Failed to update client: gone");
    assert!(output.data.is_none());
}

#[test]
fn changes_of_a_known_client() {
    let arguments = Arguments {
        client_id: None,
        name: None,
        phone: Some(" 5 ".to_string()),
        email: None,
        notes: None,
        budget_min: None,
        budget_max: None,
        preferred_areas: None,
        status: None,
        requirements: None,
        area: None,
    };
    match change_client(3, &arguments) {
        Step::Update(changes) => {
            assert_eq!(changes.id, 3);
            assert_eq!(changes.phone.as_deref(), Some("5"));
        },
        _ => panic!("no update"),
    }
}
