//! Adding a client: from the text of the call to the answer.

use client_desk::add::{client_added, Inserted};
use client_desk::clock::Timestamp;
use client_desk::json::Json;
use client_desk::requests::NewClient;
use client_desk::statement::{Bind, Statement};
use client_desk::step::{Step, ToolOutput};
use client_desk::tools::Tool;

fn answer(step: Step) -> ToolOutput {
    match step {
        Step::Done(output) => output,
        _ => panic!("no answer"),
    }
}

fn refused(text: &str) -> String {
    let output = answer(Tool::AddClient.start(text));
    assert!(output.data.is_none());
    output.summary
}

fn insert(text: &str) -> NewClient {
    match Tool::AddClient.start(text) {
        Step::Insert(client) => client,
        _ => panic!("no insert"),
    }
}

fn text_bind(statement: &Statement, i: usize) -> Option<&str> {
    match &statement.binds[i] {
        Bind::Text(text) => text.as_deref(),
        _ => panic!("no text"),
    }
}

fn integer_bind(statement: &Statement, i: usize) -> Option<i64> {
    match &statement.binds[i] {
        Bind::Integer(n) => *n,
        _ => panic!("no number"),
    }
}

const FULL: &str = r#"{"name": "  Priya Shah ", "phone": "\t98200", "email": "p@example.com\n",
    "notes": " sea view, \"quiet\" ", "budget_min": 5000000, "budget_max": 10000000,
    "preferred_areas": " Bandra "}"#;

const PLAIN: &str = r#"{"name": "Rahul", "phone": "1", "email": "r@e", "notes": "villa"}"#;

#[test]
fn add_trims_every_text() {
    let client = insert(FULL);
    assert_eq!(client.name, "Priya Shah");
    assert_eq!(client.phone, "98200");
    assert_eq!(client.email, "p@example.com");
    assert_eq!(client.notes, "sea view, \"quiet\"");
    assert_eq!(client.budget_min, Some(5_000_000));
    assert_eq!(client.budget_max, Some(10_000_000));
    assert_eq!(client.preferred_areas.as_deref(), Some("Bandra"));
}

#[test]
fn add_trims_unicode_white_space() {
    let client = insert(
        "{\"name\": \"\u{a0}\u{2003}Ana\u{3000}\", \"phone\": \"1\u{2028}\", \
         \"email\": \"\u{85}e\u{1680}\", \"notes\": \"a\u{200b}\"}",
    );
    assert_eq!(client.name, "Ana");
    assert_eq!(client.phone, "1");
    assert_eq!(client.email, "e");
    assert_eq!(client.notes, "a\u{200b}");
}

#[test]
fn add_asks_for_the_first_field_that_is_missing() {
    assert_eq!(refused("{}"), "Missing required field: name");
    assert_eq!(refused(r#"{"name": "a"}"#), "Missing required field: phone");
    assert_eq!(refused(r#"{"name": "a", "phone": "1"}"#), "Missing required field: email");
    assert_eq!(
        refused(r#"{"name": "a", "phone": "1", "email": "e"}"#),
        "Missing required field: notes"
    );
    assert_eq!(
        refused(r#"{"phone": "1", "email": "e", "notes": "n"}"#),
        "Missing required field: name"
    );
}

#[test]
fn add_takes_a_blank_field_for_a_missing_one() {
    assert_eq!(refused(r#"{"name": "  "}"#), "Missing required field: name");
    assert_eq!(refused(r#"{"name": "a", "phone": ""}"#), "Missing required field: phone");
    assert_eq!(
        refused(r#"{"name": "a", "phone": "1", "email": "　"}"#),
        "Missing required field: email"
    );
}

#[test]
fn add_takes_a_field_of_another_kind_for_a_missing_one() {
    assert_eq!(refused(r#"{"name": 7}"#), "Missing required field: name");
    assert_eq!(refused(r#"{"name": null}"#), "Missing required field: name");
    assert_eq!(refused("[1, 2]"), "Missing required field: name");
    assert_eq!(refused("7"), "Missing required field: name");
    let client = insert(
        r#"{"name": "a", "phone": "1", "email": "e", "notes": "n",
            "budget_min": "5", "budget_max": 1.5, "preferred_areas": 3}"#,
    );
    assert_eq!(client.budget_min, None);
    assert_eq!(client.budget_max, None);
    assert_eq!(client.preferred_areas, None);
}

#[test]
fn add_reads_the_numbers_that_fit() {
    let client = insert(
        r#"{"name": "a", "phone": "1", "email": "e", "notes": "n",
            "budget_min": -9223372036854775808, "budget_max": 9223372036854775808}"#,
    );
    assert_eq!(client.budget_min, Some(i64::MIN));
    assert_eq!(client.budget_max, None);
}

#[test]
fn add_keeps_blank_areas_as_an_empty_text() {
    let client = insert(
        r#"{"name": "a", "phone": "1", "email": "e", "notes": "n", "preferred_areas": " "}"#,
    );
    assert_eq!(client.preferred_areas.as_deref(), Some(""));
}

#[test]
fn add_needs_json() {
    assert_eq!(
        refused("{"),
        "Failed to parse arguments: EOF while parsing an object at line 1 column 1"
    );
    assert_eq!(
        refused("name"),
        "Failed to parse arguments: expected ident at line 1 column 2"
    );
}

#[test]
fn insert_binds_every_field() {
    let statement = insert(FULL).statement();
    assert_eq!(
        statement.sql,
        "INSERT INTO clients (name, email, phone, budget_min, budget_max, preferred_areas, \
         notes, status) VALUES ($1, $2, $3, $4, $5, $6, $7, 'active') RETURNING id, created_at"
    );
    assert_eq!(statement.binds.len(), 7);
    assert_eq!(text_bind(&statement, 0), Some("Priya Shah"));
    assert_eq!(text_bind(&statement, 1), Some("p@example.com"));
    assert_eq!(text_bind(&statement, 2), Some("98200"));
    assert_eq!(integer_bind(&statement, 3), Some(5_000_000));
    assert_eq!(integer_bind(&statement, 4), Some(10_000_000));
    assert_eq!(text_bind(&statement, 5), Some("Bandra"));
    assert_eq!(text_bind(&statement, 6), Some("sea view, \"quiet\""));
}

#[test]
fn insert_binds_null_for_what_is_not_given() {
    let statement = insert(PLAIN).statement();
    assert_eq!(integer_bind(&statement, 3), None);
    assert_eq!(integer_bind(&statement, 4), None);
    assert_eq!(text_bind(&statement, 5), None);
}

fn row() -> Inserted {
    Inserted { id: 0xff, created_at: Timestamp::new(1_709_618_828, 0).unwrap() }
}

#[test]
fn added_client_is_read_back() {
    let output = answer(client_added(&insert(FULL), Ok(row())));
    assert_eq!(
        output.summary,
        "Saved Priya Shah — phone 98200, email p@example.com, budget ₹5000000 to ₹10000000, \
         interested in Bandra. Notes: sea view, \"quiet\". \
         [internal, do not say aloud: id 00000000-0000-0000-0000-0000000000ff]"
    );
    let members = match output.data {
        Some(Json::Object(members)) => members,
        _ => panic!("no object"),
    };
    let keys: Vec<&str> = members.iter().map(|(key, _)| key.as_str()).collect();
    assert_eq!(
        keys,
        vec![
            "id",
            "name",
            "email",
            "phone",
            "budget_min",
            "budget_max",
            "preferred_areas",
            "notes",
            "created_at",
        ]
    );
    assert!(matches!(&members[0].1, Json::Text(t) if t == "00000000-0000-0000-0000-0000000000ff"));
    assert!(matches!(&members[3].1, Json::Text(t) if t == "98200"));
    assert!(matches!(&members[4].1, Json::Integer(5_000_000)));
    assert!(matches!(&members[8].1, Json::Text(t) if t == "2024-03-05 06:07:08 UTC"));
}

#[test]
fn added_client_without_budget_and_areas() {
    let output = answer(client_added(&insert(PLAIN), Ok(row())));
    assert_eq!(
        output.summary,
        "Saved Rahul — phone 1, email r@e. Notes: villa. \
         [internal, do not say aloud: id 00000000-0000-0000-0000-0000000000ff]"
    );
    let mut client = insert(PLAIN);
    client.budget_min = Some(3);
    let output = answer(client_added(&client, Ok(row())));
    assert!(output.summary.starts_with("Saved Rahul — phone 1, email r@e, budget from ₹3. Notes"));
    client.budget_min = None;
    client.budget_max = Some(4);
    let output = answer(client_added(&client, Ok(row())));
    assert!(output.summary.starts_with("Saved Rahul — phone 1, email r@e, budget up to ₹4. Notes"));
}

#[test]
fn add_that_fails_says_how() {
    let output = answer(client_added(&insert(PLAIN), Err("pool timed out".to_string())));
    assert_eq!(output.summary, "Failed to add client: pool timed out");
    assert!(output.data.is_none());
}
