//! Listing the active clients.

use client_desk::client::ClientRow;
use client_desk::clock::Timestamp;
use client_desk::json::Json;
use client_desk::list::clients_listed;
use client_desk::statement::list_statement;
use client_desk::step::{Step, ToolOutput};
use client_desk::text::join;
use client_desk::tools::Tool;

fn client(name: &str) -> ClientRow {
    ClientRow {
        id: 1,
        name: name.to_string(),
        email: "e@example.com".to_string(),
        phone: None,
        budget_min: None,
        budget_max: None,
        preferred_areas: None,
        status: "active".to_string(),
        notes: None,
        created_at: Timestamp::new(0, 0).unwrap(),
    }
}

fn answer(step: Step) -> ToolOutput {
    match step {
        Step::Done(output) => output,
        _ => panic!("no answer"),
    }
}

#[test]
fn list_does_not_look_at_the_arguments() {
    for text in ["{}", "", "{", "7", r#"{"name": "a"}"#] {
        assert!(matches!(Tool::ListClients.start(text), Step::List));
    }
}

#[test]
fn statement_of_the_list() {
    let statement = list_statement();
    assert_eq!(
        statement.sql,
        "SELECT id, name, email, phone, budget_min, budget_max, preferred_areas, status, notes, \
         created_at FROM clients WHERE status = 'active' ORDER BY created_at DESC LIMIT 50"
    );
    assert!(statement.binds.is_empty());
}

#[test]
fn list_of_clients() {
    let output = answer(clients_listed(Ok(vec![client("A"), client("B")])));
    assert_eq!(
        output.summary,
        format!(
            "2 active client(s):\n{}\n{}",
            client("A").detail_line(),
            client("B").detail_line()
        )
    );
    let items = match output.data {
        Some(Json::List(items)) => items,
        _ => panic!("no list"),
    };
    assert_eq!(items.len(), 2);
    for (item, name) in items.iter().zip(["A", "B"]) {
        assert!(
            matches!(item, Json::Object(m) if matches!(&m[1].1, Json::Text(t) if t == name))
        );
    }
}

#[test]
fn list_of_nobody() {
    let output = answer(clients_listed(Ok(vec![])));
    assert_eq!(output.summary, "No active clients found.");
    assert!(output.data.is_none());
}

#[test]
fn list_that_fails_says_how() {
    let output = answer(clients_listed(Err("gone".to_string())));
    assert_eq!(output.summary, "Database error: gone");
    assert!(output.data.is_none());
}

#[test]
fn texts_are_joined() {
    let parts = vec!["a".to_string(), "".to_string(), "c".to_string()];
    assert_eq!(join(&parts, "; "), "a; ; c");
    assert_eq!(join(&vec!["a".to_string()], "; "), "a");
    assert_eq!(join(&vec![], "; "), "");
}
