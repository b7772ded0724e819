//! Finding clients by name, to tell who they are and to brief the realtor.

use client_desk::client::ClientRow;
use client_desk::clock::Timestamp;
use client_desk::find::{stage_replied, stage_replied_at};
use client_desk::json::Json;
use client_desk::requests::{NameSearch, Purpose, SearchStage};
use client_desk::statement::Bind;
use client_desk::step::{Step, ToolOutput};
use client_desk::tools::Tool;

fn now() -> Timestamp {
    Timestamp::new(1_000_000, 0).unwrap()
}

fn client(id: u128, name: &str, areas: Option<&str>) -> ClientRow {
    ClientRow {
        id,
        name: name.to_string(),
        email: "e@example.com".to_string(),
        phone: None,
        budget_min: None,
        budget_max: None,
        preferred_areas: areas.map(|areas| areas.to_string()),
        status: "active".to_string(),
        notes: None,
        created_at: Timestamp::new(1_000_000 - 86_400, 0).unwrap(),
    }
}

fn searching(step: Step) -> NameSearch {
    match step {
        Step::Find(search) => search,
        _ => panic!("no search"),
    }
}

fn answer(step: Step) -> ToolOutput {
    match step {
        Step::Done(output) => output,
        _ => panic!("no answer"),
    }
}

fn start(tool: Tool) -> NameSearch {
    searching(tool.start(r#"{"name": " Priya "}"#))
}

fn bound(search: &NameSearch) -> String {
    let statement = search.statement();
    assert_eq!(statement.binds.len(), 1);
    match &statement.binds[0] {
        Bind::Text(Some(text)) => text.clone(),
        _ => panic!("no text"),
    }
}

const COLUMNS: &str = "SELECT id, name, email, phone, budget_min, budget_max, preferred_areas, \
                       status, notes, created_at FROM clients";

#[test]
fn find_starts_with_the_sound_of_the_name() {
    let search = start(Tool::GetClientByName);
    assert_eq!(search.name, "Priya");
    assert_eq!(search.purpose, Purpose::Details);
    assert_eq!(search.stage, SearchStage::Phonetic);
    assert_eq!(start(Tool::PrepClient).purpose, Purpose::Briefing);
}

#[test]
fn find_needs_a_name() {
    for tool in [Tool::GetClientByName, Tool::PrepClient] {
        for text in ["{}", r#"{"name": "\n "}"#, r#"{"name": 3}"#, "null"] {
            let output = answer(tool.start(text));
            assert_eq!(output.summary, "Missing required field: name");
            assert!(output.data.is_none());
        }
        let output = answer(tool.start("]"));
        assert_eq!(
            output.summary,
            "Failed to parse arguments: expected value at line 1 column 1"
        );
    }
}

#[test]
fn statements_of_the_stages() {
    let mut search = start(Tool::GetClientByName);
    assert_eq!(
        search.statement().sql,
        format!("{} WHERE soundex(name) = soundex($1) ORDER BY name ASC LIMIT 10", COLUMNS)
    );
    assert_eq!(bound(&search), "Priya");
    search.stage = SearchStage::Trigram;
    assert_eq!(
        search.statement().sql,
        format!(
            "{} WHERE similarity(name, $1) > 0.3 ORDER BY similarity(name, $1) DESC LIMIT 10",
            COLUMNS
        )
    );
    assert_eq!(bound(&search), "Priya");
    search.stage = SearchStage::Substring;
    assert_eq!(
        search.statement().sql,
        format!("{} WHERE name ILIKE $1 ORDER BY name ASC LIMIT 10", COLUMNS)
    );
    assert_eq!(bound(&search), "%Priya%");
}

#[test]
fn stages_follow_one_another() {
    let search = start(Tool::GetClientByName);
    let search = searching(stage_replied_at(search, Ok(vec![]), now()));
    assert_eq!(search.stage, SearchStage::Trigram);
    let search = searching(stage_replied_at(search, Err("no extension".to_string()), now()));
    assert_eq!(search.stage, SearchStage::Substring);
    assert_eq!(search.name, "Priya");
    let output = answer(stage_replied_at(search, Err("no table".to_string()), now()));
    assert_eq!(
        output.summary,
        "No clients found matching 'Priya'. \
         Tried substring, trigram similarity, and phonetic Soundex matching."
    );
    assert!(output.data.is_none());
}

#[test]
fn first_stage_that_finds_answers() {
    let stages = [
        (SearchStage::Phonetic, "phonetic soundex match"),
        (SearchStage::Trigram, "fuzzy trigram match"),
        (SearchStage::Substring, "substring match"),
    ];
    for (stage, method) in stages {
        let mut search = start(Tool::GetClientByName);
        search.stage = stage;
        let rows = vec![client(1, "Pria", None), client(2, "Priya", Some("Bandra"))];
        let output = answer(stage_replied_at(search, Ok(rows), now()));
        assert_eq!(
            output.summary,
            format!(
                "Found 2 client(s) matching 'Priya'. \
                 [internal, do not say aloud: matched via {}]\n{}\n{}",
                method,
                client(1, "Pria", None).detail_line(),
                client(2, "Priya", Some("Bandra")).detail_line()
            )
        );
        let items = match output.data {
            Some(Json::List(items)) => items,
            _ => panic!("no list"),
        };
        assert_eq!(items.len(), 2);
        for (item, name) in items.iter().zip(["Pria", "Priya"]) {
            let members = match item {
                Json::Object(members) => members,
                _ => panic!("no object"),
            };
            assert_eq!(members.len(), 11);
            assert!(matches!(&members[1], (key, Json::Text(t)) if key == "name" && t == name));
            assert!(
                matches!(&members[10], (key, Json::Text(t)) if key == "match_method" && t == method)
            );
        }
    }
}

#[test]
fn briefings_search_alike() {
    let details = start(Tool::GetClientByName);
    let briefing = start(Tool::PrepClient);
    assert_eq!(details.statement().sql, briefing.statement().sql);
    assert_eq!(bound(&details), bound(&briefing));
    let details = searching(stage_replied_at(details, Ok(vec![]), now()));
    let briefing = searching(stage_replied_at(briefing, Ok(vec![]), now()));
    assert_eq!(details.stage, briefing.stage);
    assert_eq!(details.statement().sql, briefing.statement().sql);
}

#[test]
fn prep_briefs_on_the_one_match() {
    let search = start(Tool::PrepClient);
    let output = answer(stage_replied_at(search, Ok(vec![client(5, "Priya", None)]), now()));
    assert_eq!(output.summary, client(5, "Priya", None).briefing(now()));
    assert!(output.summary.starts_with("Prep for Priya — a prospect since yesterday, currently"));
    assert!(matches!(output.data, Some(Json::Object(members)) if members.len() == 10));
}

#[test]
fn prep_asks_which_of_several_is_meant() {
    let search = start(Tool::PrepClient);
    let rows = vec![client(1, "Priya A", Some("Bandra")), client(2, "Priya B", None)];
    let output = answer(stage_replied_at(search, Ok(rows), now()));
    assert_eq!(
        output.summary,
        "Several clients match 'Priya' — ask the realtor which one before briefing: \
         Priya A (Bandra); Priya B (no area on file)."
    );
    assert!(matches!(output.data, Some(Json::List(items)) if items.len() == 2));
}

#[test]
fn prep_finds_nobody() {
    let mut search = start(Tool::PrepClient);
    search.stage = SearchStage::Substring;
    let output = answer(stage_replied_at(search, Ok(vec![]), now()));
    assert_eq!(
        output.summary,
        "No client found matching 'Priya', so there's nothing to brief on. \
         Ask the realtor to confirm the name."
    );
    assert!(output.data.is_none());
}

#[test]
fn the_system_clock_dates_a_briefing() {
    let today = chrono::Utc::now().timestamp();
    let mut row = client(5, "Priya", None);
    row.created_at = Timestamp::new(today - 10 * 86_400 - 3_600, 0).unwrap();
    let output = answer(stage_replied(start(Tool::PrepClient), Ok(vec![row])));
    assert!(output.summary.starts_with("Prep for Priya — a prospect for 10 days, currently"));
}

#[test]
fn the_system_clock_does_not_date_details() {
    let search = start(Tool::GetClientByName);
    let output = answer(stage_replied(search, Ok(vec![client(5, "Priya", None)])));
    assert!(output.summary.starts_with("Found 1 client(s) matching 'Priya'."));
}

#[test]
fn only_briefings_depend_on_time() {
    let later = Timestamp::new(9_000_000, 0).unwrap();
    let rows = || vec![client(1, "Priya A", None), client(2, "Priya B", None)];
    let first = answer(stage_replied_at(start(Tool::PrepClient), Ok(rows()), now()));
    let second = answer(stage_replied_at(start(Tool::PrepClient), Ok(rows()), later));
    assert_eq!(first.summary, second.summary);
    let one = || vec![client(1, "Priya", None)];
    let first = answer(stage_replied_at(start(Tool::PrepClient), Ok(one()), now()));
    let second = answer(stage_replied_at(start(Tool::PrepClient), Ok(one()), later));
    assert_ne!(first.summary, second.summary);
}

#[test]
fn substring_stage_names_special_characters() {
    let cases = [
        (r#"{"name": "_"}"#, "%\\_%"),
        (r#"{"name": "%"}"#, "%\\%%"),
        (r#"{"name": "\\"}"#, "%\\\\%"),
        (r#"{"name": "a_b"}"#, "%a\\_b%"),
        (r#"{"name": "Zoë"}"#, "%Zoë%"),
    ];
    for (text, pattern) in cases {
        let mut search = searching(Tool::GetClientByName.start(text));
        let name = bound(&search);
        search.stage = SearchStage::Trigram;
        assert_eq!(bound(&search), name);
        search.stage = SearchStage::Substring;
        assert_eq!(bound(&search), pattern);
    }
}
