//! Finding clients without a name.

use client_desk::client::ClientRow;
use client_desk::clock::Timestamp;
use client_desk::json::Json;
use client_desk::requests::FilterSearch;
use client_desk::search::{search_replied, write_criteria};
use client_desk::statement::{build_search_query, can_bind_search, Bind, Statement};
use client_desk::step::{Step, ToolOutput};
use client_desk::tools::Tool;

const OPENING: &str = "SELECT id, name, email, phone, budget_min, budget_max, preferred_areas, \
                       status, notes, created_at FROM clients WHERE 1=1";

const CLOSING: &str = " ORDER BY created_at DESC LIMIT 10";

const FULL_TEXT: &str = " AND to_tsvector('english', coalesce(notes,'') || ' ' || \
                         coalesce(preferred_areas,'')) @@ websearch_to_tsquery('english', $1)";

fn client(name: &str) -> ClientRow {
    ClientRow {
        id: 9,
        name: name.to_string(),
        email: "e@example.com".to_string(),
        phone: None,
        budget_min: None,
        budget_max: None,
        preferred_areas: None,
        status: "active".to_string(),
        notes: None,
        created_at: Timestamp::new(0, 0).unwrap(),
    }
}

fn search(text: &str) -> FilterSearch {
    match Tool::SearchClients.start(text) {
        Step::Search(search) => search,
        _ => panic!("no search"),
    }
}

fn answer(step: Step) -> ToolOutput {
    match step {
        Step::Done(output) => output,
        _ => panic!("no answer"),
    }
}

fn built(search: &FilterSearch) -> Statement {
    assert!(can_bind_search(search));
    build_search_query(search)
}

fn binds(statement: &Statement) -> Vec<String> {
    statement
        .binds
        .iter()
        .map(|bind| match bind {
            Bind::Text(Some(text)) => text.clone(),
            Bind::Integer(Some(n)) => n.to_string(),
            _ => panic!("no value"),
        })
        .collect()
}

#[test]
fn search_needs_a_filter() {
    let none = "No search filters given. Ask the realtor what to go on — what the \
                client's after, roughly what budget, or which area.";
    for text in ["{}", r#"{"requirements": " ", "area": ""}"#, r#"{"budget_min": "5"}"#, "[]"] {
        let output = answer(Tool::SearchClients.start(text));
        assert_eq!(output.summary, none);
        assert!(output.data.is_none());
    }
    assert!(answer(Tool::SearchClients.start("")).summary.starts_with("Failed to parse arguments: "));
}

#[test]
fn search_takes_each_filter_alone() {
    assert_eq!(search(r#"{"requirements": " villa "}"#).requirements.as_deref(), Some("villa"));
    assert_eq!(search(r#"{"area": " Bandra\t"}"#).area.as_deref(), Some("Bandra"));
    assert_eq!(search(r#"{"budget_min": 0}"#).budget_min, Some(0));
    assert_eq!(search(r#"{"budget_max": 5, "area": " "}"#).budget_max, Some(5));
    assert_eq!(search(r#"{"budget_max": 5, "area": " "}"#).area, None);
}

#[test]
fn statement_of_the_requirements() {
    let mut search = search(r#"{"requirements": "wheelchair"}"#);
    let statement = built(&search);
    assert_eq!(statement.sql, format!("{}{}{}", OPENING, FULL_TEXT, CLOSING));
    assert_eq!(binds(&statement), vec!["wheelchair"]);
    search.full_text = false;
    let statement = built(&search);
    assert_eq!(
        statement.sql,
        format!("{} AND (notes ILIKE $1 OR preferred_areas ILIKE $2){}", OPENING, CLOSING)
    );
    assert_eq!(binds(&statement), vec!["%wheelchair%", "%wheelchair%"]);
}

#[test]
fn statement_of_the_budget() {
    let condition = " AND (budget_max IS NULL OR budget_max >= $1) \
                     AND (budget_min IS NULL OR budget_min <= $2)";
    let cases = [
        (r#"{"budget_min": 5, "budget_max": 8}"#, vec!["5", "8"]),
        (r#"{"budget_min": 5}"#, vec!["5", "9223372036854775807"]),
        (r#"{"budget_max": 8}"#, vec!["-9223372036854775808", "8"]),
    ];
    for (text, values) in cases {
        let statement = built(&search(text));
        assert_eq!(statement.sql, format!("{}{}{}", OPENING, condition, CLOSING));
        assert_eq!(binds(&statement), values);
    }
}

#[test]
fn statement_of_the_area() {
    let statement = built(&search(r#"{"area": "Bandra"}"#));
    assert_eq!(statement.sql, format!("{} AND preferred_areas ILIKE $1{}", OPENING, CLOSING));
    assert_eq!(binds(&statement), vec!["%Bandra%"]);
}

#[test]
fn filters_combine() {
    let text = r#"{"requirements": "villa", "budget_max": 10000000, "area": "Andheri"}"#;
    let statement = built(&search(text));
    assert_eq!(
        statement.sql,
        format!(
            "{}{} AND (budget_max IS NULL OR budget_max >= $2) \
             AND (budget_min IS NULL OR budget_min <= $3) AND preferred_areas ILIKE $4{}",
            OPENING, FULL_TEXT, CLOSING
        )
    );
    assert_eq!(binds(&statement), vec!["villa", "-9223372036854775808", "10000000", "%Andheri%"]);
}

#[test]
fn area_stands_between_percents_as_it_is() {
    let statement = built(&search(r#"{"area": "Ban_ra%\\x"}"#));
    assert_eq!(binds(&statement), vec!["%Ban_ra%\\x%"]);
}

#[test]
fn what_is_searched_for_stays_out_of_the_sql() {
    let quiet = search(r#"{"requirements": "quiet", "area": "Bandra"}"#);
    let odd = search(r#"{"requirements": "'; DROP TABLE clients; --", "area": "$1 $2"}"#);
    assert_eq!(built(&quiet).sql, built(&odd).sql);
    assert_eq!(binds(&built(&odd)), vec!["'; DROP TABLE clients; --", "%$1 $2%"]);
    let mut cheap = search(r#"{"budget_max": 5}"#);
    let dear = search(r#"{"budget_min": 500, "budget_max": 900}"#);
    cheap.full_text = false;
    assert_eq!(built(&cheap).sql, built(&dear).sql);
}

#[test]
fn patterns_name_special_characters() {
    let mut odd = search(r#"{"requirements": "100%_a\\b"}"#);
    odd.full_text = false;
    assert_eq!(binds(&built(&odd)), vec!["%100\\%\\_a\\\\b%", "%100\\%\\_a\\\\b%"]);
    let mut again = search(r#"{"requirements": "_%"}"#);
    assert_eq!(binds(&built(&again)), vec!["_%"]);
    again.full_text = false;
    assert_eq!(binds(&built(&again)), vec!["%\\_\\%%", "%\\_\\%%"]);
}

#[test]
fn criteria_in_words() {
    let cases = [
        (r#"{"requirements": "villa"}"#, "looking for 'villa'"),
        (r#"{"budget_min": 8, "budget_max": 8}"#, "budget around ₹8"),
        (r#"{"budget_min": 5, "budget_max": 8}"#, "budget between ₹5 and ₹8"),
        (r#"{"budget_min": 5}"#, "budget from ₹5"),
        (r#"{"budget_max": 8}"#, "budget up to ₹8"),
        (r#"{"area": "Bandra"}"#, "area 'Bandra'"),
        (
            r#"{"area": "Bandra", "budget_max": 8, "requirements": "villa"}"#,
            "looking for 'villa', budget up to ₹8, area 'Bandra'",
        ),
    ];
    for (text, words) in cases {
        assert_eq!(write_criteria(&search(text)), words);
    }
}

#[test]
fn search_answers_with_what_it_found() {
    let rows = vec![client("A"), client("B"), client("C")];
    let output = answer(search_replied(search(r#"{"area": "Bandra"}"#), Ok(rows)));
    assert_eq!(
        output.summary,
        format!(
            "Found 3 client(s) matching area 'Bandra'.\n{}\n{}\n{}",
            client("A").detail_line(),
            client("B").detail_line(),
            client("C").detail_line()
        )
    );
    assert!(matches!(output.data, Some(Json::List(items)) if items.len() == 3));
}

#[test]
fn search_is_tried_again_for_requirements_alone() {
    let again = match search_replied(search(r#"{"requirements": "2bhk"}"#), Ok(vec![])) {
        Step::Search(search) => search,
        _ => panic!("no second search"),
    };
    assert!(!again.full_text);
    assert_eq!(again.requirements.as_deref(), Some("2bhk"));
    let output = answer(search_replied(again, Ok(vec![client("A")])));
    assert!(output.summary.starts_with("Found 1 client(s) matching looking for '2bhk'.\nA (active)"));
}

#[test]
fn search_is_not_tried_a_third_time() {
    for reply in [Ok(vec![]), Err("gone".to_string())] {
        let mut again = search(r#"{"requirements": "2bhk"}"#);
        again.full_text = false;
        let output = answer(search_replied(again, reply));
        assert_eq!(output.summary, "No clients found matching looking for '2bhk'.");
        assert!(output.data.is_none());
    }
}

#[test]
fn search_with_more_filters_is_not_tried_again() {
    let text = r#"{"requirements": "2bhk", "budget_max": 8}"#;
    let output = answer(search_replied(search(text), Ok(vec![])));
    assert_eq!(output.summary, "No clients found matching looking for '2bhk', budget up to ₹8.");
    let output = answer(search_replied(search(r#"{"area": "Bandra"}"#), Ok(vec![])));
    assert_eq!(output.summary, "No clients found matching area 'Bandra'.");
}

#[test]
fn search_that_fails_says_how() {
    let failed = Err("gone".to_string());
    let output = answer(search_replied(search(r#"{"requirements": "2bhk"}"#), failed));
    assert_eq!(output.summary, "Database error: gone");
    assert!(output.data.is_none());
}

/// Whether the condition on the budget holds of a client, as Postgres would decide it.
fn admits(statement: &Statement, min: Option<i64>, max: Option<i64>) -> bool {
    let ends: Vec<i64> = statement
        .binds
        .iter()
        .map(|bind| match bind {
            Bind::Integer(Some(n)) => *n,
            _ => panic!("no number"),
        })
        .collect();
    max.map_or(true, |max| max >= ends[0]) && min.map_or(true, |min| min <= ends[1])
}

#[test]
fn budgets_match_where_they_overlap() {
    let around = built(&search(r#"{"budget_min": 80, "budget_max": 80}"#));
    assert!(admits(&around, Some(50), Some(100)));
    assert!(admits(&around, Some(80), None));
    assert!(admits(&around, None, Some(80)));
    assert!(admits(&around, None, None));
    assert!(!admits(&around, Some(81), None));
    assert!(!admits(&around, None, Some(79)));
    let up_to = built(&search(r#"{"budget_max": 100}"#));
    assert!(admits(&up_to, Some(100), None));
    assert!(!admits(&up_to, Some(101), None));
    assert!(admits(&up_to, None, Some(0)));
    assert!(admits(&up_to, None, Some(-1)));
    assert!(admits(&up_to, Some(i64::MIN), Some(i64::MIN)));
    let from = built(&search(r#"{"budget_min": 100}"#));
    assert!(admits(&from, Some(i64::MAX), Some(i64::MAX)));
    assert!(!admits(&from, None, Some(99)));
}

#[test]
fn searches_of_usual_length_can_be_bound() {
    assert!(can_bind_search(&search(r#"{"requirements": "villa", "area": "Bandra"}"#)));
    assert!(can_bind_search(&search(r#"{"budget_min": 1}"#)));
}
