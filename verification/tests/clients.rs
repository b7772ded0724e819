//! How clients are told of: the detail line, the briefing and the JSON object.

use client_desk::client::{budget_text, prospect_age_text, rupees_text, ClientRow};
use client_desk::clock::{Timestamp, FIRST_SECOND, LAST_SECOND};
use client_desk::json::Json;

const DAY: i64 = 86_400;

fn at(seconds: i64) -> Timestamp {
    Timestamp::new(seconds, 0).unwrap()
}

/// 2024-03-05 06:07:08 UTC.
const ENTRY: i64 = 1_709_618_828;

fn priya() -> ClientRow {
    ClientRow {
        id: 0x1234_5678_9abc_def0_0fed_cba9_8765_4321,
        name: "Priya Shah".to_string(),
        email: "priya@example.com".to_string(),
        phone: Some("+91 98200 00000".to_string()),
        budget_min: Some(5_000_000),
        budget_max: Some(10_000_000),
        preferred_areas: Some("Bandra, Andheri".to_string()),
        status: "active".to_string(),
        notes: Some("Sea view".to_string()),
        created_at: at(ENTRY),
    }
}

fn nobody() -> ClientRow {
    ClientRow {
        id: 0,
        name: "Rahul".to_string(),
        email: "r@example.com".to_string(),
        phone: None,
        budget_min: None,
        budget_max: None,
        preferred_areas: None,
        status: "inactive".to_string(),
        notes: None,
        created_at: at(0),
    }
}

fn written(json: &Json) -> String {
    match json {
        Json::Null => "null".to_string(),
        Json::Integer(n) => n.to_string(),
        Json::Text(text) => format!("{:?}", text),
        Json::List(items) => {
            let items: Vec<String> = items.iter().map(written).collect();
            format!("[{}]", items.join(","))
        },
        Json::Object(members) => {
            let members: Vec<String> = members
                .iter()
                .map(|(key, value)| format!("{:?}:{}", key, written(value)))
                .collect();
            format!("{{{}}}", members.join(","))
        },
    }
}

#[test]
fn detail_line_of_a_full_client() {
    assert_eq!(
        priya().detail_line(),
        "Priya Shah (active) — phone +91 98200 00000, email priya@example.com, \
         a budget of ₹5000000 to ₹10000000, interested in Bandra, Andheri. Notes: Sea view. \
         [internal, do not say aloud: id 12345678-9abc-def0-0fed-cba987654321]"
    );
}

#[test]
fn detail_line_of_a_bare_client() {
    assert_eq!(
        nobody().detail_line(),
        "Rahul (inactive) — phone no phone on file, email r@example.com, no budget on file, \
         no preferred areas yet. Notes: no notes. \
         [internal, do not say aloud: id 00000000-0000-0000-0000-000000000000]"
    );
}

#[test]
fn detail_line_tells_one_end_of_a_budget() {
    let mut client = nobody();
    client.budget_min = Some(-1);
    assert!(client.detail_line().contains(", a budget from ₹-1, "));
    client.budget_min = None;
    client.budget_max = Some(i64::MAX);
    assert!(client.detail_line().contains(", a budget up to ₹9223372036854775807, "));
}

#[test]
fn detail_line_holds_every_field() {
    let client = priya();
    let line = client.detail_line();
    for part in [
        "Priya Shah",
        "active",
        "+91 98200 00000",
        "priya@example.com",
        "₹5000000",
        "₹10000000",
        "Bandra, Andheri",
        "Sea view",
        "12345678-9abc-def0-0fed-cba987654321",
    ] {
        assert!(line.contains(part), "{}", part);
    }
    assert!(line.ends_with("id 12345678-9abc-def0-0fed-cba987654321]"));
}

#[test]
fn json_of_a_full_client() {
    assert_eq!(
        written(&priya().to_json()),
        "{\"id\":\"12345678-9abc-def0-0fed-cba987654321\",\"name\":\"Priya Shah\",\
         \"email\":\"priya@example.com\",\"phone\":\"+91 98200 00000\",\"budget_min\":5000000,\
         \"budget_max\":10000000,\"preferred_areas\":\"Bandra, Andheri\",\"status\":\"active\",\
         \"notes\":\"Sea view\",\"created_at\":\"2024-03-05 06:07:08 UTC\"}"
    );
}

#[test]
fn json_of_a_bare_client_holds_nulls() {
    assert_eq!(
        written(&nobody().to_json()),
        "{\"id\":\"00000000-0000-0000-0000-000000000000\",\"name\":\"Rahul\",\
         \"email\":\"r@example.com\",\"phone\":null,\"budget_min\":null,\"budget_max\":null,\
         \"preferred_areas\":null,\"status\":\"inactive\",\"notes\":null,\
         \"created_at\":\"1970-01-01 00:00:00 UTC\"}"
    );
}

#[test]
fn json_takes_the_text_of_the_entry() {
    let json = written(&nobody().dated_members("once").object());
    assert!(json.ends_with("\"created_at\":\"once\"}"));
}

#[test]
fn briefing_on_a_full_client() {
    assert_eq!(
        priya().briefing(at(ENTRY + 3 * DAY)),
        "Prep for Priya Shah — a prospect for 3 days, currently active. \
         What they want: Sea view. budget ₹5000000 to ₹10000000. prefers Bandra, Andheri. \
         Reach them on +91 98200 00000 or priya@example.com. \
         [internal, do not say aloud: id 12345678-9abc-def0-0fed-cba987654321]"
    );
}

#[test]
fn briefing_on_a_bare_client() {
    assert_eq!(
        nobody().briefing(at(0)),
        "Prep for Rahul — added today, currently inactive. \
         What they want: no requirements captured yet — worth asking what they're after. \
         no budget on file yet. no preferred areas noted. \
         Reach them on no phone on file or r@example.com. \
         [internal, do not say aloud: id 00000000-0000-0000-0000-000000000000]"
    );
}

#[test]
fn briefing_takes_blank_notes_for_none() {
    let mut client = nobody();
    client.notes = Some(" \t\u{3000}\n".to_string());
    assert!(client.briefing(at(0)).contains("What they want: no requirements captured yet"));
    client.notes = Some(" flat ".to_string());
    assert!(client.briefing(at(0)).contains("What they want:  flat . "));
}

#[test]
fn briefing_tells_in_order() {
    let text = priya().briefing(at(ENTRY + 30 * DAY));
    let mut from = 0;
    for part in [
        "Priya Shah",
        "a prospect for about 4 weeks",
        "active",
        "Sea view",
        "₹5000000",
        "₹10000000",
        "Bandra, Andheri",
        "+91 98200 00000",
        "priya@example.com",
        "12345678-9abc-def0-0fed-cba987654321",
    ] {
        from = from + text[from..].find(part).unwrap() + part.len();
    }
}

#[test]
fn prospect_age_in_words() {
    assert_eq!(prospect_age_text(i64::MIN), "added today");
    assert_eq!(prospect_age_text(0), "added today");
    assert_eq!(prospect_age_text(1), "a prospect since yesterday");
    assert_eq!(prospect_age_text(2), "a prospect for 2 days");
    assert_eq!(prospect_age_text(13), "a prospect for 13 days");
    assert_eq!(prospect_age_text(14), "a prospect for about 2 weeks");
    assert_eq!(prospect_age_text(59), "a prospect for about 8 weeks");
    assert_eq!(prospect_age_text(60), "a prospect for about 2 months");
    assert_eq!(prospect_age_text(400), "a prospect for about 13 months");
}

#[test]
fn budgets_in_words() {
    assert_eq!(rupees_text(-20), "₹-20");
    assert_eq!(rupees_text(i64::MIN), "₹-9223372036854775808");
    assert_eq!(budget_text("a ", "b ", Some(1), Some(2), "c"), "a b ₹1 to ₹2");
    assert_eq!(budget_text("a ", "b ", Some(1), None, "c"), "a from ₹1");
    assert_eq!(budget_text("a ", "b ", None, Some(2), "c"), "a up to ₹2");
    assert_eq!(budget_text("a ", "b ", None, None, "c"), "c");
}

#[test]
fn days_are_cut_off() {
    let start = at(1_000_000);
    assert_eq!(at(1_000_000 + DAY - 1).days_since(start), 0);
    assert_eq!(at(1_000_000 + DAY).days_since(start), 1);
    assert_eq!(at(1_000_000 - DAY + 1).days_since(start), 0);
    assert_eq!(at(1_000_000 - DAY).days_since(start), -1);
    assert_eq!(at(1_000_000 - 2 * DAY + 1).days_since(start), -1);
}

#[test]
fn days_count_the_nanoseconds() {
    let start = Timestamp::new(100, 500).unwrap();
    assert_eq!(Timestamp::new(100 + DAY, 499).unwrap().days_since(start), 0);
    assert_eq!(Timestamp::new(100 + DAY, 500).unwrap().days_since(start), 1);
    assert_eq!(Timestamp::new(100 - DAY, 501).unwrap().days_since(start), 0);
    assert_eq!(Timestamp::new(100 - DAY, 500).unwrap().days_since(start), -1);
}

#[test]
fn days_over_the_whole_calendar() {
    let days = at(LAST_SECOND).days_since(at(FIRST_SECOND));
    assert_eq!(days, (LAST_SECOND - FIRST_SECOND) / DAY);
    assert_eq!(at(FIRST_SECOND).days_since(at(LAST_SECOND)), -days);
}

#[test]
fn times_are_those_of_the_calendar() {
    assert_eq!(FIRST_SECOND, chrono::DateTime::<chrono::Utc>::MIN_UTC.timestamp());
    assert_eq!(LAST_SECOND, chrono::DateTime::<chrono::Utc>::MAX_UTC.timestamp());
    assert!(Timestamp::new(FIRST_SECOND - 1, 0).is_none());
    assert!(Timestamp::new(LAST_SECOND + 1, 0).is_none());
    assert!(Timestamp::new(0, 1_000_000_000).is_none());
    assert!(Timestamp::new(FIRST_SECOND, 0).is_some());
    assert!(Timestamp::new(LAST_SECOND, 999_999_999).is_some());
}

#[test]
fn times_in_words() {
    assert_eq!(at(ENTRY).to_text(), "2024-03-05 06:07:08 UTC");
    assert_eq!(Timestamp::new(ENTRY, 250_000_000).unwrap().to_text(), "2024-03-05 06:07:08.250 UTC");
    assert_eq!(at(-1).to_text(), "1969-12-31 23:59:59 UTC");
}
