//! Courses of calls on a small table, with the statements carried out on it as PostgreSQL does.

use client_desk::add::{client_added, Inserted};
use client_desk::client::ClientRow;
use client_desk::clock::Timestamp;
use client_desk::find::stage_replied_at;
use client_desk::json::Json;
use client_desk::list::clients_listed;
use client_desk::pattern::containing_text;
use client_desk::requests::{NameSearch, SearchStage};
use client_desk::statement::{build_search_query, can_bind_search, Bind, Statement};
use client_desk::step::{Step, ToolOutput};
use client_desk::text::{copy_text, decimal_text};
use client_desk::tools::Tool;
use client_desk::update::client_updated;

fn text(statement: &Statement, i: usize) -> Option<String> {
    match &statement.binds[i] {
        Bind::Text(text) => text.clone(),
        _ => panic!("no text"),
    }
}

fn integer(statement: &Statement, i: usize) -> Option<i64> {
    match &statement.binds[i] {
        Bind::Integer(n) => *n,
        _ => panic!("no number"),
    }
}

fn copy(row: &ClientRow) -> ClientRow {
    ClientRow {
        id: row.id,
        name: row.name.clone(),
        email: row.email.clone(),
        phone: copy_text(&row.phone),
        budget_min: row.budget_min,
        budget_max: row.budget_max,
        preferred_areas: copy_text(&row.preferred_areas),
        status: row.status.clone(),
        notes: copy_text(&row.notes),
        created_at: row.created_at,
    }
}

/// The text of a row that tells everything of it.
fn shown(row: &ClientRow) -> String {
    format!("{} {}", row.detail_line(), row.created_at.to_text())
}

/// Whether a text matches a pattern of `ILIKE`.
fn like(text: &[char], pattern: &[char]) -> bool {
    match pattern {
        [] => text.is_empty(),
        ['%', rest @ ..] => {
            like(text, rest) || (!text.is_empty() && like(&text[1..], pattern))
        },
        ['\\', c, rest @ ..] => !text.is_empty() && same(*c, text[0]) && like(&text[1..], rest),
        ['_', rest @ ..] => !text.is_empty() && like(&text[1..], rest),
        [c, rest @ ..] => !text.is_empty() && same(*c, text[0]) && like(&text[1..], rest),
    }
}

fn same(a: char, b: char) -> bool {
    a.to_lowercase().eq(b.to_lowercase())
}

fn ilike(text: &str, pattern: &str) -> bool {
    let text: Vec<char> = text.chars().collect();
    let pattern: Vec<char> = pattern.chars().collect();
    like(&text, &pattern)
}

struct Table {
    rows: Vec<(i64, ClientRow)>,
}

impl Table {
    fn add(&mut self, arguments: &str) -> ToolOutput {
        let client = match Tool::AddClient.start(arguments) {
            Step::Insert(client) => client,
            _ => panic!("no insert"),
        };
        let statement = client.statement();
        let place = self.rows.len() as i64;
        let id = 1 + place as u128;
        let created_at = Timestamp::new(1_000 * place, 0).unwrap();
        self.rows.push((
            place,
            ClientRow {
                id,
                name: text(&statement, 0).unwrap(),
                email: text(&statement, 1).unwrap(),
                phone: text(&statement, 2),
                budget_min: integer(&statement, 3),
                budget_max: integer(&statement, 4),
                preferred_areas: text(&statement, 5),
                status: "active".to_string(),
                notes: text(&statement, 6),
                created_at,
            },
        ));
        answer(client_added(&client, Ok(Inserted { id, created_at })))
    }

    fn update(&mut self, id: u128, members: &str) -> ToolOutput {
        let arguments = format!("{{\"client_id\": \"{:032x}\", {}}}", id, members);
        let changes = match Tool::UpdateClient.start(&arguments) {
            Step::Update(changes) => changes,
            _ => panic!("no update"),
        };
        let s = changes.statement();
        assert!(matches!(s.binds[0], Bind::Id(bound) if bound == id));
        let mut changed = None;
        for (_, row) in self.rows.iter_mut().filter(|(_, row)| row.id == id) {
            row.name = text(&s, 1).unwrap_or(row.name.clone());
            row.email = text(&s, 2).unwrap_or(row.email.clone());
            row.phone = text(&s, 3).or(copy_text(&row.phone));
            row.budget_min = integer(&s, 4).or(row.budget_min);
            row.budget_max = integer(&s, 5).or(row.budget_max);
            row.preferred_areas = text(&s, 6).or(copy_text(&row.preferred_areas));
            row.notes = text(&s, 7).or(copy_text(&row.notes));
            row.status = text(&s, 8).unwrap_or(row.status.clone());
            changed = Some(copy(row));
        }
        answer(client_updated(&changes, Ok(changed)))
    }

    fn select<F: Fn(&ClientRow) -> bool>(&self, limit: usize, wanted: F) -> Vec<ClientRow> {
        let mut rows: Vec<&(i64, ClientRow)> =
            self.rows.iter().filter(|(_, row)| wanted(row)).collect();
        rows.sort_by_key(|(place, _)| -place);
        rows.into_iter().take(limit).map(|(_, row)| copy(row)).collect()
    }

    fn list(&self) -> ToolOutput {
        answer(clients_listed(Ok(self.select(50, |row| row.status == "active"))))
    }

    fn shown(&self) -> Vec<String> {
        self.rows.iter().map(|(_, row)| shown(row)).collect()
    }
}

fn answer(step: Step) -> ToolOutput {
    match step {
        Step::Done(output) => output,
        _ => panic!("no answer"),
    }
}

fn named(name: &str) -> String {
    format!("{{\"name\": \"{}\", \"phone\": \"1\", \"email\": \"e\", \"notes\": \"n\"}}", name)
}

fn table(n: usize) -> Table {
    let mut table = Table { rows: vec![] };
    for i in 0..n {
        table.add(&named(&format!("Client {}", i)));
    }
    table
}

/// The identifiers of the entries of the data, in order.
fn ids(output: &ToolOutput) -> Vec<String> {
    match &output.data {
        Some(Json::List(items)) => items
            .iter()
            .map(|item| match item {
                Json::Object(members) => match &members[0] {
                    (key, Json::Text(id)) if key == "id" => id.clone(),
                    _ => panic!("no identifier"),
                },
                _ => panic!("no object"),
            })
            .collect(),
        None => vec![],
        _ => panic!("no list"),
    }
}

fn id(n: usize) -> String {
    format!("00000000-0000-0000-0000-{:012x}", n)
}

#[test]
fn new_client_heads_the_list() {
    let mut few = table(3);
    assert_eq!(ids(&few.list()), vec![id(3), id(2), id(1)]);
    few.add(&named("Priya"));
    assert_eq!(ids(&few.list()), vec![id(4), id(3), id(2), id(1)]);
    let mut many = table(50);
    let before = ids(&many.list());
    assert_eq!(before.len(), 50);
    many.add(&named("Priya"));
    let after = ids(&many.list());
    assert_eq!(after[0], id(51));
    assert_eq!(after[1..], before[..49]);
}

#[test]
fn inactive_client_leaves_the_list_and_comes_back() {
    let mut clients = table(3);
    clients.update(2, "\"status\": \"inactive\"");
    let output = clients.list();
    assert_eq!(ids(&output), vec![id(3), id(1)]);
    assert!(!output.summary.contains(&id(2)));
    assert_eq!(clients.rows.len(), 3);
    clients.update(2, "\"status\": \"active\"");
    assert_eq!(ids(&clients.list()), vec![id(3), id(2), id(1)]);
}

#[test]
fn updates_of_different_fields_or_clients_commute() {
    let updates: [(u128, &str); 3] = [
        (1, "\"phone\": \"22\", \"notes\": \"garden\""),
        (1, "\"budget_max\": 9, \"status\": \"inactive\""),
        (2, "\"phone\": \"33\", \"budget_max\": 7"),
    ];
    for (first, second) in [(0, 1), (0, 2), (1, 2)] {
        let mut one = table(2);
        one.update(updates[first].0, updates[first].1);
        one.update(updates[second].0, updates[second].1);
        let mut other = table(2);
        other.update(updates[second].0, updates[second].1);
        other.update(updates[first].0, updates[first].1);
        assert_eq!(one.shown(), other.shown());
    }
}

#[test]
fn updates_keep_what_they_omit() {
    let mut clients = table(2);
    let before = clients.shown();
    clients.update(1, "\"phone\": \"22\"");
    assert_eq!(clients.shown()[1], before[1]);
    assert_eq!(clients.shown()[0], before[0].replace("phone 1,", "phone 22,"));
    let once = clients.shown();
    clients.update(1, "\"phone\": \"22\"");
    assert_eq!(clients.shown(), once);
}

#[test]
fn clients_and_their_statuses_are_kept() {
    let mut clients = table(2);
    clients.update(1, "\"status\": \" inactive \"");
    clients.add(&named("Priya"));
    clients.update(3, "\"name\": \"Priya Shah\"");
    let known: Vec<u128> = clients.rows.iter().map(|(_, row)| row.id).collect();
    assert_eq!(known, vec![1, 2, 3]);
    for (_, row) in clients.rows.iter() {
        assert!(row.status == "active" || row.status == "inactive");
    }
}

#[test]
fn only_the_tools_that_write_come_to_writing() {
    let full = format!(
        "{{\"client_id\": \"{:032x}\", \"name\": \"a\", \"phone\": \"1\", \"email\": \"e\", \
         \"notes\": \"n\", \"area\": \"b\"}}",
        1
    );
    assert!(matches!(Tool::AddClient.start(&full), Step::Insert(_)));
    assert!(matches!(Tool::UpdateClient.start(&full), Step::Update(_)));
    assert!(matches!(Tool::GetClientByName.start(&full), Step::Find(_)));
    assert!(matches!(Tool::PrepClient.start(&full), Step::Find(_)));
    assert!(matches!(Tool::SearchClients.start(&full), Step::Search(_)));
    assert!(matches!(Tool::ListClients.start(&full), Step::List));
}

fn found(step: Step) -> NameSearch {
    match step {
        Step::Find(search) => search,
        _ => panic!("no search"),
    }
}

#[test]
fn added_client_is_found_by_name() {
    let mut clients = table(2);
    let added = clients.add(&named("  Priya "));
    let search = found(Tool::GetClientByName.start("{\"name\": \"\\tPriya\"}"));
    assert_eq!(search.stage, SearchStage::Phonetic);
    let rows = clients.select(10, |row| row.name == search.name);
    let now = Timestamp::new(0, 0).unwrap();
    let output = answer(stage_replied_at(search, Ok(rows), now));
    assert_eq!(ids(&output), vec![id(3)]);
    let (entry, reported) = match (output.data, added.data) {
        (Some(Json::List(mut items)), Some(Json::Object(reported))) => match items.remove(0) {
            Json::Object(entry) => (entry, reported),
            _ => panic!("no object"),
        },
        _ => panic!("no data"),
    };
    let value = |members: &Vec<(String, Json)>, key: &str| {
        match &members.iter().find(|(k, _)| k == key).unwrap().1 {
            Json::Null => "null".to_string(),
            Json::Integer(n) => n.to_string(),
            Json::Text(text) => text.clone(),
            _ => panic!("no plain value"),
        }
    };
    for (key, _) in reported.iter() {
        assert_eq!(value(&entry, key), value(&reported, key), "{}", key);
    }
    assert_eq!(value(&entry, "status"), "active");
    assert_eq!(value(&entry, "match_method"), "phonetic soundex match");
}

/// The names that a search by name tells of, in order, where `alike` says which names sound alike
/// and `similar` how similar two of them are.
fn told(
    clients: &Table,
    name: &str,
    alike: fn(&str, &str) -> bool,
    similar: fn(&str, &str) -> usize,
) -> (SearchStage, Vec<String>) {
    let mut search = found(Tool::GetClientByName.start(&format!("{{\"name\": \"{}\"}}", name)));
    loop {
        let stage = search.stage;
        let s = search.statement();
        let bound = text(&s, 0).unwrap();
        let mut rows = clients.select(usize::MAX, |row| match stage {
            SearchStage::Phonetic => alike(&row.name, &bound),
            SearchStage::Trigram => similar(&row.name, &bound) > 3,
            SearchStage::Substring => ilike(&row.name, &bound),
        });
        if stage == SearchStage::Trigram {
            assert!(s.sql.ends_with(" ORDER BY similarity(name, $1) DESC LIMIT 10"));
            rows.sort_by_key(|row| usize::MAX - similar(&row.name, &bound));
        } else {
            assert!(s.sql.ends_with(" ORDER BY name ASC LIMIT 10"));
            rows.sort_by(|a, b| a.name.cmp(&b.name));
        }
        rows.truncate(10);
        let now = Timestamp::new(0, 0).unwrap();
        match stage_replied_at(search, Ok(rows), now) {
            Step::Find(next) => search = next,
            step => {
                let names = match answer(step).data {
                    Some(Json::List(items)) => items
                        .into_iter()
                        .map(|item| match item {
                            Json::Object(members) => match &members[1].1 {
                                Json::Text(name) => name.clone(),
                                _ => panic!("no name"),
                            },
                            _ => panic!("no object"),
                        })
                        .collect(),
                    _ => vec![],
                };
                return (stage, names);
            },
        }
    }
}

#[test]
fn stages_bring_their_clients_in_order() {
    let mut clients = Table { rows: vec![] };
    for name in ["Zara", "Priya", "Pria", "Mapriyana", "Amit"] {
        clients.add(&named(name));
    }
    let shared = |a: &str, b: &str| a.chars().filter(|c| b.contains(*c)).count();
    let none = |_: &str, _: &str| 0;
    let never = |_: &str, _: &str| false;
    assert_eq!(
        told(&clients, "Prya", |a, b| a[..1] == b[..1], none),
        (SearchStage::Phonetic, vec!["Pria".to_string(), "Priya".to_string()])
    );
    assert_eq!(
        told(&clients, "Priya", never, shared),
        (
            SearchStage::Trigram,
            vec!["Mapriyana".to_string(), "Priya".to_string(), "Pria".to_string()]
        )
    );
    assert_eq!(
        told(&clients, "PRIYA", never, none),
        (SearchStage::Substring, vec!["Mapriyana".to_string(), "Priya".to_string()])
    );
    assert_eq!(told(&clients, "_", never, none), (SearchStage::Substring, vec![]));
}

#[test]
fn patterns_match_what_holds_the_text() {
    let names = ["Priya", "pri_ya", "100%", "a\\b", "", "PRIYA", "ya\\", "%_\\"];
    for part in ["Pri", "_", "%", "\\", "a\\b", "ya", "", "_y", "0%", "%_\\"] {
        let pattern = containing_text(part);
        for name in names {
            assert_eq!(
                ilike(name, &pattern),
                name.to_lowercase().contains(&part.to_lowercase()),
                "{:?} in {:?}",
                part,
                name
            );
        }
    }
}

/// The names of the clients that a search brings, with its requirements matched as a substring.
fn sought(clients: &Table, arguments: &str) -> Vec<String> {
    let mut search = match Tool::SearchClients.start(arguments) {
        Step::Search(search) => search,
        _ => panic!("no search"),
    };
    search.full_text = false;
    assert!(can_bind_search(&search));
    let s = build_search_query(&search);
    let matches = |column: &Option<String>, i: usize| match column {
        Some(column) => ilike(column, &text(&s, i).unwrap()),
        None => false,
    };
    let rows = clients.select(10, |row| {
        let mut next = 0;
        let mut wanted = true;
        if search.requirements.is_some() {
            wanted = wanted
                && (matches(&row.notes, next) || matches(&row.preferred_areas, next + 1));
            next += 2;
        }
        if search.budget_min.is_some() || search.budget_max.is_some() {
            wanted = wanted
                && row.budget_max.map_or(true, |max| max >= integer(&s, next).unwrap())
                && row.budget_min.map_or(true, |min| min <= integer(&s, next + 1).unwrap());
            next += 2;
        }
        if search.area.is_some() {
            wanted = wanted && matches(&row.preferred_areas, next);
            next += 1;
        }
        assert_eq!(next, s.binds.len());
        wanted
    });
    rows.into_iter().map(|row| row.name).collect()
}

#[test]
fn filters_meet() {
    let mut clients = Table { rows: vec![] };
    for (name, areas, notes, max) in [
        ("A", "Bandra", "villa", 50),
        ("B", "Andheri", "Villa", -1),
        ("C", "Bandra", "flat", 90),
        ("D", "Villa Park", "flat", 20),
    ] {
        clients.add(&format!(
            "{{\"name\": \"{}\", \"phone\": \"1\", \"email\": \"e\", \"notes\": \"{}\", \
             \"preferred_areas\": \"{}\", \"budget_max\": {}}}",
            name, notes, areas, max
        ));
    }
    assert_eq!(sought(&clients, r#"{"requirements": "villa"}"#), vec!["D", "B", "A"]);
    assert_eq!(sought(&clients, r#"{"area": "bandra"}"#), vec!["C", "A"]);
    assert_eq!(sought(&clients, r#"{"budget_min": 30}"#), vec!["C", "A"]);
    assert_eq!(sought(&clients, r#"{"budget_max": 10}"#), vec!["D", "C", "B", "A"]);
    assert_eq!(sought(&clients, r#"{"requirements": "villa", "area": "bandra"}"#), vec!["A"]);
    assert_eq!(sought(&clients, r#"{"requirements": "villa", "budget_min": 30}"#), vec!["A"]);
    assert!(sought(&clients, r#"{"requirements": "_"}"#).is_empty());
}

#[test]
fn integers_in_decimal() {
    for n in [0, 7, 10, 99, 100, -1, -10, i128::from(i64::MIN), i128::MAX, i128::MIN] {
        assert_eq!(decimal_text(n), n.to_string());
    }
}
