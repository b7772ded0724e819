//! Clients as the database holds them, and how they are put before the model and the realtor.

use crate::clock::{calendar_text, whole_days, Timestamp, TimestampView};
use crate::ident::{id_text, id_to_text, parsed_id};
use crate::json::{optional_integer, optional_text, Json, JsonView, Members};
use crate::text::{
    decimal, decimal_text, in_order, in_order_alone, in_order_concat, in_order_extends,
    in_order_push, stripped, text_view,
};
use vstd::prelude::*;

verus! {

/// A client, as a row of the database holds it.
pub struct ClientRow {
    pub id: u128,
    pub name: String,
    pub email: String,
    pub phone: Option<String>,
    pub budget_min: Option<i64>,
    pub budget_max: Option<i64>,
    pub preferred_areas: Option<String>,
    pub status: String,
    pub notes: Option<String>,
    pub created_at: Timestamp,
}

/// The mathematical value of a client.
pub struct ClientView {
    pub id: u128,
    pub name: Seq<char>,
    pub email: Seq<char>,
    pub phone: Option<Seq<char>>,
    pub budget_min: Option<i64>,
    pub budget_max: Option<i64>,
    pub preferred_areas: Option<Seq<char>>,
    pub status: Seq<char>,
    pub notes: Option<Seq<char>>,
    pub created_at: TimestampView,
}

impl View for ClientRow {
    type V = ClientView;

    open spec fn view(&self) -> ClientView {
        ClientView {
            id: self.id,
            name: self.name@,
            email: self.email@,
            phone: text_view(self.phone),
            budget_min: self.budget_min,
            budget_max: self.budget_max,
            preferred_areas: text_view(self.preferred_areas),
            status: self.status@,
            notes: text_view(self.notes),
            created_at: self.created_at@,
        }
    }
}

/// An amount of money.
pub open spec fn rupees(amount: i64) -> Seq<char> {
    "₹"@ + decimal(amount as int)
}

/// A budget, with `opening` in front of it: the range (after `both`), or the one end of it that is
/// known, or `unknown` where neither end is.
pub open spec fn budget_phrase(
    opening: Seq<char>,
    both: Seq<char>,
    min: Option<i64>,
    max: Option<i64>,
    unknown: Seq<char>,
) -> Seq<char> {
    match (min, max) {
        (Some(mn), Some(mx)) => opening + both + rupees(mn) + " to "@ + rupees(mx),
        (Some(mn), None) => opening + "from "@ + rupees(mn),
        (None, Some(mx)) => opening + "up to "@ + rupees(mx),
        (None, None) => unknown,
    }
}

/// The bracket that carries an identifier, marked as nothing to be said aloud.
pub open spec fn id_bracket(id: u128) -> Seq<char> {
    "[internal, do not say aloud: id "@ + id_text(id) + "]"@
}

/// The line that tells the model all there is to know of a client.
pub open spec fn detail_line(c: ClientView) -> Seq<char> {
    c.name + " ("@ + c.status + ") — phone "@ + c.phone.unwrap_or("no phone on file"@) + ", email "@
        + c.email + ", "@ + budget_phrase(
        "a budget "@,
        "of "@,
        c.budget_min,
        c.budget_max,
        "no budget on file"@,
    ) + ", "@ + (match c.preferred_areas {
        Some(areas) => "interested in "@ + areas,
        None => "no preferred areas yet"@,
    }) + ". Notes: "@ + c.notes.unwrap_or("no notes"@) + ". "@ + id_bracket(c.id)
}

/// How long someone has been a prospect, from the whole days since they were added.
pub open spec fn prospect_age(days: int) -> Seq<char> {
    if days <= 0 {
        "added today"@
    } else if days == 1 {
        "a prospect since yesterday"@
    } else if days < 14 {
        "a prospect for "@ + decimal(days) + " days"@
    } else if days < 60 {
        "a prospect for about "@ + decimal(days / 7) + " weeks"@
    } else {
        "a prospect for about "@ + decimal(days / 30) + " months"@
    }
}

/// What a client is after: the notes, where they hold more than white space.
pub open spec fn wants(notes: Option<Seq<char>>) -> Seq<char> {
    match notes {
        Some(notes) if stripped(notes).len() > 0 => notes,
        _ => "no requirements captured yet — worth asking what they're after"@,
    }
}

/// The briefing on a client before a showing, as of `now`.
pub open spec fn briefing(c: ClientView, now: TimestampView) -> Seq<char> {
    "Prep for "@ + c.name + " — "@ + prospect_age(whole_days(now, c.created_at)) + ", currently "@
        + c.status + ". What they want: "@ + wants(c.notes) + ". "@ + budget_phrase(
        "budget "@,
        ""@,
        c.budget_min,
        c.budget_max,
        "no budget on file yet"@,
    ) + ". "@ + (match c.preferred_areas {
        Some(areas) => "prefers "@ + areas,
        None => "no preferred areas noted"@,
    }) + ". Reach them on "@ + c.phone.unwrap_or("no phone on file"@) + " or "@ + c.email + ". "@
        + id_bracket(c.id)
}

/// The members of the JSON object of a client, with the text of the time of the entry.
pub open spec fn dated_members(c: ClientView, created_at: Seq<char>) -> Seq<
    (Seq<char>, JsonView),
> {
    seq![
        ("id"@, JsonView::Text(id_text(c.id))),
        ("name"@, JsonView::Text(c.name)),
        ("email"@, JsonView::Text(c.email)),
        ("phone"@, optional_text(c.phone)),
        ("budget_min"@, optional_integer(c.budget_min)),
        ("budget_max"@, optional_integer(c.budget_max)),
        ("preferred_areas"@, optional_text(c.preferred_areas)),
        ("status"@, JsonView::Text(c.status)),
        ("notes"@, optional_text(c.notes)),
        ("created_at"@, JsonView::Text(created_at)),
    ]
}

/// The members of the JSON object of a client.
pub open spec fn client_members(c: ClientView) -> Seq<(Seq<char>, JsonView)> {
    dated_members(c, calendar_text(c.created_at.seconds, c.created_at.nanos))
}

/// An amount of money as text.
pub fn rupees_text(amount: i64) -> (text: String)
    ensures
        text@ == rupees(amount),
{
    "₹".to_string().concat(decimal_text(amount as i128).as_str())
}

/// A budget as text: see `budget_phrase`.
pub fn budget_text(
    opening: &str,
    both: &str,
    min: Option<i64>,
    max: Option<i64>,
    unknown: &str,
) -> (text: String)
    ensures
        text@ == budget_phrase(opening@, both@, min, max, unknown@),
{
    match (min, max) {
        (Some(mn), Some(mx)) => opening.to_string().concat(both).concat(
            rupees_text(mn).as_str(),
        ).concat(" to ").concat(rupees_text(mx).as_str()),
        (Some(mn), None) => opening.to_string().concat("from ").concat(rupees_text(mn).as_str()),
        (None, Some(mx)) => opening.to_string().concat("up to ").concat(rupees_text(mx).as_str()),
        (None, None) => unknown.to_string(),
    }
}

/// The bracket that carries an identifier.
pub fn id_bracket_text(id: u128) -> (text: String)
    ensures
        text@ == id_bracket(id),
        parsed_id(id_text(id)) == Some(id),
{
    "[internal, do not say aloud: id ".to_string().concat(id_to_text(id).as_str()).concat("]")
}

/// How long someone has been a prospect.
pub fn prospect_age_text(days: i64) -> (text: String)
    ensures
        text@ == prospect_age(days as int),
{
    if days <= 0 {
        "added today".to_string()
    } else if days == 1 {
        "a prospect since yesterday".to_string()
    } else if days < 14 {
        "a prospect for ".to_string().concat(decimal_text(days as i128).as_str()).concat(" days")
    } else if days < 60 {
        "a prospect for about ".to_string().concat(decimal_text((days / 7) as i128).as_str()).concat(
            " weeks",
        )
    } else {
        "a prospect for about ".to_string().concat(
            decimal_text((days / 30) as i128).as_str(),
        ).concat(" months")
    }
}

/// The text, or `otherwise` where there is none.
pub fn text_or<'a>(text: &'a Option<String>, otherwise: &'a str) -> (found: &'a str)
    ensures
        found@ == text_view(*text).unwrap_or(otherwise@),
{
    match text {
        Some(t) => t.as_str(),
        None => otherwise,
    }
}

/// The text with `opening` in front of it, or `otherwise` where there is none.
fn phrase_or(opening: &str, text: &Option<String>, otherwise: &str) -> (phrase: String)
    ensures
        phrase@ == (match text_view(*text) {
            Some(t) => opening@ + t,
            None => otherwise@,
        }),
{
    match text {
        Some(t) => opening.to_string().concat(t.as_str()),
        None => otherwise.to_string(),
    }
}

impl ClientRow {
    /// The client as a JSON object.
    pub fn to_json(&self) -> (json: Json)
        ensures
            json@ == JsonView::Object(client_members(self@)),
            parsed_id(id_text(self@.id)) == Some(self@.id),
    {
        self.members().object()
    }

    /// The members of the JSON object of the client.
    pub fn members(&self) -> (members: Members)
        ensures
            members@ == client_members(self@),
            parsed_id(id_text(self@.id)) == Some(self@.id),
    {
        self.dated_members(self.created_at.to_text().as_str())
    }

    /// The members of the JSON object of the client, with the text of the time of the entry.
    pub fn dated_members(&self, created_at: &str) -> (members: Members)
        ensures
            members@ == dated_members(self@, created_at@),
            parsed_id(id_text(self@.id)) == Some(self@.id),
    {
        Members::new().with("id", Json::Text(id_to_text(self.id))).with(
            "name",
            Json::text(self.name.as_str()),
        ).with("email", Json::text(self.email.as_str())).with(
            "phone",
            Json::optional_text(&self.phone),
        ).with("budget_min", Json::optional_integer(self.budget_min)).with(
            "budget_max",
            Json::optional_integer(self.budget_max),
        ).with("preferred_areas", Json::optional_text(&self.preferred_areas)).with(
            "status",
            Json::text(self.status.as_str()),
        ).with("notes", Json::optional_text(&self.notes)).with(
            "created_at",
            Json::text(created_at),
        )
    }

    /// The line that tells the model all there is to know of the client.
    ///
    /// The model sees nothing else of a client, so every field that it may be asked about stands
    /// here, in plain prose. The identifier is needed to update the client; its bracket marks it
    /// as nothing to be said aloud.
    pub fn detail_line(&self) -> (line: String)
        ensures
            line@ == detail_line(self@),
            parsed_id(id_text(self@.id)) == Some(self@.id),
    {
        let budget = budget_text(
            "a budget ",
            "of ",
            self.budget_min,
            self.budget_max,
            "no budget on file",
        );
        let areas = phrase_or("interested in ", &self.preferred_areas, "no preferred areas yet");
        self.name.clone().concat(" (").concat(self.status.as_str()).concat(") — phone ").concat(
            text_or(&self.phone, "no phone on file"),
        ).concat(", email ").concat(self.email.as_str()).concat(", ").concat(
            budget.as_str(),
        ).concat(", ").concat(areas.as_str()).concat(". Notes: ").concat(
            text_or(&self.notes, "no notes"),
        ).concat(". ").concat(id_bracket_text(self.id).as_str())
    }

    /// The briefing on the client before a showing, as of `now`: who they are, how long they have
    /// been a prospect, what they are after, their budget and areas, and how to reach them.
    pub fn briefing(&self, now: Timestamp) -> (text: String)
        ensures
            text@ == briefing(self@, now@),
    {
        let age = prospect_age_text(now.days_since(self.created_at));
        let wants = match &self.notes {
            Some(notes) => if notes.as_str().trim().is_empty() {
                "no requirements captured yet — worth asking what they're after"
            } else {
                notes.as_str()
            },
            None => "no requirements captured yet — worth asking what they're after",
        };
        let budget = budget_text(
            "budget ",
            "",
            self.budget_min,
            self.budget_max,
            "no budget on file yet",
        );
        let areas = phrase_or("prefers ", &self.preferred_areas, "no preferred areas noted");
        "Prep for ".to_string().concat(self.name.as_str()).concat(" — ").concat(
            age.as_str(),
        ).concat(", currently ").concat(self.status.as_str()).concat(". What they want: ").concat(
            wants,
        ).concat(". ").concat(budget.as_str()).concat(". ").concat(areas.as_str()).concat(
            ". Reach them on ",
        ).concat(text_or(&self.phone, "no phone on file")).concat(" or ").concat(
            self.email.as_str(),
        ).concat(". ").concat(id_bracket_text(self.id).as_str())
    }
}

/// The text, where it is known, as a list.
pub open spec fn if_known(text: Option<Seq<char>>) -> Seq<Seq<char>> {
    match text {
        Some(t) => seq![t],
        None => Seq::empty(),
    }
}

/// The amount, where it is known, as a list.
pub open spec fn amount_if_known(amount: Option<i64>) -> Seq<Seq<char>> {
    match amount {
        Some(amount) => seq![rupees(amount)],
        None => Seq::empty(),
    }
}

/// The two ends of a budget, as far as they are known.
pub open spec fn amounts(min: Option<i64>, max: Option<i64>) -> Seq<Seq<char>> {
    amount_if_known(min) + amount_if_known(max)
}

/// A phrase tells of both ends of a budget, as far as they are known, the lower one first.
pub proof fn budget_phrase_tells_the_ends(
    opening: Seq<char>,
    both: Seq<char>,
    min: Option<i64>,
    max: Option<i64>,
    unknown: Seq<char>,
)
    ensures
        in_order(amounts(min, max), budget_phrase(opening, both, min, max, unknown)),
{
    let none = Seq::<Seq<char>>::empty();
    match (min, max) {
        (Some(mn), Some(mx)) => {
            in_order_alone(rupees(mn));
            in_order_alone(rupees(mx));
            in_order_concat(none, opening + both, seq![rupees(mn)], rupees(mn));
            in_order_extends(none + seq![rupees(mn)], opening + both + rupees(mn), " to "@);
            in_order_concat(
                none + seq![rupees(mn)],
                opening + both + rupees(mn) + " to "@,
                seq![rupees(mx)],
                rupees(mx),
            );
            assert(none + seq![rupees(mn)] + seq![rupees(mx)] =~= amounts(min, max));
        },
        (Some(mn), None) => {
            in_order_alone(rupees(mn));
            in_order_concat(none, opening + "from "@, seq![rupees(mn)], rupees(mn));
            assert(none + seq![rupees(mn)] =~= amounts(min, max));
        },
        (None, Some(mx)) => {
            in_order_alone(rupees(mx));
            in_order_concat(none, opening + "up to "@, seq![rupees(mx)], rupees(mx));
            assert(none + seq![rupees(mx)] =~= amounts(min, max));
        },
        (None, None) => {
            assert(amounts(min, max) =~= none);
        },
    }
}

/// A text behind the opening of a phrase, where it is known.
pub proof fn phrase_tells_the_text(opening: Seq<char>, text: Option<Seq<char>>, otherwise: Seq<char>)
    ensures
        in_order(if_known(text), text.unwrap_or(otherwise)),
        in_order(
            if_known(text),
            match text {
                Some(t) => opening + t,
                None => otherwise,
            },
        ),
{
    if let Some(t) = text {
        let none = Seq::<Seq<char>>::empty();
        in_order_alone(t);
        in_order_concat(none, opening, seq![t], t);
        assert(none + seq![t] =~= if_known(text));
    }
}

/// The bracket of an identifier holds the identifier.
pub proof fn id_bracket_tells_the_id(id: u128)
    ensures
        in_order(seq![id_text(id)], id_bracket(id)),
{
    let none = Seq::<Seq<char>>::empty();
    in_order_push(none, "[internal, do not say aloud: id "@, id_text(id), "]"@);
    assert(none.push(id_text(id)) =~= seq![id_text(id)]);
}

/// The texts of a client that the detail line gives, in their order.
pub open spec fn details(c: ClientView) -> Seq<Seq<char>> {
    seq![c.name] + seq![c.status] + if_known(c.phone) + seq![c.email] + amounts(
        c.budget_min,
        c.budget_max,
    ) + if_known(c.preferred_areas) + if_known(c.notes) + seq![id_text(c.id)]
}

/// The model sees nothing of a client but the detail line, so all that is known of the client
/// stands there: the name, the status, the phone number, the email address, the two ends of the
/// budget, the preferred areas, the notes and the identifier. The bracket with the identifier
/// closes the line.
pub proof fn detail_line_tells_all(c: ClientView)
    ensures
        in_order(details(c), detail_line(c)),
        id_bracket(c.id).is_suffix_of(detail_line(c)),
{
    let budget = budget_phrase(
        "a budget "@,
        "of "@,
        c.budget_min,
        c.budget_max,
        "no budget on file"@,
    );
    let areas = match c.preferred_areas {
        Some(areas) => "interested in "@ + areas,
        None => "no preferred areas yet"@,
    };
    let phone = c.phone.unwrap_or("no phone on file"@);
    let notes = c.notes.unwrap_or("no notes"@);

    let line = c.name;
    let told = seq![c.name];
    in_order_alone(c.name);

    in_order_extends(told, line, " ("@);
    let line = line + " ("@;
    in_order_alone(c.status);
    in_order_concat(told, line, seq![c.status], c.status);
    let told = told + seq![c.status];
    let line = line + c.status;

    in_order_extends(told, line, ") — phone "@);
    let line = line + ") — phone "@;
    phrase_tells_the_text(""@, c.phone, "no phone on file"@);
    in_order_concat(told, line, if_known(c.phone), phone);
    let told = told + if_known(c.phone);
    let line = line + phone;

    in_order_extends(told, line, ", email "@);
    let line = line + ", email "@;
    in_order_alone(c.email);
    in_order_concat(told, line, seq![c.email], c.email);
    let told = told + seq![c.email];
    let line = line + c.email;

    in_order_extends(told, line, ", "@);
    let line = line + ", "@;
    budget_phrase_tells_the_ends(
        "a budget "@,
        "of "@,
        c.budget_min,
        c.budget_max,
        "no budget on file"@,
    );
    in_order_concat(told, line, amounts(c.budget_min, c.budget_max), budget);
    let told = told + amounts(c.budget_min, c.budget_max);
    let line = line + budget;

    in_order_extends(told, line, ", "@);
    let line = line + ", "@;
    phrase_tells_the_text("interested in "@, c.preferred_areas, "no preferred areas yet"@);
    in_order_concat(told, line, if_known(c.preferred_areas), areas);
    let told = told + if_known(c.preferred_areas);
    let line = line + areas;

    in_order_extends(told, line, ". Notes: "@);
    let line = line + ". Notes: "@;
    phrase_tells_the_text(""@, c.notes, "no notes"@);
    in_order_concat(told, line, if_known(c.notes), notes);
    let told = told + if_known(c.notes);
    let line = line + notes;

    in_order_extends(told, line, ". "@);
    let line = line + ". "@;
    id_bracket_tells_the_id(c.id);
    in_order_concat(told, line, seq![id_text(c.id)], id_bracket(c.id));
    assert(detail_line(c) == line + id_bracket(c.id));
}

/// The texts of a client that the briefing gives, in their order: who they are, how long they have
/// been a prospect, what they are after, their budget and areas, and how to reach them.
pub open spec fn briefed(c: ClientView, now: TimestampView) -> Seq<Seq<char>> {
    seq![c.name] + seq![prospect_age(whole_days(now, c.created_at))] + seq![c.status] + seq![
        wants(c.notes),
    ] + amounts(c.budget_min, c.budget_max) + if_known(c.preferred_areas) + if_known(c.phone)
        + seq![c.email] + seq![id_text(c.id)]
}

/// The briefing tells who the client is, how long they have been a prospect, what they are after,
/// their budget, their areas and how to reach them, in this order.
pub proof fn briefing_tells_all(c: ClientView, now: TimestampView)
    ensures
        in_order(briefed(c, now), briefing(c, now)),
        id_bracket(c.id).is_suffix_of(briefing(c, now)),
{
    let age = prospect_age(whole_days(now, c.created_at));
    let budget = budget_phrase(
        "budget "@,
        ""@,
        c.budget_min,
        c.budget_max,
        "no budget on file yet"@,
    );
    let areas = match c.preferred_areas {
        Some(areas) => "prefers "@ + areas,
        None => "no preferred areas noted"@,
    };
    let phone = c.phone.unwrap_or("no phone on file"@);
    let none = Seq::<Seq<char>>::empty();

    let line = "Prep for "@;
    in_order_alone(c.name);
    in_order_concat(none, line, seq![c.name], c.name);
    let told = seq![c.name];
    assert(none + seq![c.name] =~= told);
    let line = line + c.name;

    in_order_extends(told, line, " — "@);
    let line = line + " — "@;
    in_order_alone(age);
    in_order_concat(told, line, seq![age], age);
    let told = told + seq![age];
    let line = line + age;

    in_order_extends(told, line, ", currently "@);
    let line = line + ", currently "@;
    in_order_alone(c.status);
    in_order_concat(told, line, seq![c.status], c.status);
    let told = told + seq![c.status];
    let line = line + c.status;

    in_order_extends(told, line, ". What they want: "@);
    let line = line + ". What they want: "@;
    in_order_alone(wants(c.notes));
    in_order_concat(told, line, seq![wants(c.notes)], wants(c.notes));
    let told = told + seq![wants(c.notes)];
    let line = line + wants(c.notes);

    in_order_extends(told, line, ". "@);
    let line = line + ". "@;
    budget_phrase_tells_the_ends(
        "budget "@,
        ""@,
        c.budget_min,
        c.budget_max,
        "no budget on file yet"@,
    );
    in_order_concat(told, line, amounts(c.budget_min, c.budget_max), budget);
    let told = told + amounts(c.budget_min, c.budget_max);
    let line = line + budget;

    in_order_extends(told, line, ". "@);
    let line = line + ". "@;
    phrase_tells_the_text("prefers "@, c.preferred_areas, "no preferred areas noted"@);
    in_order_concat(told, line, if_known(c.preferred_areas), areas);
    let told = told + if_known(c.preferred_areas);
    let line = line + areas;

    in_order_extends(told, line, ". Reach them on "@);
    let line = line + ". Reach them on "@;
    phrase_tells_the_text(""@, c.phone, "no phone on file"@);
    in_order_concat(told, line, if_known(c.phone), phone);
    let told = told + if_known(c.phone);
    let line = line + phone;

    in_order_extends(told, line, " or "@);
    let line = line + " or "@;
    in_order_alone(c.email);
    in_order_concat(told, line, seq![c.email], c.email);
    let told = told + seq![c.email];
    let line = line + c.email;

    in_order_extends(told, line, ". "@);
    let line = line + ". "@;
    id_bracket_tells_the_id(c.id);
    in_order_concat(told, line, seq![id_text(c.id)], id_bracket(c.id));
    assert(briefing(c, now) == line + id_bracket(c.id));
}

} // verus!
