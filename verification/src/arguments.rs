//! The arguments of a tool call: the members of the JSON object that the model sends.

use crate::text::text_view;
use vstd::prelude::*;

verus! {

/// What a member of a JSON object holds, as far as the tools can read it.
pub enum Member {
    /// A string.
    Text(Seq<char>),
    /// A number between the least and the greatest `i64` that is written as an integer: without a
    /// fraction, without an exponent, and not as a negative zero.
    Integer(i64),
    /// Anything else: null, a boolean, any other number, a list or an object.
    Other,
}

/// The text that a member holds, if there is such a member and it holds a text.
pub open spec fn text_member(members: Map<Seq<char>, Member>, key: Seq<char>) -> Option<Seq<char>> {
    if members.contains_key(key) {
        match members[key] {
            Member::Text(text) => Some(text),
            _ => None,
        }
    } else {
        None
    }
}

/// The integer that a member holds, if there is such a member and it holds one.
pub open spec fn integer_member(members: Map<Seq<char>, Member>, key: Seq<char>) -> Option<i64> {
    if members.contains_key(key) {
        match members[key] {
            Member::Integer(n) => Some(n),
            _ => None,
        }
    } else {
        None
    }
}

/// A JSON value of `serde_json`.
#[verifier::external_type_specification]
#[verifier::external_body]
pub struct ExValue(serde_json::Value);

/// The members of a JSON value: those of an object, and none of any other value.
pub uninterp spec fn value_members(value: serde_json::Value) -> Map<Seq<char>, Member>;

/// What `serde_json::from_str` makes of a text: the members of the value that it holds, or the
/// message of the error where it holds none.
pub uninterp spec fn parsed_members(text: Seq<char>) -> Result<Map<Seq<char>, Member>, Seq<char>>;

/// The members of a value that was read, or the message where reading failed.
pub open spec fn read_members(value: Result<serde_json::Value, String>) -> Result<
    Map<Seq<char>, Member>,
    Seq<char>,
> {
    match value {
        Ok(value) => Ok(value_members(value)),
        Err(message) => Err(message@),
    }
}

/// `serde_json::from_str` into a `serde_json::Value`, with an error turned into its message. The
/// result is the one that `parsed_members` names.
#[verifier::external_body]
fn parse(text: &str) -> (value: Result<serde_json::Value, String>)
    ensures
        read_members(value) == parsed_members(text@),
{
    serde_json::from_str(text).map_err(|error: serde_json::Error| error.to_string())
}

/// `serde_json::Value::as_str` of the member at `key`: the text of that member, and nothing where
/// the value is no object, or has no such member, or holds no text there.
#[verifier::external_body]
fn text_at(value: &serde_json::Value, key: &str) -> (text: Option<String>)
    ensures
        text_view(text) == text_member(value_members(*value), key@),
{
    value[key].as_str().map(|text| text.to_string())
}

/// `serde_json::Value::as_i64` of the member at `key`: the number of that member, and nothing
/// where the value is no object, or has no such member, or holds no such number there.
#[verifier::external_body]
fn integer_at(value: &serde_json::Value, key: &str) -> (n: Option<i64>)
    ensures
        n == integer_member(value_members(*value), key@),
{
    value[key].as_i64()
}

/// The arguments that the tools know, each of them where the call gives it.
pub struct Arguments {
    pub client_id: Option<String>,
    pub name: Option<String>,
    pub phone: Option<String>,
    pub email: Option<String>,
    pub notes: Option<String>,
    pub budget_min: Option<i64>,
    pub budget_max: Option<i64>,
    pub preferred_areas: Option<String>,
    pub status: Option<String>,
    pub requirements: Option<String>,
    pub area: Option<String>,
}

/// The mathematical value of the arguments.
pub struct ArgumentsView {
    pub client_id: Option<Seq<char>>,
    pub name: Option<Seq<char>>,
    pub phone: Option<Seq<char>>,
    pub email: Option<Seq<char>>,
    pub notes: Option<Seq<char>>,
    pub budget_min: Option<i64>,
    pub budget_max: Option<i64>,
    pub preferred_areas: Option<Seq<char>>,
    pub status: Option<Seq<char>>,
    pub requirements: Option<Seq<char>>,
    pub area: Option<Seq<char>>,
}

impl View for Arguments {
    type V = ArgumentsView;

    open spec fn view(&self) -> ArgumentsView {
        ArgumentsView {
            client_id: text_view(self.client_id),
            name: text_view(self.name),
            phone: text_view(self.phone),
            email: text_view(self.email),
            notes: text_view(self.notes),
            budget_min: self.budget_min,
            budget_max: self.budget_max,
            preferred_areas: text_view(self.preferred_areas),
            status: text_view(self.status),
            requirements: text_view(self.requirements),
            area: text_view(self.area),
        }
    }
}

/// The arguments that the members of an object give.
pub open spec fn arguments_of(members: Map<Seq<char>, Member>) -> ArgumentsView {
    ArgumentsView {
        client_id: text_member(members, "client_id"@),
        name: text_member(members, "name"@),
        phone: text_member(members, "phone"@),
        email: text_member(members, "email"@),
        notes: text_member(members, "notes"@),
        budget_min: integer_member(members, "budget_min"@),
        budget_max: integer_member(members, "budget_max"@),
        preferred_areas: text_member(members, "preferred_areas"@),
        status: text_member(members, "status"@),
        requirements: text_member(members, "requirements"@),
        area: text_member(members, "area"@),
    }
}

impl Arguments {
    /// Reads the arguments from the text of a call, or says why the text is no JSON.
    pub fn read(text: &str) -> (arguments: Result<Arguments, String>)
        ensures
            match parsed_members(text@) {
                Ok(members) => arguments matches Ok(a) && a@ == arguments_of(members),
                Err(message) => arguments matches Err(m) && m@ == message,
            },
    {
        match parse(text) {
            Ok(value) => Ok(
                Arguments {
                    client_id: text_at(&value, "client_id"),
                    name: text_at(&value, "name"),
                    phone: text_at(&value, "phone"),
                    email: text_at(&value, "email"),
                    notes: text_at(&value, "notes"),
                    budget_min: integer_at(&value, "budget_min"),
                    budget_max: integer_at(&value, "budget_max"),
                    preferred_areas: text_at(&value, "preferred_areas"),
                    status: text_at(&value, "status"),
                    requirements: text_at(&value, "requirements"),
                    area: text_at(&value, "area"),
                },
            ),
            Err(message) => Err(message),
        }
    }
}

} // verus!
