//! JSON documents, as the tools hand them out.

use vstd::prelude::*;

verus! {

/// A JSON document. The members of an object stand in the order in which they were put in.
pub enum Json {
    Null,
    Integer(i64),
    Text(String),
    List(Vec<Json>),
    Object(Vec<(String, Json)>),
}

/// The mathematical value of a JSON document.
pub enum JsonView {
    Null,
    Integer(int),
    Text(Seq<char>),
    List(Seq<JsonView>),
    Object(Seq<(Seq<char>, JsonView)>),
}

/// The value of a document.
pub open spec fn document(json: Json) -> JsonView
    decreases json,
{
    match json {
        Json::Null => JsonView::Null,
        Json::Integer(n) => JsonView::Integer(n as int),
        Json::Text(text) => JsonView::Text(text@),
        Json::List(items) => JsonView::List(documents(items@)),
        Json::Object(members) => JsonView::Object(member_documents(members@)),
    }
}

/// The values of the items of a list.
pub open spec fn documents(items: Seq<Json>) -> Seq<JsonView>
    decreases items,
{
    Seq::new(
        items.len(),
        |i: int|
            if 0 <= i < items.len() {
                document(items[i])
            } else {
                JsonView::Null
            },
    )
}

/// The keys and values of the members of an object.
pub open spec fn member_documents(members: Seq<(String, Json)>) -> Seq<(Seq<char>, JsonView)>
    decreases members,
{
    Seq::new(
        members.len(),
        |i: int|
            if 0 <= i < members.len() {
                (members[i].0@, document(members[i].1))
            } else {
                (Seq::empty(), JsonView::Null)
            },
    )
}

impl View for Json {
    type V = JsonView;

    open spec fn view(&self) -> JsonView {
        document(*self)
    }
}

/// An optional text as JSON: the text, or null.
pub open spec fn optional_text(text: Option<Seq<char>>) -> JsonView {
    match text {
        Some(t) => JsonView::Text(t),
        None => JsonView::Null,
    }
}

/// An optional number as JSON: the number, or null.
pub open spec fn optional_integer(n: Option<i64>) -> JsonView {
    match n {
        Some(n) => JsonView::Integer(n as int),
        None => JsonView::Null,
    }
}

/// The members of an object that is being put together.
pub struct Members {
    members: Vec<(String, Json)>,
}

impl View for Members {
    type V = Seq<(Seq<char>, JsonView)>;

    closed spec fn view(&self) -> Seq<(Seq<char>, JsonView)> {
        Seq::new(
            self.members@.len(),
            |i: int| (self.members@[i].0@, self.members@[i].1@),
        )
    }
}

impl Members {
    /// No members yet.
    pub fn new() -> (empty: Members)
        ensures
            empty@ == Seq::<(Seq<char>, JsonView)>::empty(),
    {
        Members { members: Vec::new() }
    }

    /// The members, and one more at the end.
    pub fn with(self, key: &str, value: Json) -> (longer: Members)
        ensures
            longer@ == self@.push((key@, value@)),
    {
        let mut members = self.members;
        members.push((key.to_string(), value));
        let longer = Members { members };
        assert(longer@ =~= self@.push((key@, value@)));
        longer
    }

    /// The object that has these members.
    pub fn object(self) -> (object: Json)
        ensures
            object@ == JsonView::Object(self@),
    {
        let ghost members = self@;
        let object = Json::Object(self.members);
        assert(member_documents(self.members@) =~= members);
        object
    }
}

impl Json {
    /// A text as JSON.
    pub fn text(text: &str) -> (json: Json)
        ensures
            json@ == JsonView::Text(text@),
    {
        Json::Text(text.to_string())
    }

    /// An optional text as JSON: the text, or null.
    pub fn optional_text(text: &Option<String>) -> (json: Json)
        ensures
            json@ == optional_text(crate::text::text_view(*text)),
    {
        match text {
            Some(t) => Json::Text(t.clone()),
            None => Json::Null,
        }
    }

    /// An optional number as JSON: the number, or null.
    pub fn optional_integer(n: Option<i64>) -> (json: Json)
        ensures
            json@ == optional_integer(n),
    {
        match n {
            Some(n) => Json::Integer(n),
            None => Json::Null,
        }
    }

    /// A list of documents as one document.
    pub fn list(items: Vec<Json>) -> (json: Json)
        ensures
            json@ == JsonView::List(items@.map_values(|item: Json| item@)),
    {
        let json = Json::List(items);
        assert(documents(items@) =~= items@.map_values(|item: Json| item@));
        json
    }
}

} // verus!
