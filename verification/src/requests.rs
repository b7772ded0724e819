//! What the tools ask the database for.

use crate::text::text_view;
use vstd::prelude::*;

verus! {

/// A client to be added.
pub struct NewClient {
    pub name: String,
    pub phone: String,
    pub email: String,
    pub notes: String,
    pub budget_min: Option<i64>,
    pub budget_max: Option<i64>,
    pub preferred_areas: Option<String>,
}

/// The mathematical value of a client to be added.
pub struct NewClientView {
    pub name: Seq<char>,
    pub phone: Seq<char>,
    pub email: Seq<char>,
    pub notes: Seq<char>,
    pub budget_min: Option<i64>,
    pub budget_max: Option<i64>,
    pub preferred_areas: Option<Seq<char>>,
}

impl View for NewClient {
    type V = NewClientView;

    open spec fn view(&self) -> NewClientView {
        NewClientView {
            name: self.name@,
            phone: self.phone@,
            email: self.email@,
            notes: self.notes@,
            budget_min: self.budget_min,
            budget_max: self.budget_max,
            preferred_areas: text_view(self.preferred_areas),
        }
    }
}

/// The stages of a search by name, in the order in which they are tried.
#[derive(Clone, Copy, Debug, PartialEq, Eq, Structural)]
pub enum SearchStage {
    /// Names that sound alike.
    Phonetic,
    /// Names that share enough groups of three letters.
    Trigram,
    /// Names that hold the text, in upper or lower case.
    Substring,
}

/// What the clients that a search by name finds are wanted for.
#[derive(Clone, Copy, Debug, PartialEq, Eq, Structural)]
pub enum Purpose {
    /// To tell who they are.
    Details,
    /// To brief the realtor.
    Briefing,
}

/// A search by name, at one of its stages.
pub struct NameSearch {
    pub purpose: Purpose,
    pub stage: SearchStage,
    pub name: String,
}

/// The mathematical value of a search by name.
pub struct NameSearchView {
    pub purpose: Purpose,
    pub stage: SearchStage,
    pub name: Seq<char>,
}

impl View for NameSearch {
    type V = NameSearchView;

    open spec fn view(&self) -> NameSearchView {
        NameSearchView { purpose: self.purpose, stage: self.stage, name: self.name@ }
    }
}

/// A search without a name: the filters that are given, all of which have to hold, and how the
/// requirements are matched (as a full-text query, or as a substring of the notes or the preferred
/// areas).
pub struct FilterSearch {
    pub requirements: Option<String>,
    pub budget_min: Option<i64>,
    pub budget_max: Option<i64>,
    pub area: Option<String>,
    pub full_text: bool,
}

/// The mathematical value of a search without a name.
pub struct FilterSearchView {
    pub requirements: Option<Seq<char>>,
    pub budget_min: Option<i64>,
    pub budget_max: Option<i64>,
    pub area: Option<Seq<char>>,
    pub full_text: bool,
}

impl View for FilterSearch {
    type V = FilterSearchView;

    open spec fn view(&self) -> FilterSearchView {
        FilterSearchView {
            requirements: text_view(self.requirements),
            budget_min: self.budget_min,
            budget_max: self.budget_max,
            area: text_view(self.area),
            full_text: self.full_text,
        }
    }
}

/// The fields of a client that are to change; those that are not given keep their values.
pub struct ClientChanges {
    pub id: u128,
    pub name: Option<String>,
    pub email: Option<String>,
    pub phone: Option<String>,
    pub budget_min: Option<i64>,
    pub budget_max: Option<i64>,
    pub preferred_areas: Option<String>,
    pub notes: Option<String>,
    pub status: Option<String>,
}

/// The mathematical value of the changes to a client.
pub struct ClientChangesView {
    pub id: u128,
    pub name: Option<Seq<char>>,
    pub email: Option<Seq<char>>,
    pub phone: Option<Seq<char>>,
    pub budget_min: Option<i64>,
    pub budget_max: Option<i64>,
    pub preferred_areas: Option<Seq<char>>,
    pub notes: Option<Seq<char>>,
    pub status: Option<Seq<char>>,
}

impl View for ClientChanges {
    type V = ClientChangesView;

    open spec fn view(&self) -> ClientChangesView {
        ClientChangesView {
            id: self.id,
            name: text_view(self.name),
            email: text_view(self.email),
            phone: text_view(self.phone),
            budget_min: self.budget_min,
            budget_max: self.budget_max,
            preferred_areas: text_view(self.preferred_areas),
            notes: text_view(self.notes),
            status: text_view(self.status),
        }
    }
}

} // verus!
