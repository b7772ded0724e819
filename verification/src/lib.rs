//! The client desk of a real estate agency: the tools by which a language model adds, finds,
//! changes and lists clients, and briefs the realtor on them.
//!
//! A call of a tool is a course of steps. [`tools::Tool::start`] reads the text that the model
//! sends and gives the first [`step::Step`]: an answer, or a request to the database, whose SQL
//! and values [`statement`] puts together. What the database replies goes to the function that
//! fits the request ([`add::client_added`], [`find::stage_replied`], [`search::search_replied`],
//! [`update::client_updated`], [`list::clients_listed`]), which gives the next step, until one of
//! them is the answer.
//!
//! What the model is told of the tools stands in [`schema`]. What holds of whole calls stands in
//! [`course`]; what the calls make of the table of clients, in [`table`]; and what they tell of
//! it, in [`lookup`]. What a call makes of what it is given stands in [`intake`], what its
//! statements mean in [`meaning`], and what its answers read as in [`wording`].

pub mod add;
pub mod arguments;
pub mod client;
pub mod clock;
pub mod course;
pub mod find;
pub mod ident;
pub mod intake;
pub mod json;
pub mod list;
pub mod lookup;
pub mod meaning;
pub mod pattern;
pub mod requests;
pub mod schema;
pub mod search;
pub mod selection;
pub mod server;
pub mod statement;
pub mod step;
pub mod table;
pub mod text;
pub mod tools;
pub mod update;
pub mod views;
pub mod wording;
