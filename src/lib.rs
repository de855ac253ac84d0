//! A small client library for a GraphQL issue tracker: configuration of
//! organizations, request building, response interpretation, issue
//! formatting and template expansion.

pub mod priority;
pub mod text;
pub mod config;
pub mod request;
pub mod order;
pub mod team;
pub mod viewer;
pub mod issue;
pub mod template;

pub use config::Config;
pub use issue::{Comment, Issue};
pub use priority::Priority;
pub use request::Gql;
pub use team::{Project, ProjectNode, State, StateNode, Team};
pub use viewer::Viewer;
