//! Request handling, parsing and state logic for a small family of web,
//! chat and desktop programs, with contracts proved by Verus.

pub mod avatar;
pub mod chat;
pub mod cli;
pub mod digest;
pub mod docs;
pub mod edge;
pub mod files;
pub mod repos;
pub mod site;
pub mod text;
pub mod voices;
