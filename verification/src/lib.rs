//! Verified core of the daily dashboard.
pub mod dictionary;
pub mod greeting;
pub mod input;
pub mod inspiration;
pub mod json;
pub mod layout;
pub mod news;
pub mod panel;
pub mod picture;
pub mod seqs;
pub mod settings;
pub mod status;
pub mod text;
pub mod urls;
pub mod weather;
pub mod wikipedia;
