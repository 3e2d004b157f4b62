//! Verified core of the football-data match importer: the match model, the
//! team and score normalisation applied before a match is stored, the
//! per-match import decision, and the date window of the incremental import.

pub mod api;
pub mod service;
pub mod window;
