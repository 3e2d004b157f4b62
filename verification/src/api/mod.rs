pub mod match_client;
pub mod text;
