pub mod score_helper;
