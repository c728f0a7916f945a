pub mod config;
pub mod dispatch;
pub mod parse;
pub mod rules;
