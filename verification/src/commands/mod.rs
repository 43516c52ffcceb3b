//! Argument grammars, usage texts and row formats of the core commands.
pub mod chat;
pub mod market;
pub mod storage;
pub mod model_cmd;
pub mod local_models;
pub mod package;
pub mod link_cli;
pub mod link_request;
pub mod market_install;
pub mod market_pages;
pub mod market_publish;
