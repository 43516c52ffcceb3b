//! Verified command, model and code-generation logic of the Operit runtime.
#![allow(non_snake_case)]

pub mod text;
pub mod order;
pub mod num;
pub mod model;
pub mod output;
pub mod path;
pub mod link_access;
pub mod local_model_storage;
pub mod local_model_registry;
pub mod core_stream;
pub mod local_model_provider;
pub mod sherpa_output;
pub mod remote;
pub mod discovery;
pub mod space_sync;
pub mod codegen;
pub mod declarations;
pub mod commands;
pub mod oauth_callback;
pub mod declaration_catalog;
pub mod rust_source;
pub mod declaration_module;
pub mod declaration_scope;
pub mod declaration_types;
