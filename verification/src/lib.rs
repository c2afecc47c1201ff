//! The verified core of the Amber compiler: command line handling, shell
//! selection, postprocessing, token caches, type checks of the builtins,
//! failure handlers, if chains, command modifiers and the command line
//! parameter parser that compiled scripts carry.

pub mod file_source;
pub mod flag_registry;
pub mod text;
pub mod postprocess;
pub mod compiler;
pub mod shell_resolve;
pub mod types;
pub mod builtins;
pub mod builtin_code;
pub mod cli_param;
pub mod control_flow;
pub mod modifier;
pub mod block;
pub mod cache;
pub mod cli;
pub mod commands;
pub mod docs;
pub mod handler_parse;
pub mod command;
pub mod keywords;
pub mod conditions;
pub mod doc_output;
