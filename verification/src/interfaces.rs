//! The command line, the tool protocol and the settings of the process.
pub mod arguments;
pub mod cli_args;
pub mod cli_handlers;
pub mod cli_usage;
pub mod mcp_handlers;
pub mod mcp_tools;
pub mod report;
pub mod runtime;
