//! The runtime's built-in tools: their names, mode rules, argument parsing
//! and the decisions they take before touching the file system or a process.
pub mod browser_preview_tool;
pub mod code_intelligence_tools;
pub mod execute_command_tool;
pub mod file_tools;
pub mod search_tools;
pub mod batch_tools;
