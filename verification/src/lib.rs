//! Backend library for a desktop manager of command-line AI assistant
//! tools: it plans install/uninstall commands per platform, interprets
//! the outcomes of those commands, keeps a cache of tool status, stores
//! vendor credential profiles with at most one active profile per tool,
//! and merges the active profile into each tool's native configuration
//! document while preserving unrelated settings.

pub mod assoc;
pub mod config_parser;
pub mod document;
pub mod errors;
pub mod install_stream;
pub mod mcp;
pub mod platform;
pub mod settings;
pub mod shell;
pub mod text;
pub mod tool_cache_service;
pub mod tool;
pub mod tool_service;
pub mod vendor;
pub mod vendor_service;
