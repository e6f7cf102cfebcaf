//! Verified core of a Windows desktop-control MCP server: macro manifests and
//! their dry-run plans, the desktop controller that guards sensitive actions,
//! the client registry and redacted request history, HTTP authorization, the
//! server configuration and command line, the registries of launched processes
//! and of bound windows, the predicates and failure reports of the assertion tools, and the
//! decisions of the dialog, browser, capture and build tools.

pub mod bounded;
pub mod text;
pub mod json;
pub mod pattern;
pub mod manifest;
pub mod requests;
pub mod control;
pub mod observability;
pub mod http;
pub mod config;
pub mod checks;
pub mod capture;
pub mod diagnostics;
pub mod desktop;
pub mod crash;
pub mod file_checks;
pub mod registry_checks;
pub mod launches;
pub mod bindings;
