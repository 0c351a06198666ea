//! Dispatch of the tools that Gemini may call.
use vstd::prelude::*;

use crate::text::{push_str, str_equals};

verus! {

/// A tool call, resolved by name.
#[derive(Debug, Clone, Copy, PartialEq, Eq, Structural)]
pub enum ToolRequest {
    /// `get_system_diagnostics`: CPU, memory and disk health.
    SystemDiagnostics,
    /// `list_top_processes`: the heaviest processes, at most `limit` of them.
    TopProcesses { limit: usize },
    /// `check_network_status`: interfaces and host name.
    NetworkStatus,
    /// Any other name.
    Unknown,
}

/// The tool a call names; `list_top_processes` takes its `limit` argument, 5 when absent.
pub open spec fn tool_spec(name: Seq<char>, limit: Option<u64>) -> ToolRequest {
    if name == "get_system_diagnostics"@ {
        ToolRequest::SystemDiagnostics
    } else if name == "list_top_processes"@ {
        ToolRequest::TopProcesses {
            limit: (match limit {
                Some(n) => n,
                None => 5,
            }) as usize,
        }
    } else if name == "check_network_status"@ {
        ToolRequest::NetworkStatus
    } else {
        ToolRequest::Unknown
    }
}

/// Resolves a tool call from its name and its integer `limit` argument, if any.
pub fn select_tool(name: &str, limit: Option<u64>) -> (r: ToolRequest)
    ensures
        r == tool_spec(name@, limit),
{
    if str_equals(name, "get_system_diagnostics") {
        ToolRequest::SystemDiagnostics
    } else if str_equals(name, "list_top_processes") {
        let n: u64 = match limit {
            Some(n) => n,
            None => 5,
        };
        ToolRequest::TopProcesses { limit: n as usize }
    } else if str_equals(name, "check_network_status") {
        ToolRequest::NetworkStatus
    } else {
        ToolRequest::Unknown
    }
}

/// The error reported for a tool that does not exist.
pub fn unknown_tool_message(name: &str) -> (m: String)
    ensures
        m@ == "Tool '"@ + name@ + "' not found"@,
{
    let mut m = String::from_str("Tool '");
    push_str(&mut m, name);
    push_str(&mut m, "' not found");
    m
}

} // verus!
