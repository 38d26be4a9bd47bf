//! Chat commands: classifying an inbound message into a command or a
//! free-form query.

use vstd::prelude::*;
use crate::strfmt::{eq_ci, spec_trim, str_eq_ci, str_trim};

verus! {

/// An inbound chat message.
#[derive(Clone, Debug)]
pub struct ChatRequest {
    pub message: String,
}

/// An outbound chat reply.
#[derive(Clone, Debug)]
pub struct ChatResponse {
    pub response: String,
    pub response_type: String,
}

/// A chat exchange, ready to persist.
#[derive(Clone, Debug)]
pub struct ChatMessage {
    pub timestamp: String,
    pub user_message: String,
    pub ai_response: String,
    pub response_type: String,
}

/// What an inbound message asks for.
#[derive(Clone, Copy, Debug, PartialEq, Eq, Structural)]
pub enum ChatCommand {
    Help,
    Status,
    Nodes,
    Pods,
    Events,
    Argocd,
    Backups,
    Namespaces,
    Pvcs,
    Unknown,
    Query,
}

/// The command a message denotes: slash commands are matched trimmed and
/// case-insensitively; an unrecognised slash command is `Unknown`; any
/// other text is a free-form `Query`.
pub open spec fn spec_parse_command(m: Seq<char>) -> ChatCommand {
    let t = spec_trim(m);
    if t.len() == 0 || t[0] != '/' {
        ChatCommand::Query
    } else if eq_ci(t, "/help"@) {
        ChatCommand::Help
    } else if eq_ci(t, "/status"@) {
        ChatCommand::Status
    } else if eq_ci(t, "/nodes"@) {
        ChatCommand::Nodes
    } else if eq_ci(t, "/pods"@) {
        ChatCommand::Pods
    } else if eq_ci(t, "/events"@) {
        ChatCommand::Events
    } else if eq_ci(t, "/argocd"@) {
        ChatCommand::Argocd
    } else if eq_ci(t, "/backups"@) {
        ChatCommand::Backups
    } else if eq_ci(t, "/namespaces"@) {
        ChatCommand::Namespaces
    } else if eq_ci(t, "/pvcs"@) {
        ChatCommand::Pvcs
    } else {
        ChatCommand::Unknown
    }
}

/// Classifies an inbound chat message.
pub fn parse_command(message: &str) -> (c: ChatCommand)
    ensures
        c == spec_parse_command(message@),
{
    let t = str_trim(message);
    let n = t.as_str().unicode_len();
    if n == 0 || t.as_str().get_char(0) != '/' {
        return ChatCommand::Query;
    }
    if str_eq_ci(t.as_str(), "/help") {
        ChatCommand::Help
    } else if str_eq_ci(t.as_str(), "/status") {
        ChatCommand::Status
    } else if str_eq_ci(t.as_str(), "/nodes") {
        ChatCommand::Nodes
    } else if str_eq_ci(t.as_str(), "/pods") {
        ChatCommand::Pods
    } else if str_eq_ci(t.as_str(), "/events") {
        ChatCommand::Events
    } else if str_eq_ci(t.as_str(), "/argocd") {
        ChatCommand::Argocd
    } else if str_eq_ci(t.as_str(), "/backups") {
        ChatCommand::Backups
    } else if str_eq_ci(t.as_str(), "/namespaces") {
        ChatCommand::Namespaces
    } else if str_eq_ci(t.as_str(), "/pvcs") {
        ChatCommand::Pvcs
    } else {
        ChatCommand::Unknown
    }
}

} // verus!
