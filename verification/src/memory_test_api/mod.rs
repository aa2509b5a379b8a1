//! The local validation service for the memory system: its scenarios, the
//! admission and outcome rules of its HTTP API, the harness's bookkeeping, the
//! line protocol, and the guard against the production database.

use vstd::prelude::*;

pub mod api;
pub mod harness;
pub mod scenarios;
pub mod temp_db;

verus! {

/// The line announcing that the service is ready.
pub fn ready_line() -> (r: &'static str)
    ensures
        r@ == "{\"event\":\"ready\",\"host\":\"127.0.0.1\",\"port\":0,\"api_version\":1}"@,
{
    "{\"event\":\"ready\",\"host\":\"127.0.0.1\",\"port\":0,\"api_version\":1}"
}

/// The answer to one line of the line protocol.
pub struct CommandReply {
    /// The line to print, if any.
    pub reply: Option<&'static str>,
    /// Whether the service stops after this line.
    pub stop: bool,
}

/// The answer to a command line of the line protocol: `health` reports the
/// mode, `shutdown` acknowledges and stops, an empty line is ignored, anything
/// else is an unknown command. The line is trimmed first.
pub fn handle_command(line: &str) -> (r: CommandReply)
    ensures
        ({
            let c = crate::text::trim(line@);
            if c == "health"@ {
                r.reply matches Some(m) && m@ == "{\"ok\":true,\"mode\":\"scripted\",\"api_version\":1}"@
                    && !r.stop
            } else if c == "shutdown"@ {
                r.reply matches Some(m) && m@ == "{\"ok\":true}"@ && r.stop
            } else if c.len() > 0 {
                r.reply matches Some(m) && m@ == "{\"ok\":false,\"error\":\"unknown_command\"}"@
                    && !r.stop
            } else {
                r.reply is None && !r.stop
            }
        }),
{
    let command = crate::text::trim_str(line);
    if crate::text::str_eq(command.as_str(), "health") {
        CommandReply {
            reply: Some("{\"ok\":true,\"mode\":\"scripted\",\"api_version\":1}"),
            stop: false,
        }
    } else if crate::text::str_eq(command.as_str(), "shutdown") {
        CommandReply { reply: Some("{\"ok\":true}"), stop: true }
    } else if command.unicode_len() > 0 {
        CommandReply { reply: Some("{\"ok\":false,\"error\":\"unknown_command\"}"), stop: false }
    } else {
        CommandReply { reply: None, stop: false }
    }
}

} // verus!
