//! Routing of slash-command interactions, and the error report shown when a
//! command fails.
use vstd::prelude::*;
use vstd::string::StringExecFns;
use crate::text::str_eq;

verus! {

/// The slash commands the bot answers.
#[derive(Clone, Copy, Debug, PartialEq, Eq, Structural)]
pub enum CommandKind {
    Japanese,
    Op,
    Sauce,
    Draw,
}

/// The command named `name`.
pub open spec fn command_kind_of(name: Seq<char>) -> Option<CommandKind> {
    if name == "japanese"@ {
        Some(CommandKind::Japanese)
    } else if name == "op"@ {
        Some(CommandKind::Op)
    } else if name == "sauce"@ {
        Some(CommandKind::Sauce)
    } else if name == "draw"@ {
        Some(CommandKind::Draw)
    } else {
        None
    }
}

/// The command named `name`; `None` for an unknown command.
pub fn command_kind(name: &str) -> (r: Option<CommandKind>)
    ensures
        r == command_kind_of(name@),
{
    if str_eq(name, "japanese") {
        Some(CommandKind::Japanese)
    } else if str_eq(name, "op") {
        Some(CommandKind::Op)
    } else if str_eq(name, "sauce") {
        Some(CommandKind::Sauce)
    } else if str_eq(name, "draw") {
        Some(CommandKind::Draw)
    } else {
        None
    }
}

/// The command whose option suggestions are asked for: only the dictionary
/// and the opening commands suggest.
pub fn autocomplete_kind(name: &str) -> (r: Option<CommandKind>)
    ensures
        r == match command_kind_of(name@) {
            Some(CommandKind::Japanese) => Some(CommandKind::Japanese),
            Some(CommandKind::Op) => Some(CommandKind::Op),
            _ => None,
        },
{
    match command_kind(name) {
        Some(CommandKind::Japanese) => Some(CommandKind::Japanese),
        Some(CommandKind::Op) => Some(CommandKind::Op),
        _ => None,
    }
}

/// The draw command's options: what to draw.
pub struct DrawCommand {
    pub list: String,
}

/// The answer shown when a command failed: an apology with a sad emoji, and
/// the error in a code block.
pub open spec fn error_report_text(emoji: Seq<char>, error: Seq<char>) -> Seq<char> {
    "An error occurred, it has been reported and will be fixed soon "@ + emoji + "\n```\n"@ + error
        + "\n```"@
}

/// The answer shown when a command failed (see [`error_report_text`]).
pub fn error_report(emoji: &str, error: &str) -> (r: String)
    ensures
        r@ == error_report_text(emoji@, error@),
{
    let mut out = String::from_str("An error occurred, it has been reported and will be fixed soon ");
    out.append(emoji);
    out.append("\n```\n");
    out.append(error);
    out.append("\n```");
    out
}

/// The answer when a search found nothing to show, with a sad emoji; a
/// paginated reply needs at least one page, so this is sent instead.
pub open spec fn no_results_text(emoji: Seq<char>) -> Seq<char> {
    "No results were found "@ + emoji
}

/// The answer when a search found nothing (see [`no_results_text`]).
pub fn no_results_message(emoji: &str) -> (r: String)
    ensures
        r@ == no_results_text(emoji@),
{
    let mut out = String::from_str("No results were found ");
    out.append(emoji);
    out
}

} // verus!
