//! Recognising the bot's commands in the (lower-cased) text of a message.

use vstd::prelude::*;

verus! {

/// A command of the bot; `Other` is any text that names none of them.
#[derive(Clone, Copy, Debug, PartialEq, Eq, Structural)]
pub enum Command {
    Casino,
    Darts,
    Dice,
    Help,
    GenOffice,
    GenZavod,
    Mail,
    SetMail,
    Shutdown,
    Version,
    Subscribe,
    Unsubscribe,
    SubscriptionStatus,
    Other,
}

/// The command that a lower-cased message text names.
pub open spec fn command_of(lower: Seq<char>) -> Command {
    if lower == "/casino"@ {
        Command::Casino
    } else if lower == "/darts"@ {
        Command::Darts
    } else if lower == "/dice"@ {
        Command::Dice
    } else if lower == "/help"@ || lower == "/start"@ {
        Command::Help
    } else if lower == "/genoffice"@ {
        Command::GenOffice
    } else if lower == "/genzavod"@ {
        Command::GenZavod
    } else if lower == "/msg"@ {
        Command::Mail
    } else if lower == "/setmail"@ {
        Command::SetMail
    } else if lower == "/shutdown"@ {
        Command::Shutdown
    } else if lower == "/version"@ {
        Command::Version
    } else if lower == "/subscribe"@ {
        Command::Subscribe
    } else if lower == "/unsubscribe"@ {
        Command::Unsubscribe
    } else if lower == "/subscription_status"@ {
        Command::SubscriptionStatus
    } else {
        Command::Other
    }
}

impl Command {
    /// The commands that are answered before a pending e-mail address is
    /// looked for: while the bot waits for an address, these still work, and
    /// any other text is taken as the address.
    pub open spec fn precedes_mail_entry(self) -> bool {
        match self {
            Command::Casino | Command::Darts | Command::Dice | Command::Help
            | Command::GenOffice | Command::GenZavod | Command::Mail => true,
            _ => false,
        }
    }
}

fn is(text: &String, literal: &str) -> (r: bool)
    ensures
        r == (text@ == literal@),
{
    let l = String::from_str(literal);
    *text == l
}

/// Recognises the command that a lower-cased message text names.
pub fn classify(lower: &String) -> (c: Command)
    ensures
        c == command_of(lower@),
{
    if is(lower, "/casino") {
        Command::Casino
    } else if is(lower, "/darts") {
        Command::Darts
    } else if is(lower, "/dice") {
        Command::Dice
    } else if is(lower, "/help") || is(lower, "/start") {
        Command::Help
    } else if is(lower, "/genoffice") {
        Command::GenOffice
    } else if is(lower, "/genzavod") {
        Command::GenZavod
    } else if is(lower, "/msg") {
        Command::Mail
    } else if is(lower, "/setmail") {
        Command::SetMail
    } else if is(lower, "/shutdown") {
        Command::Shutdown
    } else if is(lower, "/version") {
        Command::Version
    } else if is(lower, "/subscribe") {
        Command::Subscribe
    } else if is(lower, "/unsubscribe") {
        Command::Unsubscribe
    } else if is(lower, "/subscription_status") {
        Command::SubscriptionStatus
    } else {
        Command::Other
    }
}

} // verus!
