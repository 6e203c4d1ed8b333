//! The commands of a session, as the parser hands them over.

use vstd::prelude::*;

verus! {

/// A parsed command. Amounts are whole numbers of the smallest currency
/// unit and are taken as given: zero and negative amounts are commands like
/// any other.
#[derive(Debug, PartialEq, Eq)]
pub enum Command {
    /// `login <name>`
    Login { name: String },
    /// `logout`
    Logout,
    /// `deposit <amount>`
    Deposit { amount: i64 },
    /// `withdraw <amount>`
    Withdraw { amount: i64 },
    /// `transfer <amount> <to>`
    Transfer { amount: i64, to: String },
    /// A line that is no command, with the parser's message about it.
    Unparseable { message: String },
}

/// A command as plain values.
pub enum CommandView {
    Login { name: Seq<char> },
    Logout,
    Deposit { amount: int },
    Withdraw { amount: int },
    Transfer { amount: int, to: Seq<char> },
    Unparseable { message: Seq<char> },
}

impl View for Command {
    type V = CommandView;

    open spec fn view(&self) -> CommandView {
        match *self {
            Command::Login { name } => CommandView::Login { name: name@ },
            Command::Logout => CommandView::Logout,
            Command::Deposit { amount } => CommandView::Deposit { amount: amount as int },
            Command::Withdraw { amount } => CommandView::Withdraw { amount: amount as int },
            Command::Transfer { amount, to } => CommandView::Transfer {
                amount: amount as int,
                to: to@,
            },
            Command::Unparseable { message } => CommandView::Unparseable { message: message@ },
        }
    }
}

/// The command keywords, in the order in which completion offers them.
pub open spec fn vocabulary() -> Seq<Seq<char>> {
    seq!["login"@, "logout"@, "deposit"@, "withdraw"@, "transfer"@]
}

impl Command {
    /// The keywords that the line editor completes.
    pub fn variants() -> (names: &'static [&'static str])
        ensures
            names@.map_values(|w: &str| w@) == vocabulary(),
    {
        let names: &'static [&'static str] = &["login", "logout", "deposit", "withdraw", "transfer"];
        assert(names@.map_values(|w: &str| w@) =~= vocabulary());
        names
    }
}

} // verus!
