//! The session state machine: which commands are valid before and after
//! login, and what each of them does to the ledger.

use crate::command::{Command, CommandView};
use crate::ledger::{deposited, transferred, withdrawn, Ledger, LedgerError};
use crate::text::same_text;
use vstd::prelude::*;
use vstd::string::*;

verus! {

/// The answer to one command.
#[derive(Debug, PartialEq, Eq)]
pub enum Response {
    /// The user is now logged in.
    LoggedIn { user: String },
    /// A command other than `login` came while nobody was logged in.
    NotLoggedIn,
    /// `login` came while `user` was logged in; `user` still is.
    AlreadyLoggedIn { user: String },
    /// The user has logged out; the session is over.
    LoggedOut,
    /// `amount` was added; `balance` is the new balance.
    Deposited { amount: i64, balance: i64 },
    /// `amount` was taken; `balance` is the new balance.
    Withdrew { amount: i64, balance: i64 },
    /// `amount` went to `to`; `balance` is the sender's new balance.
    Transferred { amount: i64, to: String, balance: i64 },
    /// The amount is larger than the balance, which is still `balance`.
    InsufficientFunds { balance: i64 },
    /// A balance would leave the range that the ledger holds; the user's
    /// balance is still `balance`.
    OutOfRange { balance: i64 },
    /// The line was no command; `message` says why.
    ParseError { message: String },
}

/// A response as plain values.
pub enum ResponseView {
    LoggedIn { user: Seq<char> },
    NotLoggedIn,
    AlreadyLoggedIn { user: Seq<char> },
    LoggedOut,
    Deposited { amount: int, balance: int },
    Withdrew { amount: int, balance: int },
    Transferred { amount: int, to: Seq<char>, balance: int },
    InsufficientFunds { balance: int },
    OutOfRange { balance: int },
    ParseError { message: Seq<char> },
}

impl View for Response {
    type V = ResponseView;

    open spec fn view(&self) -> ResponseView {
        match *self {
            Response::LoggedIn { user } => ResponseView::LoggedIn { user: user@ },
            Response::NotLoggedIn => ResponseView::NotLoggedIn,
            Response::AlreadyLoggedIn { user } => ResponseView::AlreadyLoggedIn { user: user@ },
            Response::LoggedOut => ResponseView::LoggedOut,
            Response::Deposited { amount, balance } => ResponseView::Deposited {
                amount: amount as int,
                balance: balance as int,
            },
            Response::Withdrew { amount, balance } => ResponseView::Withdrew {
                amount: amount as int,
                balance: balance as int,
            },
            Response::Transferred { amount, to, balance } => ResponseView::Transferred {
                amount: amount as int,
                to: to@,
                balance: balance as int,
            },
            Response::InsufficientFunds { balance } => ResponseView::InsufficientFunds {
                balance: balance as int,
            },
            Response::OutOfRange { balance } => ResponseView::OutOfRange {
                balance: balance as int,
            },
            Response::ParseError { message } => ResponseView::ParseError { message: message@ },
        }
    }
}

/// The response to a posting that the ledger turned down.
pub open spec fn refusal(error: LedgerError) -> ResponseView {
    match error {
        LedgerError::InsufficientFunds { balance } => ResponseView::InsufficientFunds {
            balance: balance as int,
        },
        LedgerError::OutOfRange { balance } => ResponseView::OutOfRange {
            balance: balance as int,
        },
    }
}

/// The session, the ledger and the response after one command.
pub struct Outcome {
    pub session: Option<Seq<char>>,
    pub ledger: Map<Seq<char>, i64>,
    pub response: ResponseView,
}

/// One step of the state machine.
///
/// While nobody is logged in, `login` logs the named user in and everything
/// else is answered with `NotLoggedIn`. While `user` is logged in, `login`
/// changes nothing, `logout` ends the session, `deposit`, `withdraw` and
/// `transfer` post to the ledger on behalf of `user`, and a line that is no
/// command is answered with `ParseError`.
pub open spec fn step_spec(
    session: Option<Seq<char>>,
    ledger: Map<Seq<char>, i64>,
    command: CommandView,
) -> Outcome {
    match session {
        None => match command {
            CommandView::Login { name } => Outcome {
                session: Some(name),
                ledger,
                response: ResponseView::LoggedIn { user: name },
            },
            _ => Outcome { session, ledger, response: ResponseView::NotLoggedIn },
        },
        Some(user) => match command {
            CommandView::Login { name } => Outcome {
                session,
                ledger,
                response: ResponseView::AlreadyLoggedIn { user },
            },
            CommandView::Logout => Outcome {
                session: None,
                ledger,
                response: ResponseView::LoggedOut,
            },
            CommandView::Deposit { amount } => Outcome {
                session,
                ledger: deposited(ledger, user, amount).0,
                response: match deposited(ledger, user, amount).1 {
                    Ok(balance) => ResponseView::Deposited { amount, balance: balance as int },
                    Err(error) => refusal(error),
                },
            },
            CommandView::Withdraw { amount } => Outcome {
                session,
                ledger: withdrawn(ledger, user, amount).0,
                response: match withdrawn(ledger, user, amount).1 {
                    Ok(balance) => ResponseView::Withdrew { amount, balance: balance as int },
                    Err(error) => refusal(error),
                },
            },
            CommandView::Transfer { amount, to } => Outcome {
                session,
                ledger: transferred(ledger, user, amount, to).0,
                response: match transferred(ledger, user, amount, to).1 {
                    Ok(balance) => ResponseView::Transferred {
                        amount,
                        to,
                        balance: balance as int,
                    },
                    Err(error) => refusal(error),
                },
            },
            CommandView::Unparseable { message } => Outcome {
                session,
                ledger,
                response: ResponseView::ParseError { message },
            },
        },
    }
}

/// Whether a response tells the caller to end the session loop.
pub open spec fn ends_session(response: ResponseView) -> bool {
    response is LoggedOut
}

/// Whether a raw line ends the session before it is parsed: the empty line
/// and the word `exit` do.
pub open spec fn exit_line(line: Seq<char>) -> bool {
    line.len() == 0 || line == "exit"@
}

/// The session: who is logged in, if anybody.
pub struct StateMachine {
    pub logged_in_user: Option<String>,
}

impl View for StateMachine {
    type V = Option<Seq<char>>;

    open spec fn view(&self) -> Option<Seq<char>> {
        match self.logged_in_user {
            Some(user) => Some(user@),
            None => None,
        }
    }
}

impl Response {
    fn refused(error: LedgerError) -> (response: Response)
        ensures
            response@ == refusal(error),
    {
        match error {
            LedgerError::InsufficientFunds { balance } => Response::InsufficientFunds { balance },
            LedgerError::OutOfRange { balance } => Response::OutOfRange { balance },
        }
    }

    /// Whether the session loop ends with this response.
    pub fn ends_session(&self) -> (ends: bool)
        ensures
            ends == ends_session(self@),
    {
        match self {
            Response::LoggedOut => true,
            _ => false,
        }
    }
}

impl StateMachine {
    /// The session at the start: nobody is logged in.
    pub fn new() -> (state: StateMachine)
        ensures
            state@ == None::<Seq<char>>,
    {
        StateMachine { logged_in_user: None }
    }

    /// Applies one command to the session and the ledger and returns the
    /// response to it.
    pub fn step(&mut self, ledger: &mut Ledger, command: &Command) -> (response: Response)
        ensures
            final(self)@ == step_spec(old(self)@, old(ledger)@, command@).session,
            final(ledger)@ == step_spec(old(self)@, old(ledger)@, command@).ledger,
            response@ == step_spec(old(self)@, old(ledger)@, command@).response,
    {
        let user = match &self.logged_in_user {
            None => {
                return match command {
                    Command::Login { name } => {
                        self.logged_in_user = Some(name.clone());
                        Response::LoggedIn { user: name.clone() }
                    },
                    _ => Response::NotLoggedIn,
                };
            },
            Some(user) => user.clone(),
        };
        match command {
            Command::Login { name: _ } => Response::AlreadyLoggedIn { user },
            Command::Logout => {
                self.logged_in_user = None;
                Response::LoggedOut
            },
            Command::Deposit { amount } => match ledger.deposit(user.as_str(), *amount) {
                Ok(balance) => Response::Deposited { amount: *amount, balance },
                Err(error) => Response::refused(error),
            },
            Command::Withdraw { amount } => match ledger.withdraw(user.as_str(), *amount) {
                Ok(balance) => Response::Withdrew { amount: *amount, balance },
                Err(error) => Response::refused(error),
            },
            Command::Transfer { amount, to } => match ledger.transfer(
                user.as_str(),
                *amount,
                to.as_str(),
            ) {
                Ok(balance) => Response::Transferred { amount: *amount, to: to.clone(), balance },
                Err(error) => Response::refused(error),
            },
            Command::Unparseable { message } => Response::ParseError { message: message.clone() },
        }
    }
}

/// Whether the raw line `line` ends the session before it is parsed.
pub fn is_exit_line(line: &str) -> (exit: bool)
    ensures
        exit == exit_line(line@),
{
    line.is_empty() || same_text(line, "exit")
}

} // verus!
