//! Laws of the session state machine and of the line editor, stated over
//! the functions that their contracts are written in.

use crate::command::CommandView;
use crate::editor::{feedback, next_buffer};
use crate::keys::Key;
use crate::ledger::{balance_of, in_range};
use crate::screen::HighlightView;
use crate::session::{step_spec, ResponseView};
use vstd::prelude::*;

verus! {

/// What a deposit adds to the balance and a withdrawal takes from it.
pub open spec fn net(command: CommandView) -> int {
    match command {
        CommandView::Deposit { amount } => amount,
        CommandView::Withdraw { amount } => -amount,
        _ => 0,
    }
}

/// The sum of the deposits minus the sum of the withdrawals.
pub open spec fn net_total(commands: Seq<CommandView>) -> int
    decreases commands.len(),
{
    if commands.len() == 0 {
        0
    } else {
        net_total(commands.drop_last()) + net(commands.last())
    }
}

/// The ledger after `user`, logged in, has given the commands in order.
pub open spec fn ledger_after(
    user: Seq<char>,
    ledger: Map<Seq<char>, i64>,
    commands: Seq<CommandView>,
) -> Map<Seq<char>, i64>
    decreases commands.len(),
{
    if commands.len() == 0 {
        ledger
    } else {
        step_spec(
            Some(user),
            ledger_after(user, ledger, commands.drop_last()),
            commands.last(),
        ).ledger
    }
}

/// After any sequence of deposits and withdrawals by one user in which no
/// withdrawal is larger than the balance at that moment, the balance is the
/// one at the start plus the deposits minus the withdrawals. The law holds
/// as long as every balance on the way is one that the ledger can hold.
pub proof fn balance_is_deposits_minus_withdrawals(
    user: Seq<char>,
    ledger: Map<Seq<char>, i64>,
    commands: Seq<CommandView>,
)
    requires
        forall|i: int|
            0 <= i < commands.len() ==> (#[trigger] commands[i]) is Deposit || commands[i] is Withdraw,
        forall|i: int|
            0 <= i < commands.len() ==> ((#[trigger] commands[i]) matches CommandView::Withdraw {
                amount,
            } ==> amount <= balance_of(ledger_after(user, ledger, commands.take(i)), user)),
        forall|i: int|
            0 <= i <= commands.len() ==> in_range(
                balance_of(ledger, user) + net_total(#[trigger] commands.take(i)),
            ),
    ensures
        balance_of(ledger_after(user, ledger, commands), user) == balance_of(ledger, user)
            + net_total(commands),
    decreases commands.len(),
{
    if commands.len() > 0 {
        let before = commands.drop_last();
        let n = before.len() as int;
        assert(commands.take(n) == before);
        assert(commands.take(n + 1) == commands);
        assert forall|i: int| 0 <= i <= before.len() implies in_range(
            balance_of(ledger, user) + net_total(#[trigger] before.take(i)),
        ) by {
            assert(before.take(i) == commands.take(i));
        }
        assert forall|i: int| 0 <= i < before.len() implies ((#[trigger] before[i]) matches CommandView::Withdraw {
            amount,
        } ==> amount <= balance_of(ledger_after(user, ledger, before.take(i)), user)) by {
            assert(before.take(i) == commands.take(i));
            assert(before[i] == commands[i]);
        }
        assert forall|i: int| 0 <= i < before.len() implies (#[trigger] before[i]) is Deposit
            || before[i] is Withdraw by {
            assert(before[i] == commands[i]);
        }
        balance_is_deposits_minus_withdrawals(user, ledger, before);
        assert(commands[n] == commands.last());
        assert(in_range(balance_of(ledger, user) + net_total(commands.take(n))));
        assert(in_range(balance_of(ledger, user) + net_total(commands.take(n + 1))));
    }
}

/// A withdrawal or a transfer of more than the user's balance changes no
/// balance and is answered with that balance, and the user stays logged in.
pub proof fn overdraft_changes_nothing(
    user: Seq<char>,
    ledger: Map<Seq<char>, i64>,
    command: CommandView,
    other: Seq<char>,
)
    requires
        match command {
            CommandView::Withdraw { amount } => amount > balance_of(ledger, user),
            CommandView::Transfer { amount, to } => amount > balance_of(ledger, user),
            _ => false,
        },
    ensures
        step_spec(Some(user), ledger, command).response == (ResponseView::InsufficientFunds {
            balance: balance_of(ledger, user),
        }),
        balance_of(step_spec(Some(user), ledger, command).ledger, other) == balance_of(
            ledger,
            other,
        ),
        step_spec(Some(user), ledger, command).session == Some(user),
{
}

/// `login` while `user` is logged in changes neither the session nor the
/// ledger, whatever name it gives, and the response names `user`.
pub proof fn login_keeps_the_session(
    user: Seq<char>,
    ledger: Map<Seq<char>, i64>,
    name: Seq<char>,
)
    ensures
        step_spec(Some(user), ledger, CommandView::Login { name }).session == Some(user),
        step_spec(Some(user), ledger, CommandView::Login { name }).ledger == ledger,
        step_spec(Some(user), ledger, CommandView::Login { name }).response == (
        ResponseView::AlreadyLoggedIn { user }),
{
}

/// While nobody is logged in, every command but `login` leaves the ledger
/// and the session as they are and is answered with `NotLoggedIn`.
pub proof fn logged_out_changes_nothing(ledger: Map<Seq<char>, i64>, command: CommandView)
    requires
        !(command is Login),
    ensures
        step_spec(None, ledger, command).session == None::<Seq<char>>,
        step_spec(None, ledger, command).ledger == ledger,
        step_spec(None, ledger, command).response == ResponseView::NotLoggedIn,
{
}

/// A line that is no command, given while `user` is logged in, leaves the
/// ledger and the session as they are and is answered with the parser's
/// message.
pub proof fn unparseable_changes_nothing(
    user: Seq<char>,
    ledger: Map<Seq<char>, i64>,
    message: Seq<char>,
)
    ensures
        step_spec(Some(user), ledger, CommandView::Unparseable { message }).session == Some(user),
        step_spec(Some(user), ledger, CommandView::Unparseable { message }).ledger == ledger,
        step_spec(Some(user), ledger, CommandView::Unparseable { message }).response == (
        ResponseView::ParseError { message }),
{
}

/// Erase on an empty line does nothing: the line stays empty and nothing is
/// written to the terminal, however often it is pressed.
pub proof fn erase_on_empty_line_does_nothing(
    vocabulary: Seq<Seq<char>>,
    highlight: HighlightView,
)
    ensures
        next_buffer(Seq::empty(), Key::Erase, vocabulary) == Seq::<char>::empty(),
        feedback(Seq::empty(), Key::Erase, vocabulary, highlight) == Seq::<char>::empty(),
{
}

} // verus!
