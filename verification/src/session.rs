//! The interactive session as a state machine.
//!
//! The session reads lines, asks the service and shows what it learns. All of
//! its decisions are made by `step`, a function from the state and an event
//! to the next state and the action to perform; reading, writing and the
//! requests themselves are left to the caller, who performs each action and
//! comes back with the event that it produced.

use crate::api::{
    message_request, message_url, messages_request, messages_url, random_mailboxes_request,
    random_mailboxes_url,
};
use crate::error::MailError;
use crate::mail_list::{
    address_text, get_random_mail_adress, listing_text, mail_list_in, Address, AddressView,
    MailList,
};
use crate::mailbox::{check_mailbox, mailbox_in, mailbox_text, Mailbox, MailboxItemView};
use crate::message::{check_message, shown_message};
use crate::text::{decimal, lemma_line_number_of_decimal, line_number, parse_line};
use vstd::prelude::*;
use vstd::string::{StrSliceExecFns, StringExecFns};

verus! {

/// What the user asks for in the action loop.
#[derive(Clone, Copy, Debug, PartialEq, Eq, Structural)]
pub enum Command {
    /// `c`: show the inbox.
    Check,
    /// `r`: read one message.
    Read,
    /// `q`: leave.
    Quit,
}

/// Where the session stands.
#[derive(Debug, PartialEq, Eq)]
pub enum State {
    /// Waiting for the number of mailboxes to generate.
    AwaitingCount,
    /// Waiting for the service to answer with `count` mailboxes.
    FetchingList { count: usize },
    /// Waiting for the index of one mailbox of `list`.
    AwaitingSelection { list: MailList },
    /// Waiting for a command, with the mailbox that was chosen.
    ActionLoop { address: Address },
    /// Waiting for the service to answer with the inbox.
    FetchingMailbox { address: Address },
    /// Waiting for the id of the message to read.
    AwaitingMessageId { address: Address },
    /// Waiting for the service to answer with message `id`.
    FetchingMessage { address: Address, id: i64 },
    /// The user has left.
    Finished,
    /// An operation failed; the session is over.
    Failed { error: MailError },
}

/// What happened since the last action.
#[derive(Clone, Debug, PartialEq, Eq)]
pub enum Event {
    /// A line of input was read: its text, with the line break if there was
    /// one.
    Line(String),
    /// The service answered: the body of its answer.
    Response(String),
    /// The request failed before a body could be read.
    Failure(MailError),
}

/// What the caller is to do next.
#[derive(Clone, Debug, PartialEq, Eq)]
pub enum Action {
    /// Show the text, then read a line.
    Prompt(String),
    /// Request the URL.
    Fetch(String),
    /// End the program.
    Exit,
    /// End the program with the diagnostic.
    Abort(String),
}

/// What a `State` stands for.
pub enum StateView {
    AwaitingCount,
    FetchingList { count: usize },
    AwaitingSelection { list: Seq<AddressView> },
    ActionLoop { address: AddressView },
    FetchingMailbox { address: AddressView },
    AwaitingMessageId { address: AddressView },
    FetchingMessage { address: AddressView, id: i64 },
    Finished,
    Failed { error: MailError },
}

/// What an `Event` stands for.
pub enum EventView {
    Line(Seq<char>),
    Response(Seq<char>),
    Failure(MailError),
}

/// What an `Action` stands for.
pub enum ActionView {
    Prompt(Seq<char>),
    Fetch(Seq<char>),
    Exit,
    Abort(Seq<char>),
}

impl View for State {
    type V = StateView;

    open spec fn view(&self) -> StateView {
        match *self {
            State::AwaitingCount => StateView::AwaitingCount,
            State::FetchingList { count } => StateView::FetchingList { count },
            State::AwaitingSelection { list } => StateView::AwaitingSelection { list: list@ },
            State::ActionLoop { address } => StateView::ActionLoop { address: address@ },
            State::FetchingMailbox { address } => StateView::FetchingMailbox {
                address: address@,
            },
            State::AwaitingMessageId { address } => StateView::AwaitingMessageId {
                address: address@,
            },
            State::FetchingMessage { address, id } => StateView::FetchingMessage {
                address: address@,
                id,
            },
            State::Finished => StateView::Finished,
            State::Failed { error } => StateView::Failed { error },
        }
    }
}

impl View for Event {
    type V = EventView;

    open spec fn view(&self) -> EventView {
        match *self {
            Event::Line(line) => EventView::Line(line@),
            Event::Response(body) => EventView::Response(body@),
            Event::Failure(error) => EventView::Failure(error),
        }
    }
}

impl View for Action {
    type V = ActionView;

    open spec fn view(&self) -> ActionView {
        match *self {
            Action::Prompt(text) => ActionView::Prompt(text@),
            Action::Fetch(url) => ActionView::Fetch(url@),
            Action::Exit => ActionView::Exit,
            Action::Abort(diagnostic) => ActionView::Abort(diagnostic@),
        }
    }
}

/// The prompt for the number of mailboxes.
pub open spec fn count_prompt() -> Seq<char> {
    "Enter the number of random mail addresses\n"@
}

/// The prompt for the index of a mailbox.
pub open spec fn selection_prompt() -> Seq<char> {
    "Select the index of a mail address\n"@
}

/// The prompt for a command.
pub open spec fn action_prompt() -> Seq<char> {
    "Enter action:\n"@
}

/// The prompt for the id of a message.
pub open spec fn message_id_prompt() -> Seq<char> {
    "Enter message id:\n"@
}

/// What is shown once a mailbox is chosen: its address and the commands.
pub open spec fn selection_text(address: AddressView) -> Seq<char> {
    "\nSelected mail address: "@ + address_text(address) + "\n\n"@
        + "Actions:\nCheck mailbox - 'c', Read message - 'r', Quit - 'q'\n\n"@
}

/// The command that a line gives: decided by its first character alone,
/// `c`, `r` or `q` in lower case. Every other line, the empty one too, gives
/// none.
pub open spec fn command_of(line: Seq<char>) -> Option<Command> {
    if line.len() == 0 {
        None
    } else if line[0] == 'c' {
        Some(Command::Check)
    } else if line[0] == 'r' {
        Some(Command::Read)
    } else if line[0] == 'q' {
        Some(Command::Quit)
    } else {
        None
    }
}

/// The id that the number `n`, read from a line, stands for: `n` itself where
/// it fits an `i64`, else the number that shares its 64 bits.
pub open spec fn message_id(n: usize) -> i64 {
    if n <= i64::MAX {
        n as i64
    } else {
        (n - 0x1_0000_0000_0000_0000) as i64
    }
}

/// What a state is waiting for: the action that brings the event it needs.
pub open spec fn pending(state: StateView) -> ActionView {
    match state {
        StateView::AwaitingCount => ActionView::Prompt(count_prompt()),
        StateView::FetchingList { count } => ActionView::Fetch(
            random_mailboxes_request(count as nat),
        ),
        StateView::AwaitingSelection { list } => ActionView::Prompt(selection_prompt()),
        StateView::ActionLoop { address } => ActionView::Prompt(action_prompt()),
        StateView::FetchingMailbox { address } => ActionView::Fetch(
            messages_request(address.login, address.domain),
        ),
        StateView::AwaitingMessageId { address } => ActionView::Prompt(message_id_prompt()),
        StateView::FetchingMessage { address, id } => ActionView::Fetch(
            message_request(address.login, address.domain, id as int),
        ),
        StateView::Finished => ActionView::Exit,
        StateView::Failed { error } => ActionView::Abort(error.message_text()),
    }
}

/// The end of the session on a failure.
pub open spec fn failed(error: MailError) -> (StateView, ActionView) {
    (StateView::Failed { error }, ActionView::Abort(error.message_text()))
}

/// After a line in `AwaitingCount`: a number starts the request for that many
/// mailboxes, anything else asks again.
pub open spec fn count_entered(line: Seq<char>) -> (StateView, ActionView) {
    match line_number(line) {
        Some(count) => (
            StateView::FetchingList { count },
            ActionView::Fetch(random_mailboxes_request(count as nat)),
        ),
        None => (StateView::AwaitingCount, ActionView::Prompt(count_prompt())),
    }
}

/// After the answer in `FetchingList`: the list is shown and an index asked
/// for, or the session fails.
pub open spec fn list_received(decoded: Result<Seq<AddressView>, MailError>) -> (
    StateView,
    ActionView,
) {
    match decoded {
        Ok(list) => (
            StateView::AwaitingSelection { list },
            ActionView::Prompt(listing_text(list) + selection_prompt()),
        ),
        Err(error) => failed(error),
    }
}

/// After a line in `AwaitingSelection`: an index of the list chooses that
/// mailbox, anything else asks again.
pub open spec fn index_entered(list: Seq<AddressView>, line: Seq<char>) -> (
    StateView,
    ActionView,
) {
    match line_number(line) {
        Some(index) => if index < list.len() {
            (
                StateView::ActionLoop { address: list[index as int] },
                ActionView::Prompt(selection_text(list[index as int]) + action_prompt()),
            )
        } else {
            (StateView::AwaitingSelection { list }, ActionView::Prompt(selection_prompt()))
        },
        None => (StateView::AwaitingSelection { list }, ActionView::Prompt(selection_prompt())),
    }
}

/// After a line in `ActionLoop`.
pub open spec fn command_entered(address: AddressView, line: Seq<char>) -> (
    StateView,
    ActionView,
) {
    match command_of(line) {
        Some(Command::Check) => (
            StateView::FetchingMailbox { address },
            ActionView::Fetch(messages_request(address.login, address.domain)),
        ),
        Some(Command::Read) => (
            StateView::AwaitingMessageId { address },
            ActionView::Prompt(message_id_prompt()),
        ),
        Some(Command::Quit) => (StateView::Finished, ActionView::Exit),
        None => (StateView::ActionLoop { address }, ActionView::Prompt(action_prompt())),
    }
}

/// After the answer in `FetchingMailbox`: the inbox is shown and the next
/// command asked for, or the session fails.
pub open spec fn mailbox_received(
    address: AddressView,
    decoded: Result<Seq<MailboxItemView>, MailError>,
) -> (StateView, ActionView) {
    match decoded {
        Ok(items) => (
            StateView::ActionLoop { address },
            ActionView::Prompt(mailbox_text(items) + action_prompt()),
        ),
        Err(error) => failed(error),
    }
}

/// After a line in `AwaitingMessageId`: a number starts the request for that
/// message, anything else asks again.
pub open spec fn message_id_entered(address: AddressView, line: Seq<char>) -> (
    StateView,
    ActionView,
) {
    match line_number(line) {
        Some(n) => (
            StateView::FetchingMessage { address, id: message_id(n) },
            ActionView::Fetch(message_request(address.login, address.domain, message_id(n) as int)),
        ),
        None => (
            StateView::AwaitingMessageId { address },
            ActionView::Prompt(message_id_prompt()),
        ),
    }
}

/// After the answer in `FetchingMessage`: the message is shown and the next
/// command asked for, or the session fails.
pub open spec fn message_received(
    address: AddressView,
    shown: Result<Seq<char>, MailError>,
) -> (StateView, ActionView) {
    match shown {
        Ok(text) => (
            StateView::ActionLoop { address },
            ActionView::Prompt(text + "\n"@ + action_prompt()),
        ),
        Err(error) => failed(error),
    }
}

/// The session's one rule: the next state and the action for every state and
/// event. An event that the state does not wait for changes nothing, and the
/// state asks again for what it needs.
pub open spec fn transition(state: StateView, event: EventView) -> (StateView, ActionView) {
    match (state, event) {
        (StateView::AwaitingCount, EventView::Line(line)) => count_entered(line),
        (StateView::FetchingList { count }, EventView::Response(body)) => list_received(
            mail_list_in(body, count as nat),
        ),
        (StateView::AwaitingSelection { list }, EventView::Line(line)) => index_entered(
            list,
            line,
        ),
        (StateView::ActionLoop { address }, EventView::Line(line)) => command_entered(
            address,
            line,
        ),
        (StateView::FetchingMailbox { address }, EventView::Response(body)) => mailbox_received(
            address,
            mailbox_in(body),
        ),
        (StateView::AwaitingMessageId { address }, EventView::Line(line)) => message_id_entered(
            address,
            line,
        ),
        (StateView::FetchingMessage { address, id }, EventView::Response(body)) =>
            message_received(address, shown_message(body)),
        (StateView::FetchingList { count }, EventView::Failure(error)) => failed(error),
        (StateView::FetchingMailbox { address }, EventView::Failure(error)) => failed(error),
        (StateView::FetchingMessage { address, id }, EventView::Failure(error)) => failed(error),
        _ => (state, pending(state)),
    }
}

/// The mailbox that the session works with, once one is chosen.
pub open spec fn selected(state: StateView) -> Option<AddressView> {
    match state {
        StateView::ActionLoop { address } => Some(address),
        StateView::FetchingMailbox { address } => Some(address),
        StateView::AwaitingMessageId { address } => Some(address),
        StateView::FetchingMessage { address, id } => Some(address),
        _ => None,
    }
}

/// The chosen mailbox is held for the rest of the session: whatever happens,
/// the session goes on with the same address or is over.
pub proof fn lemma_selected_address_is_kept(state: StateView, event: EventView)
    requires
        selected(state) is Some,
    ensures
        ({
            let next = transition(state, event).0;
            selected(next) == selected(state) || next is Finished || next is Failed
        }),
{
}

/// What the user types never makes the session fail: a line that cannot be
/// used is answered by asking again.
pub proof fn lemma_input_never_fails(state: StateView, line: Seq<char>)
    requires
        !(state is Failed),
    ensures
        !(transition(state, EventView::Line(line)).0 is Failed),
{
}

/// A session that is over stays over: no event changes its state, and all
/// it asks for is to end.
pub proof fn lemma_over_stays_over(state: StateView, event: EventView)
    requires
        state is Finished || state is Failed,
    ensures
        transition(state, event) == (state, pending(state)),
        pending(state) is Exit || pending(state) is Abort,
{
}

/// Choosing an index of the list chooses the mailbox that stands there: the
/// session goes on with its login and its domain, and shows the address
/// `login@domain`.
pub proof fn lemma_selection_yields_address(
    list: Seq<AddressView>,
    line: Seq<char>,
    index: usize,
)
    requires
        line_number(line) == Some(index),
        index < list.len(),
    ensures
        transition(StateView::AwaitingSelection { list }, EventView::Line(line)).0
            == (StateView::ActionLoop { address: list[index as int] }),
        transition(StateView::AwaitingSelection { list }, EventView::Line(line)).1
            == ActionView::Prompt(selection_text(list[index as int]) + action_prompt()),
        address_text(list[index as int]) == list[index as int].login + seq!['@']
            + list[index as int].domain,
{
}

/// The listing and the selection agree: the number in front of a mailbox in
/// the listing, typed on a line of its own, chooses that mailbox.
pub proof fn lemma_listed_index_selects(list: Seq<AddressView>, index: usize)
    requires
        index < list.len(),
    ensures
        transition(
            StateView::AwaitingSelection { list },
            EventView::Line(decimal(index as nat).push('\n')),
        ).0 == (StateView::ActionLoop { address: list[index as int] }),
{
    lemma_line_number_of_decimal(index);
}

/// Nothing but an index of the list leads on from the selection: after every
/// other line, and after every other event, the session still waits for an
/// index, with the same list.
pub proof fn lemma_selection_needs_index(list: Seq<AddressView>, event: EventView)
    ensures
        ({
            let next = transition(StateView::AwaitingSelection { list }, event).0;
            ||| next == (StateView::AwaitingSelection { list })
            ||| {
                &&& event matches EventView::Line(line)
                &&& line_number(line) matches Some(index)
                &&& index < list.len()
                &&& next == (StateView::ActionLoop { address: list[index as int] })
            }
        }),
{
}

/// The command is decided by the first character of the line, and by nothing
/// else: `c`, `r` and `q` give their commands, every other first character
/// and the empty line give none.
pub proof fn lemma_command_by_first_character(line: Seq<char>)
    ensures
        command_of(line) == Some(Command::Check) <==> line.len() > 0 && line[0] == 'c',
        command_of(line) == Some(Command::Read) <==> line.len() > 0 && line[0] == 'r',
        command_of(line) == Some(Command::Quit) <==> line.len() > 0 && line[0] == 'q',
        line.len() > 0 ==> command_of(line) == command_of(seq![line[0]]),
{
}

/// No line ends the action loop but one that starts with `q`, and no line
/// makes it fail: after a line without a command the session asks for the
/// next one, unchanged.
pub proof fn lemma_action_loop_goes_on(address: AddressView, line: Seq<char>)
    ensures
        ({
            let next = transition(StateView::ActionLoop { address }, EventView::Line(line));
            &&& !(next.0 is Failed)
            &&& next.0 is Finished <==> line.len() > 0 && line[0] == 'q'
            &&& command_of(line) is None ==> next == (
                StateView::ActionLoop { address },
                ActionView::Prompt(action_prompt()),
            )
        }),
{
}

/// The command that a line gives.
pub fn parse_command(line: &str) -> (command: Option<Command>)
    ensures
        command == command_of(line@),
{
    if line.is_empty() {
        return None;
    }
    let first = line.get_char(0);
    if first == 'c' {
        Some(Command::Check)
    } else if first == 'r' {
        Some(Command::Read)
    } else if first == 'q' {
        Some(Command::Quit)
    } else {
        None
    }
}

/// The id that the number `n`, read from a line, stands for.
pub fn message_id_of(n: usize) -> (id: i64)
    ensures
        id == message_id(n),
{
    let wide: u64 = n as u64;
    if wide <= 0x7fff_ffff_ffff_ffff {
        wide as i64
    } else {
        ((wide - 0x8000_0000_0000_0000) as i64) + i64::MIN
    }
}

/// The action that brings the event `state` is waiting for.
pub fn ask_again(state: &State) -> (action: Action)
    ensures
        action@ == pending(state@),
{
    match state {
        State::AwaitingCount => Action::Prompt(
            String::from_str("Enter the number of random mail addresses\n"),
        ),
        State::FetchingList { count } => Action::Fetch(random_mailboxes_url(*count)),
        State::AwaitingSelection { list: _ } => Action::Prompt(
            String::from_str("Select the index of a mail address\n"),
        ),
        State::ActionLoop { address: _ } => Action::Prompt(String::from_str("Enter action:\n")),
        State::FetchingMailbox { address } => Action::Fetch(
            messages_url(address.login.as_str(), address.domain.as_str()),
        ),
        State::AwaitingMessageId { address: _ } => Action::Prompt(
            String::from_str("Enter message id:\n"),
        ),
        State::FetchingMessage { address, id } => Action::Fetch(
            message_url(address.login.as_str(), address.domain.as_str(), *id),
        ),
        State::Finished => Action::Exit,
        State::Failed { error } => Action::Abort(error.message()),
    }
}

/// The start of a session: the first state and the first prompt.
pub fn start() -> (first: (State, Action))
    ensures
        first.0@ == StateView::AwaitingCount,
        first.1@ == pending(StateView::AwaitingCount),
{
    let state = State::AwaitingCount;
    let action = ask_again(&state);
    (state, action)
}

/// Ends the session on `error`.
pub fn fail(error: MailError) -> (next: (State, Action))
    ensures
        (next.0@, next.1@) == failed(error),
{
    (State::Failed { error }, Action::Abort(error.message()))
}

/// Handles a line in `AwaitingCount`.
pub fn on_count(line: &str) -> (next: (State, Action))
    ensures
        (next.0@, next.1@) == count_entered(line@),
{
    let state = match parse_line(line) {
        Some(count) => State::FetchingList { count },
        None => State::AwaitingCount,
    };
    let action = ask_again(&state);
    (state, action)
}

/// Handles the decoded answer in `FetchingList`.
pub fn on_list(decoded: Result<MailList, MailError>) -> (next: (State, Action))
    ensures
        (next.0@, next.1@) == list_received(
            match decoded {
                Ok(list) => Ok(list@),
                Err(error) => Err(error),
            },
        ),
{
    match decoded {
        Ok(list) => {
            let mut text = list.listing();
            text.append("Select the index of a mail address\n");
            (State::AwaitingSelection { list }, Action::Prompt(text))
        },
        Err(error) => fail(error),
    }
}

/// Handles a line in `AwaitingSelection`.
pub fn on_index(list: MailList, line: &str) -> (next: (State, Action))
    ensures
        (next.0@, next.1@) == index_entered(list@, line@),
{
    let chosen = match parse_line(line) {
        Some(index) => list.select(index),
        None => None,
    };
    match chosen {
        Some(address) => {
            let mut text = String::from_str("\nSelected mail address: ");
            text.append(address.text().as_str());
            text.append("\n\n");
            text.append("Actions:\nCheck mailbox - 'c', Read message - 'r', Quit - 'q'\n\n");
            text.append("Enter action:\n");
            (State::ActionLoop { address }, Action::Prompt(text))
        },
        None => {
            let state = State::AwaitingSelection { list };
            let action = ask_again(&state);
            (state, action)
        },
    }
}

/// Handles a line in `ActionLoop`.
pub fn on_command(address: Address, line: &str) -> (next: (State, Action))
    ensures
        (next.0@, next.1@) == command_entered(address@, line@),
{
    let state = match parse_command(line) {
        Some(Command::Check) => State::FetchingMailbox { address },
        Some(Command::Read) => State::AwaitingMessageId { address },
        Some(Command::Quit) => State::Finished,
        None => State::ActionLoop { address },
    };
    let action = ask_again(&state);
    (state, action)
}

/// Handles the decoded answer in `FetchingMailbox`.
pub fn on_mailbox(address: Address, decoded: Result<Mailbox, MailError>) -> (next: (
    State,
    Action,
))
    ensures
        (next.0@, next.1@) == mailbox_received(
            address@,
            match decoded {
                Ok(mailbox) => Ok(mailbox@),
                Err(error) => Err(error),
            },
        ),
{
    match decoded {
        Ok(mailbox) => {
            let mut text = mailbox.text();
            text.append("Enter action:\n");
            (State::ActionLoop { address }, Action::Prompt(text))
        },
        Err(error) => fail(error),
    }
}

/// Handles a line in `AwaitingMessageId`.
pub fn on_message_id(address: Address, line: &str) -> (next: (State, Action))
    ensures
        (next.0@, next.1@) == message_id_entered(address@, line@),
{
    let state = match parse_line(line) {
        Some(n) => State::FetchingMessage { address, id: message_id_of(n) },
        None => State::AwaitingMessageId { address },
    };
    let action = ask_again(&state);
    (state, action)
}

/// Handles the decoded answer in `FetchingMessage`.
pub fn on_message(address: Address, shown: Result<String, MailError>) -> (next: (State, Action))
    ensures
        (next.0@, next.1@) == message_received(
            address@,
            match shown {
                Ok(text) => Ok(text@),
                Err(error) => Err(error),
            },
        ),
{
    match shown {
        Ok(text) => {
            let mut text = text;
            text.append("\n");
            text.append("Enter action:\n");
            (State::ActionLoop { address }, Action::Prompt(text))
        },
        Err(error) => fail(error),
    }
}

/// One step of the session: the next state and the action to perform, for
/// the state the session is in and the event that the last action produced.
pub fn step(state: State, event: Event) -> (next: (State, Action))
    ensures
        (next.0@, next.1@) == transition(state@, event@),
{
    match (state, event) {
        (State::AwaitingCount, Event::Line(line)) => on_count(line.as_str()),
        (State::FetchingList { count }, Event::Response(body)) => on_list(
            get_random_mail_adress(count, body.as_str()),
        ),
        (State::AwaitingSelection { list }, Event::Line(line)) => on_index(list, line.as_str()),
        (State::ActionLoop { address }, Event::Line(line)) => on_command(address, line.as_str()),
        (State::FetchingMailbox { address }, Event::Response(body)) => on_mailbox(
            address,
            check_mailbox(body.as_str()),
        ),
        (State::AwaitingMessageId { address }, Event::Line(line)) => on_message_id(
            address,
            line.as_str(),
        ),
        (State::FetchingMessage { address, id: _ }, Event::Response(body)) => on_message(
            address,
            check_message(body.as_str()),
        ),
        (State::FetchingList { count: _ }, Event::Failure(error)) => fail(error),
        (State::FetchingMailbox { address: _ }, Event::Failure(error)) => fail(error),
        (State::FetchingMessage { address: _, id: _ }, Event::Failure(error)) => fail(error),
        (state, _) => {
            let action = ask_again(&state);
            (state, action)
        },
    }
}

} // verus!
