use tempmail::error::MailError;
use tempmail::mail_list::{Address, MailList};
use tempmail::mailbox::{Mailbox, MailboxItem};
use tempmail::session::{
    ask_again, fail, message_id_of, on_command, on_count, on_index, on_list, on_mailbox,
    on_message, on_message_id, parse_command, start, step, Action, Command, Event, State,
};

const COUNT_PROMPT: &str = "Enter the number of random mail addresses\n";
const SELECTION_PROMPT: &str = "Select the index of a mail address\n";
const ACTION_PROMPT: &str = "Enter action:\n";
const MESSAGE_ID_PROMPT: &str = "Enter message id:\n";

fn address(login: &str, domain: &str) -> Address {
    Address { login: login.to_string(), domain: domain.to_string() }
}

fn two_mailboxes() -> MailList {
    let mut list = MailList::new();
    list.push(address("abc", "x.com"));
    list.push(address("def", "y.com"));
    list
}

fn line(text: &str) -> Event {
    Event::Line(text.to_string())
}

fn response(body: &str) -> Event {
    Event::Response(body.to_string())
}

fn prompt(text: &str) -> Action {
    Action::Prompt(text.to_string())
}

fn in_action_loop() -> State {
    State::ActionLoop { address: address("def", "y.com") }
}

#[test]
fn the_session_starts_by_asking_for_the_count() {
    assert_eq!(start(), (State::AwaitingCount, prompt(COUNT_PROMPT)));
}

#[test]
fn a_count_starts_the_request() {
    assert_eq!(
        step(State::AwaitingCount, line("2\n")),
        (
            State::FetchingList { count: 2 },
            Action::Fetch(
                "https://www.1secmail.com/api/v1/?action=genRandomMailbox&count=2".to_string()
            )
        )
    );
    assert_eq!(on_count(" 10 \n").0, State::FetchingList { count: 10 });
    assert_eq!(on_count("0\n").0, State::FetchingList { count: 0 });
}

#[test]
fn a_line_without_a_count_asks_again() {
    for text in ["", "\n", "two\n", "-2\n", "2.0\n", "99999999999999999999999999\n"] {
        assert_eq!(
            step(State::AwaitingCount, line(text)),
            (State::AwaitingCount, prompt(COUNT_PROMPT)),
            "line {:?}",
            text
        );
    }
}

#[test]
fn the_list_is_shown_and_an_index_asked_for() {
    let next = step(State::FetchingList { count: 2 }, response("[\"abc@x.com\",\"def@y.com\"]"));
    assert_eq!(
        next,
        (
            State::AwaitingSelection { list: two_mailboxes() },
            prompt(
                "\nRandom mail adresses:\n\n0 - abc@x.com\n1 - def@y.com\n\nSelect the index of a mail address\n"
            )
        )
    );
}

#[test]
fn a_list_that_cannot_be_read_ends_the_session() {
    assert_eq!(
        step(State::FetchingList { count: 2 }, response("oops")),
        (State::Failed { error: MailError::Json }, Action::Abort("JSON error!".to_string()))
    );
    assert_eq!(
        step(State::FetchingList { count: 2 }, response("[\"abc@x.com\"]")).0,
        State::Failed { error: MailError::Shape }
    );
    assert_eq!(
        step(State::FetchingList { count: 1 }, response("[\"abc\"]")).0,
        State::Failed { error: MailError::Address }
    );
    assert_eq!(on_list(Err(MailError::Shape)), fail(MailError::Shape));
}

#[test]
fn a_request_that_fails_ends_the_session() {
    assert_eq!(
        step(State::FetchingList { count: 2 }, Event::Failure(MailError::Request)),
        (
            State::Failed { error: MailError::Request },
            Action::Abort("GET request error!".to_string())
        )
    );
    assert_eq!(
        step(
            State::FetchingMailbox { address: address("a", "b") },
            Event::Failure(MailError::ResponseText)
        ),
        (
            State::Failed { error: MailError::ResponseText },
            Action::Abort("Response text error!".to_string())
        )
    );
    assert_eq!(
        step(
            State::FetchingMessage { address: address("a", "b"), id: 1 },
            Event::Failure(MailError::Request)
        )
        .0,
        State::Failed { error: MailError::Request }
    );
}

#[test]
fn selecting_an_index_yields_its_address() {
    let next = step(State::AwaitingSelection { list: two_mailboxes() }, line("1\n"));
    assert_eq!(
        next,
        (
            State::ActionLoop { address: address("def", "y.com") },
            prompt(
                "\nSelected mail address: def@y.com\n\nActions:\nCheck mailbox - 'c', Read message - 'r', Quit - 'q'\n\nEnter action:\n"
            )
        )
    );
    let next = on_index(two_mailboxes(), "0\n");
    assert_eq!(next.0, State::ActionLoop { address: address("abc", "x.com") });
}

#[test]
fn every_index_of_the_list_selects_login_at_domain() {
    let mut list = MailList::new();
    for i in 0..12 {
        list.push(address(&format!("login{}", i), &format!("domain{}.org", i)));
    }
    for i in 0..12 {
        let mut copy = MailList::new();
        for j in 0..12 {
            copy.push(list.select(j).unwrap());
        }
        let (state, action) = on_index(copy, &format!("{}\n", i));
        assert_eq!(
            state,
            State::ActionLoop {
                address: address(&format!("login{}", i), &format!("domain{}.org", i))
            }
        );
        match action {
            Action::Prompt(text) => {
                assert!(text.contains(&format!("login{}@domain{}.org\n", i, i)))
            }
            _ => panic!("no prompt"),
        }
    }
}

#[test]
fn an_index_outside_the_list_asks_again() {
    for text in ["2\n", "3\n", "18446744073709551615\n", "-1\n", "one\n", "\n", "", "1.0\n", "1 1\n"] {
        assert_eq!(
            step(State::AwaitingSelection { list: two_mailboxes() }, line(text)),
            (State::AwaitingSelection { list: two_mailboxes() }, prompt(SELECTION_PROMPT)),
            "line {:?}",
            text
        );
    }
}

#[test]
fn an_empty_list_never_leaves_the_selection() {
    for text in ["0\n", "1\n", "\n"] {
        assert_eq!(
            step(State::AwaitingSelection { list: MailList::new() }, line(text)),
            (State::AwaitingSelection { list: MailList::new() }, prompt(SELECTION_PROMPT))
        );
    }
}

#[test]
fn the_first_character_decides_the_command() {
    assert_eq!(parse_command("c"), Some(Command::Check));
    assert_eq!(parse_command("r"), Some(Command::Read));
    assert_eq!(parse_command("q"), Some(Command::Quit));
    assert_eq!(parse_command("c\n"), Some(Command::Check));
    assert_eq!(parse_command("cq"), Some(Command::Check));
    assert_eq!(parse_command("quit\n"), Some(Command::Quit));
    assert_eq!(parse_command("read me"), Some(Command::Read));
}

#[test]
fn other_first_characters_give_no_command() {
    for text in ["", "\n", "C", "R", "Q", "x", " c", "\tq", "1", "écoute", "ç"] {
        assert_eq!(parse_command(text), None, "line {:?}", text);
    }
}

#[test]
fn c_asks_the_service_for_the_inbox() {
    assert_eq!(
        step(in_action_loop(), line("c\n")),
        (
            State::FetchingMailbox { address: address("def", "y.com") },
            Action::Fetch(
                "https://www.1secmail.com/api/v1/?action=getMessages&login=def&domain=y.com"
                    .to_string()
            )
        )
    );
}

#[test]
fn r_asks_for_a_message_id() {
    assert_eq!(
        step(in_action_loop(), line("r\n")),
        (State::AwaitingMessageId { address: address("def", "y.com") }, prompt(MESSAGE_ID_PROMPT))
    );
}

#[test]
fn q_ends_the_session() {
    assert_eq!(step(in_action_loop(), line("q\n")), (State::Finished, Action::Exit));
    assert_eq!(on_command(address("a", "b"), "q"), (State::Finished, Action::Exit));
}

#[test]
fn lines_without_a_command_ask_again() {
    for text in ["C\n", "", "x\n", "\n", "Q\n", " q\n"] {
        assert_eq!(
            step(in_action_loop(), line(text)),
            (in_action_loop(), prompt(ACTION_PROMPT)),
            "line {:?}",
            text
        );
    }
}

#[test]
fn an_empty_line_asks_for_the_next_action() {
    let (state, action) = step(in_action_loop(), line(""));
    assert_eq!(state, in_action_loop());
    assert_eq!(action, prompt(ACTION_PROMPT));
    assert_ne!(state, State::Finished);
}

#[test]
fn cq_checks_the_inbox_and_does_not_quit() {
    let (state, _) = step(in_action_loop(), line("cq\n"));
    assert_eq!(state, State::FetchingMailbox { address: address("def", "y.com") });
    let (state, action) = step(state, response("[]"));
    assert_eq!(state, in_action_loop());
    assert_eq!(action, prompt("\nMessage count: 0\nEnter action:\n"));
}

#[test]
fn the_inbox_is_shown_and_the_next_action_asked_for() {
    let body = "[{\"id\": 639, \"from\": \"someone@example.com\", \"subject\": \"Some subject\", \"date\": \"2018-06-08 14:33:55\"}]";
    assert_eq!(
        step(State::FetchingMailbox { address: address("def", "y.com") }, response(body)),
        (
            in_action_loop(),
            prompt(
                "\nMessage count: 1\n\nMessage id: 639\nFrom: someone@example.com\nSubject: Some subject\nDate: 2018-06-08 14:33:55\n\n\nEnter action:\n"
            )
        )
    );
    let mailbox = Mailbox {
        items: vec![MailboxItem {
            id: 1,
            from: "a".to_string(),
            subject: "b".to_string(),
            date: "c".to_string(),
        }],
    };
    assert_eq!(
        on_mailbox(address("def", "y.com"), Ok(mailbox)).1,
        prompt("\nMessage count: 1\n\nMessage id: 1\nFrom: a\nSubject: b\nDate: c\n\n\nEnter action:\n")
    );
}

#[test]
fn an_inbox_that_cannot_be_read_ends_the_session() {
    assert_eq!(
        step(State::FetchingMailbox { address: address("a", "b") }, response("{}")),
        (
            State::Failed { error: MailError::Shape },
            Action::Abort("Unexpected response!".to_string())
        )
    );
    assert_eq!(on_mailbox(address("a", "b"), Err(MailError::Json)), fail(MailError::Json));
}

#[test]
fn a_message_id_starts_the_request() {
    assert_eq!(
        step(State::AwaitingMessageId { address: address("def", "y.com") }, line("42\n")),
        (
            State::FetchingMessage { address: address("def", "y.com"), id: 42 },
            Action::Fetch(
                "https://www.1secmail.com/api/v1/?action=readMessage&login=def&domain=y.com&id=42"
                    .to_string()
            )
        )
    );
}

#[test]
fn a_line_without_a_message_id_asks_again() {
    for text in ["\n", "abc\n", "-4\n", "4x\n", ""] {
        assert_eq!(
            on_message_id(address("def", "y.com"), text),
            (
                State::AwaitingMessageId { address: address("def", "y.com") },
                prompt(MESSAGE_ID_PROMPT)
            ),
            "line {:?}",
            text
        );
    }
}

#[test]
fn message_ids_share_the_bits_of_the_number() {
    assert_eq!(message_id_of(0), 0);
    assert_eq!(message_id_of(42), 42);
    for n in [usize::MAX, usize::MAX / 2, usize::MAX / 2 + 1, usize::MAX - 41] {
        assert_eq!(message_id_of(n), n as i64);
    }
}

#[test]
fn reading_message_42_shows_its_header_and_text() {
    let (state, _) = step(in_action_loop(), line("r\n"));
    let (state, action) = step(state, line("42\n"));
    assert_eq!(
        action,
        Action::Fetch(
            "https://www.1secmail.com/api/v1/?action=readMessage&login=def&domain=y.com&id=42"
                .to_string()
        )
    );
    let body = "{\"id\": 42, \"from\": \"ann@x.org\", \"subject\": \"Greeting\", \"date\": \"2024-05-01 10:00:00\", \"attachments\": [], \"body\": \"hello\", \"textBody\": \"hello\", \"htmlBody\": \"\"}";
    let (state, action) = step(state, response(body));
    assert_eq!(state, in_action_loop());
    match &action {
        Action::Prompt(text) => {
            assert!(text.contains("hello"));
            assert!(text.contains("From:ann@x.org\nSubject:Greeting\nDate2024-05-01 10:00:00\n"));
        }
        _ => panic!("no prompt"),
    }
    assert_eq!(
        action,
        prompt("From:ann@x.org\nSubject:Greeting\nDate2024-05-01 10:00:00\n\nhello\nEnter action:\n")
    );
}

#[test]
fn a_message_that_cannot_be_read_ends_the_session() {
    assert_eq!(
        step(State::FetchingMessage { address: address("a", "b"), id: 9 }, response("{\"id\": 9}")),
        (
            State::Failed { error: MailError::Shape },
            Action::Abort("Unexpected response!".to_string())
        )
    );
    assert_eq!(on_message(address("a", "b"), Err(MailError::Json)), fail(MailError::Json));
    assert_eq!(
        on_message(address("a", "b"), Ok("text".to_string())),
        (State::ActionLoop { address: address("a", "b") }, prompt("text\nEnter action:\n"))
    );
}

#[test]
fn r_can_be_used_again_after_a_message() {
    let (state, _) = step(in_action_loop(), line("r\n"));
    let (state, _) = step(state, line("1\n"));
    let body = "{\"id\": 1, \"from\": \"\", \"subject\": \"\", \"date\": \"\", \"attachments\": [], \"body\": \"\", \"textBody\": \"\", \"htmlBody\": \"\"}";
    let (state, _) = step(state, response(body));
    assert_eq!(
        step(state, line("r\n")),
        (State::AwaitingMessageId { address: address("def", "y.com") }, prompt(MESSAGE_ID_PROMPT))
    );
}

#[test]
fn an_event_that_is_not_waited_for_changes_nothing() {
    assert_eq!(
        step(State::AwaitingCount, response("[]")),
        (State::AwaitingCount, prompt(COUNT_PROMPT))
    );
    assert_eq!(
        step(State::AwaitingCount, Event::Failure(MailError::Request)),
        (State::AwaitingCount, prompt(COUNT_PROMPT))
    );
    assert_eq!(
        step(State::FetchingList { count: 3 }, line("1\n")),
        (
            State::FetchingList { count: 3 },
            Action::Fetch(
                "https://www.1secmail.com/api/v1/?action=genRandomMailbox&count=3".to_string()
            )
        )
    );
    assert_eq!(
        step(State::AwaitingSelection { list: two_mailboxes() }, response("[]")),
        (State::AwaitingSelection { list: two_mailboxes() }, prompt(SELECTION_PROMPT))
    );
    assert_eq!(step(in_action_loop(), response("q")), (in_action_loop(), prompt(ACTION_PROMPT)));
    assert_eq!(
        step(State::FetchingMessage { address: address("a", "b"), id: -2 }, line("q\n")).1,
        Action::Fetch(
            "https://www.1secmail.com/api/v1/?action=readMessage&login=a&domain=b&id=-2"
                .to_string()
        )
    );
}

#[test]
fn a_session_that_is_over_stays_over() {
    assert_eq!(step(State::Finished, line("c\n")), (State::Finished, Action::Exit));
    assert_eq!(
        step(State::Failed { error: MailError::Json }, line("c\n")),
        (State::Failed { error: MailError::Json }, Action::Abort("JSON error!".to_string()))
    );
    assert_eq!(ask_again(&State::Finished), Action::Exit);
}

#[test]
fn a_whole_session_runs_from_count_to_quit() {
    let (state, action) = start();
    assert_eq!(action, prompt(COUNT_PROMPT));
    let (state, action) = step(state, line("abc\n"));
    assert_eq!(action, prompt(COUNT_PROMPT));
    let (state, action) = step(state, line("2\n"));
    assert!(matches!(action, Action::Fetch(_)));
    let (state, action) = step(state, response("[\"abc@x.com\",\"def@y.com\"]"));
    assert!(matches!(action, Action::Prompt(_)));
    let (state, action) = step(state, line("5\n"));
    assert_eq!(action, prompt(SELECTION_PROMPT));
    let (state, _) = step(state, line("1\n"));
    assert_eq!(state, in_action_loop());
    let (state, action) = step(state, line("c\n"));
    assert!(matches!(action, Action::Fetch(_)));
    let (state, _) = step(state, response("[]"));
    let (state, action) = step(state, line("\n"));
    assert_eq!(action, prompt(ACTION_PROMPT));
    let (state, action) = step(state, line("q\n"));
    assert_eq!(state, State::Finished);
    assert_eq!(action, Action::Exit);
}
