use chatrs::client::{
    chat_line_for, ChatClient, ChatState, ChatClientCommon, ChatError, ChatResult, ChatUserInterface, Command, Connection,
    ParsedInput,
};
use chatrs::relay::{Relay, RelayAction, RelayEvent};
use chatrs::{ClientMessage, ServerMessage};

struct TestFront {
    conn: Connection<u32>,
    next_handle: u32,
    sent: Vec<Vec<u8>>,
    received: Vec<(String, String)>,
    nick: String,
    nick_changes: Vec<String>,
    quit: bool,
    notices: Vec<String>,
    attempts: u32,
    refuse: bool,
}

impl TestFront {
    fn new() -> TestFront {
        TestFront {
            conn: Connection::new(),
            next_handle: 1,
            sent: Vec::new(),
            received: Vec::new(),
            nick: "anonymous".to_owned(),
            nick_changes: Vec::new(),
            quit: false,
            notices: Vec::new(),
            attempts: 0,
            refuse: false,
        }
    }
}

impl ChatUserInterface for TestFront {
    fn receive_message(&mut self, nick: String, content: String) {
        self.received.push((nick, content));
    }
    fn change_nick(&mut self, nick: String) {
        self.nick_changes.push(nick.clone());
        self.nick = nick;
    }
    fn quit(&mut self) {
        self.quit = true;
    }
}

impl ChatState for TestFront {
    fn connected(&self) -> bool {
        self.conn.is_connected()
    }
    fn sent(&self) -> Vec<Vec<u8>> {
        self.sent.clone()
    }
    fn shown(&self) -> Vec<(String, String)> {
        self.received.clone()
    }
    fn nick_changes(&self) -> Vec<String> {
        self.nick_changes.clone()
    }
    fn quitting(&self) -> bool {
        self.quit
    }
}

impl ChatClient for TestFront {
    fn connect(&mut self, address: String) -> ChatResult<()> {
        self.conn.check_connect(&address)?;
        self.attempts += 1;
        let attempt = if self.refuse { None } else { Some(self.next_handle) };
        self.next_handle += 1;
        self.conn.attach(attempt)?;
        self.notices.push(format!("Connected to {}", address));
        Ok(())
    }
    fn disconnect(&mut self) {
        if self.conn.detach().is_some() {
            self.notices.push("Disconnected".to_owned());
        }
    }
    fn is_connected(&self) -> bool {
        self.conn.is_connected()
    }
    fn send_binary(&mut self, data: Vec<u8>) -> ChatResult<()> {
        if self.conn.handle().is_some() {
            self.sent.push(data);
            Ok(())
        } else {
            Err(ChatError::SendError)
        }
    }
}

fn strings(v: &[&str]) -> Vec<String> {
    v.iter().map(|s| s.to_string()).collect()
}

#[test]
fn parse_command_line() {
    match ParsedInput::parse("/nick bob") {
        ParsedInput::Command { name, params } => {
            assert_eq!(name, "/nick");
            assert_eq!(params, strings(&["bob"]));
        }
        _ => panic!("expected a command"),
    }
}

#[test]
fn parse_chat_line() {
    match ParsedInput::parse("hello there") {
        ParsedInput::Message { content } => assert_eq!(content, "hello there"),
        _ => panic!("expected a message"),
    }
}

#[test]
fn parse_empty_line() {
    assert!(matches!(ParsedInput::parse(""), ParsedInput::Empty));
}

#[test]
fn parse_splits_on_any_whitespace() {
    match "/connect   127.0.0.1:3042\t extra\n".parse::<ParsedInput>().unwrap() {
        ParsedInput::Command { name, params } => {
            assert_eq!(name, "/connect");
            assert_eq!(params, strings(&["127.0.0.1:3042", "extra"]));
        }
        _ => panic!("expected a command"),
    }
    match ParsedInput::parse("/quit") {
        ParsedInput::Command { name, params } => {
            assert_eq!(name, "/quit");
            assert!(params.is_empty());
        }
        _ => panic!("expected a command"),
    }
    match ParsedInput::parse("/ nick\u{3000}zoë") {
        ParsedInput::Command { name, params } => {
            assert_eq!(name, "/");
            assert_eq!(params, strings(&["nick", "zoë"]));
        }
        _ => panic!("expected a command"),
    }
}

#[test]
fn parse_keeps_chat_line_whole() {
    match ParsedInput::parse("  spaced  out ") {
        ParsedInput::Message { content } => assert_eq!(content, "  spaced  out "),
        _ => panic!("expected a message"),
    }
}

#[test]
fn command_table() {
    assert!(matches!(
        Command::from_parts("/nick".to_owned(), strings(&["bob"])),
        Ok(Command::Nick { nick }) if nick == "bob"
    ));
    assert!(matches!(
        Command::from_parts("/connect".to_owned(), strings(&["1.2.3.4:5"])),
        Ok(Command::Connect { address }) if address == "1.2.3.4:5"
    ));
    assert!(matches!(Command::from_parts("/disconnect".to_owned(), vec![]), Ok(Command::Disconnect)));
    assert!(matches!(Command::from_parts("/quit".to_owned(), vec![]), Ok(Command::Quit)));
    assert!(matches!(Command::from_parts("/nick".to_owned(), vec![]), Err(ChatError::InvalidParameters)));
    assert!(matches!(
        Command::from_parts("/nick".to_owned(), strings(&["a", "b"])),
        Err(ChatError::InvalidParameters)
    ));
    assert!(matches!(
        Command::from_parts("/connect".to_owned(), vec![]),
        Err(ChatError::InvalidParameters)
    ));
    assert!(matches!(
        Command::from_parts("/quit".to_owned(), strings(&["now"])),
        Err(ChatError::InvalidParameters)
    ));
    assert!(matches!(
        Command::from_parts("/disconnect".to_owned(), strings(&["x"])),
        Err(ChatError::InvalidParameters)
    ));
    assert!(matches!(
        Command::from_parts("/dance".to_owned(), vec![]),
        Err(ChatError::UnknownCommand { name }) if name == "/dance"
    ));
}

#[test]
fn nick_without_parameter_is_invalid() {
    let mut f = TestFront::new();
    assert!(matches!(f.handle_command("/nick".to_owned(), vec![]), Err(ChatError::InvalidParameters)));
    assert!(matches!(f.handle_input("/nick".to_owned()), Err(ChatError::InvalidParameters)));
    assert_eq!(f.nick, "anonymous");
}

#[test]
fn unknown_command_names_itself() {
    let mut f = TestFront::new();
    match f.handle_input("/frobnicate now".to_owned()) {
        Err(ChatError::UnknownCommand { name }) => assert_eq!(name, "/frobnicate"),
        _ => panic!("expected an unknown command"),
    }
}

#[test]
fn connect_to_invalid_address_makes_no_attempt() {
    let mut f = TestFront::new();
    match f.connect("not-an-address".to_owned()) {
        Err(ChatError::InvalidAddress { address }) => assert_eq!(address, "not-an-address"),
        _ => panic!("expected an invalid address"),
    }
    assert_eq!(f.attempts, 0);
    assert!(!f.is_connected());
    assert!(matches!(
        f.handle_input("/connect ws://127.0.0.1:3044/".to_owned()),
        Err(ChatError::InvalidAddress { .. })
    ));
}

#[test]
fn connect_while_connected_keeps_the_connection() {
    let mut f = TestFront::new();
    f.handle_input("/connect 127.0.0.1:3042".to_owned()).unwrap();
    assert!(f.is_connected());
    assert_eq!(f.conn.handle(), Some(&1));
    assert!(matches!(f.connect("127.0.0.1:4000".to_owned()), Err(ChatError::AlreadyConnected)));
    assert_eq!(f.attempts, 1);
    assert_eq!(f.conn.handle(), Some(&1));
    assert_eq!(f.notices, vec!["Connected to 127.0.0.1:3042".to_owned()]);
}

#[test]
fn failed_transport_is_a_connection_error() {
    let mut f = TestFront::new();
    f.refuse = true;
    assert!(matches!(f.connect("[::1]:3042".to_owned()), Err(ChatError::ConnectionError)));
    assert_eq!(f.attempts, 1);
    assert!(!f.is_connected());
}

#[test]
fn attach_while_connected_keeps_handle() {
    let mut c: Connection<u32> = Connection::new();
    assert!(c.attach(Some(5)).is_ok());
    assert!(matches!(c.attach(Some(6)), Err(ChatError::AlreadyConnected)));
    assert_eq!(c.handle(), Some(&5));
    assert!(matches!(c.check_connect(&"127.0.0.1:1".to_owned()), Err(ChatError::AlreadyConnected)));
}

#[test]
fn send_while_disconnected_is_refused() {
    let mut f = TestFront::new();
    assert!(matches!(f.send_message("hi".to_owned()), Err(ChatError::SendError)));
    assert!(matches!(f.handle_input("hello".to_owned()), Err(ChatError::SendError)));
    assert!(f.sent.is_empty());
}

#[test]
fn double_disconnect_notifies_once() {
    let mut f = TestFront::new();
    f.connect("127.0.0.1:3042".to_owned()).unwrap();
    f.disconnect();
    f.disconnect();
    assert_eq!(f.notices.iter().filter(|n| n.as_str() == "Disconnected").count(), 1);
    assert!(f.handle_input("/disconnect".to_owned()).is_ok());
    assert_eq!(f.notices.iter().filter(|n| n.as_str() == "Disconnected").count(), 1);
}

#[test]
fn detach_hands_back_handle_once() {
    let mut c: Connection<u32> = Connection::new();
    assert_eq!(c.detach(), None);
    c.attach(Some(3)).unwrap();
    assert_eq!(c.detach(), Some(3));
    assert_eq!(c.detach(), None);
    assert!(!c.is_connected());
}

#[test]
fn chat_line_is_sent_encoded() {
    let mut f = TestFront::new();
    f.connect("127.0.0.1:3042".to_owned()).unwrap();
    f.handle_input("hello there".to_owned()).unwrap();
    assert_eq!(f.sent, vec![ClientMessage::Message { content: "hello there".to_owned() }.serialize()]);
}

#[test]
fn nick_command_changes_nick_and_tells_relay() {
    let mut f = TestFront::new();
    f.connect("127.0.0.1:3042".to_owned()).unwrap();
    f.handle_input("/nick bob".to_owned()).unwrap();
    assert_eq!(f.nick, "bob");
    assert_eq!(f.sent, vec![ClientMessage::Nick { nick: "bob".to_owned() }.serialize()]);
}

#[test]
fn quit_disconnects_and_signals() {
    let mut f = TestFront::new();
    f.connect("127.0.0.1:3042".to_owned()).unwrap();
    f.handle_input("/quit".to_owned()).unwrap();
    assert!(f.quit);
    assert!(!f.is_connected());
    assert!(matches!(f.handle_input("/quit now".to_owned()), Err(ChatError::InvalidParameters)));
}

#[test]
fn empty_input_does_nothing() {
    let mut f = TestFront::new();
    assert!(f.handle_input("".to_owned()).is_ok());
    assert!(f.sent.is_empty());
}

#[test]
fn received_bytes_reach_the_ui() {
    let mut f = TestFront::new();
    let data = ServerMessage::Message { nick: "al".to_owned(), content: "yo".to_owned() }.serialize();
    f.recv_binary(&data).unwrap();
    assert_eq!(f.received, vec![("al".to_owned(), "yo".to_owned())]);
}

#[test]
fn malformed_bytes_are_a_serialization_error() {
    let mut f = TestFront::new();
    f.connect("127.0.0.1:3042".to_owned()).unwrap();
    assert!(matches!(f.recv_binary(&[1, 2, 3]), Err(ChatError::SerializationError)));
    assert!(f.received.is_empty());
    assert!(f.is_connected());
}

#[test]
fn error_texts() {
    assert_eq!(ChatError::SerializationError.message(), "Serialization error");
    assert_eq!(ChatError::SendError.message(), "Could not send message");
    assert_eq!(ChatError::UnknownCommand { name: "/x".to_owned() }.message(), "Unknown command: /x");
    assert_eq!(ChatError::InvalidParameters.message(), "Invalid parameters");
    assert_eq!(ChatError::InvalidAddress { address: "nowhere".to_owned() }.message(), "Invalid address: nowhere");
    assert_eq!(ChatError::ConnectionError.message(), "Error connecting to server");
    assert_eq!(ChatError::AlreadyConnected.message(), "Already connected to a server");
    assert_eq!(ChatError::Unexpected.message(), "An unexpected error occurred");
}

#[test]
fn chat_line_bytes_depend_on_connection() {
    assert_eq!(
        chat_line_for(true, "hey".to_owned()).unwrap(),
        ClientMessage::Message { content: "hey".to_owned() }.serialize()
    );
    assert!(matches!(chat_line_for(false, "hey".to_owned()), Err(ChatError::SendError)));
}

#[test]
fn space_set_matches_char_is_whitespace() {
    let mut n = 0;
    for u in 0u32..=0x10FFFF {
        if let Some(c) = char::from_u32(u) {
            let line = format!("/a{}b", c);
            let split = match ParsedInput::parse(&line) {
                ParsedInput::Command { params, .. } => !params.is_empty(),
                _ => panic!("expected a command"),
            };
            assert_eq!(split, c.is_whitespace(), "U+{:04X}", u);
            n += 1;
        }
    }
    assert!(n > 1_000_000);
}

#[test]
fn from_str_reads_lines() {
    match "/nick bob".parse::<ParsedInput>() {
        Ok(ParsedInput::Command { name, params }) => {
            assert_eq!(name, "/nick");
            assert_eq!(params, strings(&["bob"]));
        }
        _ => panic!("expected a command"),
    }
    assert!(matches!("hello there".parse::<ParsedInput>(), Ok(ParsedInput::Message { content }) if content == "hello there"));
    assert!(matches!("".parse::<ParsedInput>(), Ok(ParsedInput::Empty)));
    assert!(matches!(" /x".parse::<ParsedInput>(), Ok(ParsedInput::Message { content }) if content == " /x"));
}

#[test]
fn quit_disconnects_before_signalling() {
    let mut f = TestFront::new();
    f.connect("127.0.0.1:3042".to_owned()).unwrap();
    f.handle_command("/quit".to_owned(), vec![]).unwrap();
    assert!(f.quit);
    assert!(!f.is_connected());
    assert_eq!(f.notices.last().map(|s| s.as_str()), Some("Disconnected"));
}

#[test]
fn refused_commands_leave_the_client_alone() {
    let mut f = TestFront::new();
    f.connect("127.0.0.1:3042".to_owned()).unwrap();
    assert!(matches!(f.handle_command("/quit".to_owned(), strings(&["x"])), Err(ChatError::InvalidParameters)));
    assert!(matches!(f.handle_command("/connect".to_owned(), vec![]), Err(ChatError::InvalidParameters)));
    assert!(matches!(f.handle_command("/disconnect".to_owned(), strings(&["y"])), Err(ChatError::InvalidParameters)));
    assert!(matches!(f.handle_command("/nope".to_owned(), vec![]), Err(ChatError::UnknownCommand { .. })));
    assert!(f.is_connected());
    assert!(!f.quit);
    assert!(f.sent.is_empty());
    assert_eq!(f.nick, "anonymous");
    assert_eq!(f.attempts, 1);
}

#[test]
fn relay_broadcast_shows_in_every_client() {
    let mut relay = Relay::new();
    for e in [1u64, 2, 3] {
        relay.handle_event(RelayEvent::Connected(e));
    }
    let mut fronts = vec![TestFront::new(), TestFront::new(), TestFront::new()];
    for f in fronts.iter_mut() {
        f.connect("127.0.0.1:3042".to_owned()).unwrap();
    }
    fronts[0].handle_input("hi".to_owned()).unwrap();
    fronts[0].handle_input("/nick bob".to_owned()).unwrap();
    fronts[0].handle_input("again".to_owned()).unwrap();
    assert_eq!(fronts[0].nick_changes, vec!["bob".to_owned()]);
    let frames = fronts[0].sent.clone();
    assert_eq!(frames.len(), 3);
    for frame in frames {
        if let RelayAction::Broadcast { recipients, data } = relay.handle_event(RelayEvent::Message(1, frame)) {
            assert_eq!(recipients.len(), 3);
            for f in fronts.iter_mut() {
                f.recv_binary(&data).unwrap();
            }
        }
    }
    for f in &fronts {
        assert_eq!(
            f.shown(),
            vec![
                ("anonymous".to_owned(), "hi".to_owned()),
                ("bob".to_owned(), "again".to_owned())
            ]
        );
    }
}
