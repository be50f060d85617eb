//! The client side: input parsing, the command language, the connection
//! lifecycle, and the send/receive logic shared by every front end.

use crate::protocol::{
    decode_server, encode_client, ClientMessage, ClientMessageView, ServerMessage,
    ServerMessageView,
};
use vstd::prelude::*;
use vstd::std_specs::iter::IteratorSpec;
use vstd::string::StrSliceExecFns;
use vstd::string::StringExecFns;

verus! {

/// Why a client operation failed.
#[derive(Debug)]
pub enum ChatError {
    SerializationError,
    SendError,
    UnknownCommand { name: String },
    InvalidParameters,
    InvalidAddress { address: String },
    ConnectionError,
    AlreadyConnected,
    Unexpected,
}

pub type ChatResult<T> = Result<T, ChatError>;

/// Abstract value of a `ChatError`.
pub ghost enum ChatErrorView {
    SerializationError,
    SendError,
    UnknownCommand { name: Seq<char> },
    InvalidParameters,
    InvalidAddress { address: Seq<char> },
    ConnectionError,
    AlreadyConnected,
    Unexpected,
}

impl View for ChatError {
    type V = ChatErrorView;

    open spec fn view(&self) -> ChatErrorView {
        match self {
            ChatError::SerializationError => ChatErrorView::SerializationError,
            ChatError::SendError => ChatErrorView::SendError,
            ChatError::UnknownCommand { name } => ChatErrorView::UnknownCommand { name: name@ },
            ChatError::InvalidParameters => ChatErrorView::InvalidParameters,
            ChatError::InvalidAddress { address } => ChatErrorView::InvalidAddress {
                address: address@,
            },
            ChatError::ConnectionError => ChatErrorView::ConnectionError,
            ChatError::AlreadyConnected => ChatErrorView::AlreadyConnected,
            ChatError::Unexpected => ChatErrorView::Unexpected,
        }
    }
}

/// Abstract value of a `ChatResult<()>`.
pub open spec fn outcome(r: ChatResult<()>) -> Result<(), ChatErrorView> {
    match r {
        Ok(()) => Ok(()),
        Err(e) => Err(e@),
    }
}

/// The text shown for an error.
pub open spec fn error_text(e: ChatErrorView) -> Seq<char> {
    match e {
        ChatErrorView::SerializationError => "Serialization error"@,
        ChatErrorView::SendError => "Could not send message"@,
        ChatErrorView::UnknownCommand { name } => "Unknown command: "@ + name,
        ChatErrorView::InvalidParameters => "Invalid parameters"@,
        ChatErrorView::InvalidAddress { address } => "Invalid address: "@ + address,
        ChatErrorView::ConnectionError => "Error connecting to server"@,
        ChatErrorView::AlreadyConnected => "Already connected to a server"@,
        ChatErrorView::Unexpected => "An unexpected error occurred"@,
    }
}

impl ChatError {
    /// The text shown for this error.
    pub fn message(&self) -> (r: String)
        ensures
            r@ == error_text(self@),
    {
        match self {
            ChatError::SerializationError => "Serialization error".to_owned(),
            ChatError::SendError => "Could not send message".to_owned(),
            ChatError::UnknownCommand { name } => "Unknown command: ".to_owned().concat(
                name.as_str(),
            ),
            ChatError::InvalidParameters => "Invalid parameters".to_owned(),
            ChatError::InvalidAddress { address } => "Invalid address: ".to_owned().concat(
                address.as_str(),
            ),
            ChatError::ConnectionError => "Error connecting to server".to_owned(),
            ChatError::AlreadyConnected => "Already connected to a server".to_owned(),
            ChatError::Unexpected => "An unexpected error occurred".to_owned(),
        }
    }
}

/// Whether `c` separates words: it has the Unicode White_Space property,
/// as `char::is_whitespace` tests.
pub open spec fn is_space(c: char) -> bool {
    let u = c as u32;
    ||| 0x09 <= u <= 0x0D
    ||| u == 0x20
    ||| u == 0x85
    ||| u == 0xA0
    ||| u == 0x1680
    ||| 0x2000 <= u <= 0x200A
    ||| u == 0x2028
    ||| u == 0x2029
    ||| u == 0x202F
    ||| u == 0x205F
    ||| u == 0x3000
}

fn char_is_space(c: char) -> (r: bool)
    ensures
        r == is_space(c),
{
    let u = c as u32;
    (0x09 <= u && u <= 0x0D) || u == 0x20 || u == 0x85 || u == 0xA0 || u == 0x1680 || (0x2000
        <= u && u <= 0x200A) || u == 0x2028 || u == 0x2029 || u == 0x202F || u == 0x205F || u
        == 0x3000
}

/// Relies on `String::push`, which appends one character.
#[verifier::external_body]
fn push_char(s: &mut String, c: char)
    ensures
        final(s)@ == old(s)@.push(c),
{
    s.push(c)
}

/// The maximal runs of non-space characters of `s`, in order.
pub open spec fn words(s: Seq<char>) -> Seq<Seq<char>>
    decreases s.len(),
{
    if s.len() == 0 {
        seq![]
    } else {
        let w = words(s.drop_last());
        let c = s.last();
        if is_space(c) {
            w
        } else if s.len() >= 2 && !is_space(s[s.len() - 2]) {
            w.drop_last().push(w.last().push(c))
        } else {
            w.push(seq![c])
        }
    }
}

proof fn lemma_words_end_in_word(s: Seq<char>)
    requires
        s.len() > 0,
        !is_space(s.last()),
    ensures
        words(s).len() > 0,
    decreases s.len(),
{
    if s.len() >= 2 && !is_space(s[s.len() - 2]) {
        assert(s.drop_last().last() == s[s.len() - 2]);
        lemma_words_end_in_word(s.drop_last());
    }
}

/// What a line of input is.
pub enum ParsedInput {
    Message { content: String },
    Command { name: String, params: Vec<String> },
    Empty,
}

/// Abstract value of a `ParsedInput`.
pub ghost enum ParsedInputView {
    Message { content: Seq<char> },
    Command { name: Seq<char>, params: Seq<Seq<char>> },
    Empty,
}

pub open spec fn strings_view(v: Seq<String>) -> Seq<Seq<char>> {
    v.map_values(|s: String| s@)
}

impl View for ParsedInput {
    type V = ParsedInputView;

    open spec fn view(&self) -> ParsedInputView {
        match self {
            ParsedInput::Message { content } => ParsedInputView::Message { content: content@ },
            ParsedInput::Command { name, params } => ParsedInputView::Command {
                name: name@,
                params: strings_view(params@),
            },
            ParsedInput::Empty => ParsedInputView::Empty,
        }
    }
}

proof fn lemma_words_nonempty(s: Seq<char>, i: int)
    requires
        0 <= i < s.len(),
        !is_space(s[i]),
    ensures
        words(s).len() > 0,
    decreases s.len(),
{
    if i == s.len() - 1 || !is_space(s.last()) {
        lemma_words_end_in_word(s);
    } else {
        assert(s.drop_last()[i] == s[i]);
        lemma_words_nonempty(s.drop_last(), i);
    }
}

/// How a line is read: empty is `Empty`; a line that starts with `/` is a
/// command, its first word (which keeps the `/`) the name and the other
/// words its parameters; any other line is a chat message, as typed.
pub open spec fn parse_input(s: Seq<char>) -> ParsedInputView {
    if s.len() == 0 {
        ParsedInputView::Empty
    } else if s[0] == '/' {
        ParsedInputView::Command { name: words(s)[0], params: words(s).drop_first() }
    } else {
        ParsedInputView::Message { content: s }
    }
}

/// The words of `s`, as strings.
fn split_words(s: &str) -> (r: Vec<String>)
    ensures
        strings_view(r@) == words(s@),
{
    let mut out: Vec<String> = Vec::new();
    let mut prev_space: bool = true;
    let ghost all = s@;
    for c in it: s.chars()
        invariant
            it.seq() == all,
            all == s@,
            strings_view(out@) == words(all.take(it.index() as int)),
            prev_space == (it.index() == 0 || is_space(all[it.index() - 1])),
    {
        let ghost i = it.index();
        assert(all.take(i + 1).drop_last() == all.take(i));
        assert(all.take(i + 1).last() == c);
        let space = char_is_space(c);
        if space {
        } else if !prev_space {
            assert(all.take(i + 1)[i - 1] == all[i - 1]);
            proof {
                lemma_words_end_in_word(all.take(i));
            }
            let mut last = out.pop().unwrap();
            push_char(&mut last, c);
            out.push(last);
            assert(strings_view(out@) =~= words(all.take(i + 1)));
        } else {
            let mut w = String::new();
            push_char(&mut w, c);
            out.push(w);
            assert(strings_view(out@) =~= words(all.take(i + 1)));
        }
        prev_space = space;
    }
    assert(all.take(all.len() as int) == all);
    out
}

impl ParsedInput {
    /// Reads a line of input.
    pub fn parse(s: &str) -> (r: ParsedInput)
        ensures
            r@ == parse_input(s@),
    {
        if s.is_empty() {
            return ParsedInput::Empty;
        }
        if s.get_char(0) == '/' {
            proof {
                lemma_words_nonempty(s@, 0);
            }
            let mut w = split_words(s);
            let name = w.remove(0);
            assert(strings_view(w@) =~= words(s@).drop_first());
            ParsedInput::Command { name, params: w }
        } else {
            ParsedInput::Message { content: s.to_owned() }
        }
    }
}

/// A command of the command language, with its parameters checked.
pub enum Command {
    Nick { nick: String },
    Connect { address: String },
    Disconnect,
    Quit,
}

/// Abstract value of a `Command`.
pub ghost enum CommandView {
    Nick { nick: Seq<char> },
    Connect { address: Seq<char> },
    Disconnect,
    Quit,
}

impl View for Command {
    type V = CommandView;

    open spec fn view(&self) -> CommandView {
        match self {
            Command::Nick { nick } => CommandView::Nick { nick: nick@ },
            Command::Connect { address } => CommandView::Connect { address: address@ },
            Command::Disconnect => CommandView::Disconnect,
            Command::Quit => CommandView::Quit,
        }
    }
}

/// The command table: `/nick` and `/connect` take one parameter,
/// `/disconnect` and `/quit` none; any other name is unknown.
pub open spec fn command_of(name: Seq<char>, params: Seq<Seq<char>>) -> Result<
    CommandView,
    ChatErrorView,
> {
    if name == "/nick"@ {
        if params.len() == 1 {
            Ok(CommandView::Nick { nick: params[0] })
        } else {
            Err(ChatErrorView::InvalidParameters)
        }
    } else if name == "/connect"@ {
        if params.len() == 1 {
            Ok(CommandView::Connect { address: params[0] })
        } else {
            Err(ChatErrorView::InvalidParameters)
        }
    } else if name == "/disconnect"@ {
        if params.len() == 0 {
            Ok(CommandView::Disconnect)
        } else {
            Err(ChatErrorView::InvalidParameters)
        }
    } else if name == "/quit"@ {
        if params.len() == 0 {
            Ok(CommandView::Quit)
        } else {
            Err(ChatErrorView::InvalidParameters)
        }
    } else {
        Err(ChatErrorView::UnknownCommand { name })
    }
}

/// Abstract value of a `ChatResult<Command>`.
pub open spec fn command_outcome(r: ChatResult<Command>) -> Result<CommandView, ChatErrorView> {
    match r {
        Ok(c) => Ok(c@),
        Err(e) => Err(e@),
    }
}

fn is_word(s: &String, lit: &str) -> (r: bool)
    ensures
        r == (s@ == lit@),
{
    *s == lit.to_owned()
}

impl Command {
    /// Looks a command up in the command table and checks its parameters.
    pub fn from_parts(name: String, params: Vec<String>) -> (r: ChatResult<Command>)
        ensures
            command_outcome(r) == command_of(name@, strings_view(params@)),
    {
        proof {
            reveal_strlit("/nick");
            reveal_strlit("/connect");
            reveal_strlit("/disconnect");
            reveal_strlit("/quit");
        }
        let mut params = params;
        let n = params.len();
        if is_word(&name, "/nick") {
            if n == 1 {
                Ok(Command::Nick { nick: params.remove(0) })
            } else {
                Err(ChatError::InvalidParameters)
            }
        } else if is_word(&name, "/connect") {
            if n == 1 {
                Ok(Command::Connect { address: params.remove(0) })
            } else {
                Err(ChatError::InvalidParameters)
            }
        } else if is_word(&name, "/disconnect") {
            if n == 0 {
                Ok(Command::Disconnect)
            } else {
                Err(ChatError::InvalidParameters)
            }
        } else if is_word(&name, "/quit") {
            if n == 0 {
                Ok(Command::Quit)
            } else {
                Err(ChatError::InvalidParameters)
            }
        } else {
            Err(ChatError::UnknownCommand { name })
        }
    }
}

/// Whether `s` names a socket address (`host:port` with a literal IP).
pub uninterp spec fn names_socket_address(s: Seq<char>) -> bool;

/// Relies on message_io's `ToRemoteAddr::to_remote_addr` for `&str`, which
/// never fails, and `RemoteAddr::is_socket_addr`: the text parses as a
/// socket address.
#[verifier::external_body]
fn is_socket_address(address: &str) -> (r: bool)
    ensures
        r == names_socket_address(address@),
{
    match message_io::network::ToRemoteAddr::to_remote_addr(&address) {
        Ok(a) => a.is_socket_addr(),
        Err(_) => false,
    }
}

/// What `connect(address)` decides before any transport is tried: refused
/// while connected, refused for an address that is no socket address.
pub open spec fn connect_check(connected: bool, address: Seq<char>) -> Result<(), ChatErrorView> {
    if connected {
        Err(ChatErrorView::AlreadyConnected)
    } else if !names_socket_address(address) {
        Err(ChatErrorView::InvalidAddress { address })
    } else {
        Ok(())
    }
}

/// The connection state of one client: a handle `H` to the transport while
/// connected, none while disconnected.
pub struct Connection<H> {
    handle: Option<H>,
}

impl<H> Connection<H> {
    /// The handle held, if connected.
    pub closed spec fn current(&self) -> Option<H> {
        self.handle
    }

    pub open spec fn is_open(&self) -> bool {
        self.current() is Some
    }

    /// A disconnected client.
    pub fn new() -> (r: Connection<H>)
        ensures
            r.current() is None,
    {
        Connection { handle: None }
    }

    pub fn is_connected(&self) -> (r: bool)
        ensures
            r == self.is_open(),
    {
        self.handle.is_some()
    }

    /// Checks whether a connection to `address` may be tried. The state is
    /// left as it is.
    pub fn check_connect(&self, address: &String) -> (r: ChatResult<()>)
        ensures
            outcome(r) == connect_check(self.is_open(), address@),
    {
        if self.handle.is_some() {
            Err(ChatError::AlreadyConnected)
        } else if !is_socket_address(address.as_str()) {
            Err(ChatError::InvalidAddress { address: address.clone() })
        } else {
            Ok(())
        }
    }

    /// Takes the outcome of a transport connection attempt: a handle makes
    /// the client connected; no handle is a connection error and leaves it
    /// disconnected. While already connected, the existing handle is kept.
    pub fn attach(&mut self, attempt: Option<H>) -> (r: ChatResult<()>)
        ensures
            (final(self).current(), outcome(r)) == attached(old(self).current(), attempt),
    {
        if self.handle.is_some() {
            return Err(ChatError::AlreadyConnected);
        }
        match attempt {
            Some(h) => {
                self.handle = Some(h);
                Ok(())
            },
            None => Err(ChatError::ConnectionError),
        }
    }

    /// Leaves the connected state. Gives the handle to tear down, or none
    /// when already disconnected.
    pub fn detach(&mut self) -> (r: Option<H>)
        ensures
            (final(self).current(), r) == detached(old(self).current()),
    {
        self.handle.take()
    }

    /// The handle, while connected.
    pub fn handle(&self) -> (r: Option<&H>)
        ensures
            r is Some <==> self.is_open(),
            r matches Some(h) ==> self.current() == Some(*h),
    {
        self.handle.as_ref()
    }
}

/// A disconnect from state `c`: the state after it, and the handle it hands
/// back to be torn down and reported (none when already disconnected).
pub open spec fn detached<H>(c: Option<H>) -> (Option<H>, Option<H>) {
    (None, c)
}

/// Two consecutive disconnects hand back a handle, to be torn down and
/// reported, exactly once when the client was connected and never when it
/// was not; the second one does nothing.
pub proof fn lemma_disconnect_idempotent<H>(c: Option<H>)
    ensures
        ({
            let (after_first, first) = detached(c);
            let (after_second, second) = detached(after_first);
            &&& second is None
            &&& after_second is None
            &&& (first is Some <==> c is Some)
        }),
{
}

/// The outcome of a transport connection attempt from state `c`: the state
/// after it and the result. A handle makes the client connected; no handle is
/// a connection error; while already connected the existing handle is kept.
pub open spec fn attached<H>(c: Option<H>, attempt: Option<H>) -> (Option<H>, Result<(), ChatErrorView>) {
    match c {
        Some(h) => (Some(h), Err(ChatErrorView::AlreadyConnected)),
        None => match attempt {
            Some(a) => (Some(a), Ok(())),
            None => (None, Err(ChatErrorView::ConnectionError)),
        },
    }
}

/// While connected, a connect is refused as already connected, whatever the
/// address, before any transport is tried; and whatever a connection attempt
/// gives, the existing handle stays in place.
pub proof fn lemma_connect_while_connected<H>(h: H, address: Seq<char>, attempt: Option<H>)
    ensures
        connect_check(true, address) == Err::<(), ChatErrorView>(ChatErrorView::AlreadyConnected),
        attached(Some(h), attempt) == (Some(h), Err::<(), ChatErrorView>(
            ChatErrorView::AlreadyConnected,
        )),
{
}

/// The bytes to send for the chat line `content`: its encoding while
/// connected, a send error while disconnected.
pub fn chat_line_for(connected: bool, content: String) -> (r: ChatResult<Vec<u8>>)
    ensures
        connected ==> (r matches Ok(data) && data@ == encode_client(
            ClientMessageView::Message { content: content@ },
        )),
        !connected ==> (r matches Err(e) && e@ == ChatErrorView::SendError),
{
    if connected {
        Ok(ClientMessage::Message { content }.serialize())
    } else {
        Err(ChatError::SendError)
    }
}

/// What a front end's state is, as the shared protocol logic sees it.
pub trait ChatState: Sized {
    /// Whether the front end holds a connection.
    spec fn connected(&self) -> bool;

    /// The frames handed to the transport so far, oldest first.
    spec fn sent(&self) -> Vec<Vec<u8>>;

    /// The chat messages shown so far, as (nick, content), oldest first.
    spec fn shown(&self) -> Vec<(String, String)>;

    /// The nickname changes shown so far, oldest first.
    spec fn nick_changes(&self) -> Vec<String>;

    /// Whether the user interface was told to end.
    spec fn quitting(&self) -> bool;
}

pub open spec fn frames(v: Vec<Vec<u8>>) -> Seq<Seq<u8>> {
    v@.map_values(|b: Vec<u8>| b@)
}

pub open spec fn texts(v: Vec<(String, String)>) -> Seq<(Seq<char>, Seq<char>)> {
    v@.map_values(|p: (String, String)| (p.0@, p.1@))
}

/// The transport side is the same in `a` and `b`.
pub open spec fn same_transport<S: ChatState>(a: &S, b: &S) -> bool {
    &&& a.connected() == b.connected()
    &&& frames(a.sent()) == frames(b.sent())
}

/// The user interface side is the same in `a` and `b`.
pub open spec fn same_ui<S: ChatState>(a: &S, b: &S) -> bool {
    &&& texts(a.shown()) == texts(b.shown())
    &&& strings_view(a.nick_changes()@) == strings_view(b.nick_changes()@)
    &&& a.quitting() == b.quitting()
}

/// `data` was handed to the transport from `pre` to `post` exactly when the
/// send succeeded; a send while disconnected fails as a send error.
pub open spec fn sent_frame<S: ChatState>(
    pre: &S,
    post: &S,
    data: Seq<u8>,
    r: Result<(), ChatErrorView>,
) -> bool {
    &&& post.connected() == pre.connected()
    &&& frames(post.sent()) == if r is Ok {
        frames(pre.sent()).push(data)
    } else {
        frames(pre.sent())
    }
    &&& !pre.connected() ==> r == Err::<(), ChatErrorView>(ChatErrorView::SendError)
}

/// What a connect from `pre` to `post` with result `r` does: refused while
/// connected, leaving everything as it was; connected after a success;
/// still disconnected after a failure. Nothing is sent or shown.
pub open spec fn connect_effect<S: ChatState>(pre: &S, post: &S, r: Result<(), ChatErrorView>) -> bool {
    &&& pre.connected() ==> r == Err::<(), ChatErrorView>(ChatErrorView::AlreadyConnected)
        && *post == *pre
    &&& r is Ok ==> post.connected()
    &&& r is Err ==> post.connected() == pre.connected()
    &&& frames(post.sent()) == frames(pre.sent())
    &&& same_ui(post, pre)
}

/// What a chat line `content` does from `pre` to `post` with result `r`:
/// while disconnected, a send error and no change; while connected, its
/// encoding is handed to the transport.
pub open spec fn chat_line_effect<S: ChatState>(
    pre: &S,
    post: &S,
    content: Seq<char>,
    r: Result<(), ChatErrorView>,
) -> bool {
    &&& !pre.connected() ==> r == Err::<(), ChatErrorView>(ChatErrorView::SendError)
        && *post == *pre
    &&& sent_frame(pre, post, encode_client(ClientMessageView::Message { content }), r)
    &&& same_ui(post, pre)
}

/// What a checked command does from `pre` to `post` with result `r`.
pub open spec fn command_effect<S: ChatState>(
    pre: &S,
    post: &S,
    c: CommandView,
    r: Result<(), ChatErrorView>,
) -> bool {
    match c {
        CommandView::Nick { nick } => {
            &&& strings_view(post.nick_changes()@) == strings_view(pre.nick_changes()@).push(nick)
            &&& texts(post.shown()) == texts(pre.shown())
            &&& post.quitting() == pre.quitting()
            &&& sent_frame(pre, post, encode_client(ClientMessageView::Nick { nick }), r)
        },
        CommandView::Connect { address } => connect_effect(pre, post, r),
        CommandView::Disconnect => {
            &&& r is Ok
            &&& !post.connected()
            &&& frames(post.sent()) == frames(pre.sent())
            &&& same_ui(post, pre)
        },
        CommandView::Quit => {
            &&& r is Ok
            &&& !post.connected()
            &&& post.quitting()
            &&& frames(post.sent()) == frames(pre.sent())
            &&& texts(post.shown()) == texts(pre.shown())
            &&& strings_view(post.nick_changes()@) == strings_view(pre.nick_changes()@)
        },
    }
}

/// What running the command `name` with `params` does: the command table's
/// error with no change, or the command's effect.
pub open spec fn command_line_effect<S: ChatState>(
    pre: &S,
    post: &S,
    name: Seq<char>,
    params: Seq<Seq<char>>,
    r: Result<(), ChatErrorView>,
) -> bool {
    match command_of(name, params) {
        Err(e) => r == Err::<(), ChatErrorView>(e) && *post == *pre,
        Ok(c) => command_effect(pre, post, c, r),
    }
}

/// The notifications that a front end shows. Each one leaves the rest of
/// the front end's state as it was.
pub trait ChatUserInterface: ChatState {
    fn receive_message(&mut self, nick: String, content: String)
        ensures
            texts(final(self).shown()) == texts(old(self).shown()).push((nick@, content@)),
            strings_view(final(self).nick_changes()@) == strings_view(
                old(self).nick_changes()@,
            ),
            final(self).quitting() == old(self).quitting(),
            same_transport(final(self), old(self)),
    ;

    fn change_nick(&mut self, nick: String)
        ensures
            strings_view(final(self).nick_changes()@) == strings_view(
                old(self).nick_changes()@,
            ).push(nick@),
            texts(final(self).shown()) == texts(old(self).shown()),
            final(self).quitting() == old(self).quitting(),
            same_transport(final(self), old(self)),
    ;

    fn quit(&mut self)
        ensures
            final(self).quitting(),
            texts(final(self).shown()) == texts(old(self).shown()),
            strings_view(final(self).nick_changes()@) == strings_view(
                old(self).nick_changes()@,
            ),
            same_transport(final(self), old(self)),
    ;
}

/// The transport side of a front end.
pub trait ChatClient: ChatState {
    fn connect(&mut self, address: String) -> (r: ChatResult<()>)
        ensures
            connect_effect(old(self), final(self), outcome(r)),
    ;

    fn disconnect(&mut self)
        ensures
            !final(self).connected(),
            frames(final(self).sent()) == frames(old(self).sent()),
            same_ui(final(self), old(self)),
    ;

    fn is_connected(&self) -> (r: bool)
        ensures
            r == self.connected(),
    ;

    fn send_binary(&mut self, data: Vec<u8>) -> (r: ChatResult<()>)
        ensures
            sent_frame(old(self), final(self), data@, outcome(r)),
            same_ui(final(self), old(self)),
    ;
}

/// The protocol logic that every front end shares.
pub trait ChatClientCommon: ChatClient + ChatUserInterface {
    /// Encodes `message` and hands the bytes to the transport.
    fn send(&mut self, message: ClientMessage) -> (r: ChatResult<()>)
        ensures
            sent_frame(old(self), final(self), encode_client(message@), outcome(r)),
            same_ui(final(self), old(self)),
    ;

    /// Sends a chat line: its encoding while connected, a send error and no
    /// change while disconnected.
    fn send_message(&mut self, content: String) -> (r: ChatResult<()>)
        ensures
            chat_line_effect(old(self), final(self), content@, outcome(r)),
    ;

    /// Shows a message from the relay.
    fn recv(&mut self, message: ServerMessage) -> (r: ChatResult<()>)
        ensures
            r is Ok,
            texts(final(self).shown()) == texts(old(self).shown()).push(
                (message@->Message_nick, message@->Message_content),
            ),
            strings_view(final(self).nick_changes()@) == strings_view(
                old(self).nick_changes()@,
            ),
            final(self).quitting() == old(self).quitting(),
            same_transport(final(self), old(self)),
    ;

    /// Decodes bytes from the relay and shows the message. Bytes that are no
    /// server message are a serialization error, which leaves the client
    /// (and its connection) as it was.
    fn recv_binary(&mut self, data: &[u8]) -> (r: ChatResult<()>)
        ensures
            match decode_server(data@) {
                Err(_) => outcome(r) == Err::<(), ChatErrorView>(
                    ChatErrorView::SerializationError,
                ) && *final(self) == *old(self),
                Ok(ServerMessageView::Message { nick, content }) => {
                    &&& r is Ok
                    &&& texts(final(self).shown()) == texts(old(self).shown()).push(
                        (nick, content),
                    )
                    &&& strings_view(final(self).nick_changes()@) == strings_view(
                        old(self).nick_changes()@,
                    )
                    &&& final(self).quitting() == old(self).quitting()
                    &&& same_transport(final(self), old(self))
                },
            },
    ;

    /// Runs a command: what the command table refuses gives its error and
    /// changes nothing; `/nick n` shows the change and sends it to the relay;
    /// `/connect a` connects; `/disconnect` disconnects; `/quit` disconnects,
    /// then tells the user interface to end.
    fn handle_command(&mut self, name: String, params: Vec<String>) -> (r: ChatResult<()>)
        ensures
            command_line_effect(old(self), final(self), name@, strings_view(params@), outcome(r)),
    ;

    /// Parses a line and runs it: a command as `handle_command` does, a
    /// chat line as `send_message` does, and an empty line not at all.
    fn handle_input(&mut self, input: String) -> (r: ChatResult<()>)
        ensures
            match parse_input(input@) {
                ParsedInputView::Empty => r is Ok && *final(self) == *old(self),
                ParsedInputView::Command { name, params } => command_line_effect(
                    old(self),
                    final(self),
                    name,
                    params,
                    outcome(r),
                ),
                ParsedInputView::Message { content } => chat_line_effect(
                    old(self),
                    final(self),
                    content,
                    outcome(r),
                ),
            },
    ;
}

impl<T: ChatClient + ChatUserInterface> ChatClientCommon for T {
    fn send(&mut self, message: ClientMessage) -> (r: ChatResult<()>) {
        let data = message.serialize();
        self.send_binary(data)
    }

    fn send_message(&mut self, content: String) -> (r: ChatResult<()>) {
        let connected = self.is_connected();
        match chat_line_for(connected, content) {
            Ok(data) => self.send_binary(data),
            Err(e) => Err(e),
        }
    }

    fn recv(&mut self, message: ServerMessage) -> (r: ChatResult<()>) {
        match message {
            ServerMessage::Message { nick, content } => self.receive_message(nick, content),
        }
        Ok(())
    }

    fn recv_binary(&mut self, data: &[u8]) -> (r: ChatResult<()>) {
        match ServerMessage::deserialize(data) {
            Ok(message) => self.recv(message),
            Err(_) => Err(ChatError::SerializationError),
        }
    }

    fn handle_command(&mut self, name: String, params: Vec<String>) -> (r: ChatResult<()>) {
        match Command::from_parts(name, params) {
            Err(e) => Err(e),
            Ok(Command::Nick { nick }) => {
                self.change_nick(nick.clone());
                self.send(ClientMessage::Nick { nick })
            },
            Ok(Command::Connect { address }) => self.connect(address),
            Ok(Command::Disconnect) => {
                self.disconnect();
                Ok(())
            },
            Ok(Command::Quit) => {
                self.disconnect();
                self.quit();
                Ok(())
            },
        }
    }

    fn handle_input(&mut self, input: String) -> (r: ChatResult<()>) {
        match ParsedInput::parse(input.as_str()) {
            ParsedInput::Command { name, params } => self.handle_command(name, params),
            ParsedInput::Message { content } => self.send_message(content),
            ParsedInput::Empty => Ok(()),
        }
    }
}

impl std::str::FromStr for ParsedInput {
    type Err = ();

    fn from_str(s: &str) -> (r: Result<ParsedInput, ()>)
        ensures
            r matches Ok(p) && p@ == parse_input(s@),
    {
        Ok(ParsedInput::parse(s))
    }
}

} // verus!
