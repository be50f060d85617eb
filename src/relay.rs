//! The relay's control loop decisions: one event in, the registry updated and
//! at most one action out. The caller performs the action on the transports.

use crate::protocol::{
    decode_client, decode_server, encode_client, encode_server, lemma_client_round_trip,
    lemma_server_round_trip, text_fits, ClientMessage, ClientMessageView, DecodeError,
    ServerMessage, ServerMessageView,
};
use crate::registry::{
    looked_up, registered, renamed, unregistered, Endpoint, SessionRegistry,
};
use vstd::prelude::*;

verus! {

/// What the transports report to the relay.
pub enum RelayEvent {
    /// A peer connected.
    Connected(Endpoint),
    /// A peer sent these bytes.
    Message(Endpoint, Vec<u8>),
    /// A peer went away.
    Disconnected(Endpoint),
}

/// What the relay asks the transports to do after an event.
pub enum RelayAction {
    /// Nothing to send.
    Nothing,
    /// Send `data` to each of `recipients`, independently of one another.
    Broadcast { recipients: Vec<Endpoint>, data: Vec<u8> },
    /// The inbound bytes were no client message; they are dropped.
    Rejected(DecodeError),
}

/// The sessions after the relay has handled `ev`.
pub open spec fn sessions_after(m: Map<Endpoint, Seq<char>>, ev: &RelayEvent) -> Map<
    Endpoint,
    Seq<char>,
> {
    match ev {
        RelayEvent::Connected(e) => registered(m, *e),
        RelayEvent::Message(e, b) => match decode_client(b@) {
            Ok(ClientMessageView::Nick { nick }) => renamed(m, *e, nick),
            _ => m,
        },
        RelayEvent::Disconnected(e) => unregistered(m, *e),
    }
}

/// The message that a chat line `content` from `e` is relayed as.
pub open spec fn relayed(m: Map<Endpoint, Seq<char>>, e: Endpoint, content: Seq<char>) -> ServerMessageView {
    ServerMessageView::Message { nick: looked_up(m, e), content }
}

/// The broadcast that the relay makes for bytes `b` from `e`: the payload,
/// for every endpoint that has a session. Only a chat line from an endpoint
/// with a session is broadcast.
pub open spec fn broadcast_of(m: Map<Endpoint, Seq<char>>, e: Endpoint, b: Seq<u8>) -> Option<Seq<u8>> {
    match decode_client(b) {
        Ok(ClientMessageView::Message { content }) => if m.contains_key(e) {
            Some(encode_server(relayed(m, e, content)))
        } else {
            None
        },
        _ => None,
    }
}

/// The relay: the sessions of every transport in one registry.
pub struct Relay {
    sessions: SessionRegistry,
}

impl Relay {
    /// A relay without sessions.
    pub fn new() -> (r: Relay)
        ensures
            r.sessions() == Map::<Endpoint, Seq<char>>::empty(),
    {
        Relay { sessions: SessionRegistry::new() }
    }

    /// The sessions, endpoint to nickname.
    pub closed spec fn sessions(&self) -> Map<Endpoint, Seq<char>> {
        self.sessions@
    }

    /// The registry, to read.
    pub fn registry(&self) -> (r: &SessionRegistry)
        ensures
            r@ == self.sessions(),
    {
        &self.sessions
    }

    /// Handles one event to completion: updates the sessions and says what
    /// to send. Bytes that are no client message are rejected with the
    /// reason; a chat line from an endpoint with a session goes to every
    /// endpoint with a session, its sender included; a nickname change is
    /// sent to nobody.
    pub fn handle_event(&mut self, ev: RelayEvent) -> (r: RelayAction)
        ensures
            final(self).sessions() == sessions_after(old(self).sessions(), &ev),
            match ev {
                RelayEvent::Message(e, b) => match decode_client(b@) {
                    Err(err) => r == RelayAction::Rejected(err),
                    Ok(_) => match broadcast_of(old(self).sessions(), e, b@) {
                        Some(payload) => r matches RelayAction::Broadcast { recipients, data } && {
                            &&& recipients@.to_set() == old(self).sessions().dom()
                            &&& recipients@.no_duplicates()
                            &&& data@ == payload
                        },
                        None => r is Nothing,
                    },
                },
                _ => r is Nothing,
            },
    {
        match ev {
            RelayEvent::Connected(e) => {
                self.sessions.register(e);
                RelayAction::Nothing
            },
            RelayEvent::Disconnected(e) => {
                self.sessions.unregister(e);
                RelayAction::Nothing
            },
            RelayEvent::Message(e, b) => match ClientMessage::deserialize(b.as_slice()) {
                Err(err) => RelayAction::Rejected(err),
                Ok(ClientMessage::Nick { nick }) => {
                    self.sessions.rename(e, nick);
                    RelayAction::Nothing
                },
                Ok(ClientMessage::Message { content }) => {
                    if self.sessions.contains(e) {
                        let nick = self.sessions.lookup(e);
                        let data = ServerMessage::Message { nick, content }.serialize();
                        let recipients = self.sessions.all_endpoints();
                        RelayAction::Broadcast { recipients, data }
                    } else {
                        RelayAction::Nothing
                    }
                },
            },
        }
    }
}

/// A chat line that a session sends reaches every session, the sender
/// included, and each recipient decodes it as the line under the sender's
/// nickname.
pub proof fn lemma_broadcast_reaches_all(
    m: Map<Endpoint, Seq<char>>,
    sender: Endpoint,
    content: Seq<char>,
)
    requires
        m.contains_key(sender),
        text_fits(m[sender]),
        text_fits(content),
    ensures
        ({
            let sent = encode_client(ClientMessageView::Message { content });
            &&& broadcast_of(m, sender, sent) == Some(encode_server(relayed(m, sender, content)))
            &&& decode_server(encode_server(relayed(m, sender, content))) == Ok::<
                ServerMessageView,
                DecodeError,
            >(ServerMessageView::Message { nick: m[sender], content })
        }),
{
    lemma_client_round_trip(ClientMessageView::Message { content });
    lemma_server_round_trip(relayed(m, sender, content));
}

} // verus!
