use vstd::prelude::*;

use crate::frames::{is_json_document, parse_json};
use crate::subscribers::{Broadcast, Subscribers};

verus! {

/// The (game, player) pair that a socket is opened for.
#[derive(Debug)]
pub struct GameWsConnectionInfo {
    pub game_id: String,
    pub player_id: String,
}

/// An identity as a pair of texts: game id, then player id.
pub type Identity = (Seq<char>, Seq<char>);

impl View for GameWsConnectionInfo {
    type V = Identity;

    open spec fn view(&self) -> Identity {
        (self.game_id@, self.player_id@)
    }
}

impl Clone for GameWsConnectionInfo {
    fn clone(&self) -> (r: Self)
        ensures
            r@ == self@,
    {
        GameWsConnectionInfo { game_id: self.game_id.clone(), player_id: self.player_id.clone() }
    }
}

impl GameWsConnectionInfo {
    pub fn new(game_id: String, player_id: String) -> (r: Self)
        ensures
            r@ == (game_id@, player_id@),
    {
        GameWsConnectionInfo { game_id, player_id }
    }

    pub fn same_identity(&self, other: &GameWsConnectionInfo) -> (r: bool)
        ensures
            r == (self@ == other@),
    {
        self.game_id == other.game_id && self.player_id == other.player_id
    }
}

/// The path of the socket endpoint for an identity, relative to the page's origin.
pub open spec fn socket_path_of(id: Identity) -> Seq<char> {
    "/api/round/"@ + id.0 + "/join?playerId="@ + id.1
}

/// Builds the path of the socket endpoint for `info`.
pub fn socket_path(info: &GameWsConnectionInfo) -> (r: String)
    ensures
        r@ == socket_path_of(info@),
{
    let mut path = String::from_str("/api/round/");
    path.append(info.game_id.as_str());
    path.append("/join?playerId=");
    path.append(info.player_id.as_str());
    path
}

/// The socket protocol that goes with the protocol of the hosting page
/// (`"https:"` gives `"wss:"`, any other `"ws:"`).
pub open spec fn socket_protocol_of(page_protocol: Seq<char>) -> Seq<char> {
    if page_protocol == "https:"@ {
        "wss:"@
    } else {
        "ws:"@
    }
}

pub fn socket_protocol(page_protocol: &str) -> (r: String)
    ensures
        r@ == socket_protocol_of(page_protocol@),
{
    if String::from_str(page_protocol) == String::from_str("https:") {
        String::from_str("wss:")
    } else {
        String::from_str("ws:")
    }
}

/// The lifecycle of the connection: no socket, a handshake in flight, or a
/// socket over which frames may be exchanged.
pub enum ConnectionState {
    Idle,
    Pending(Identity),
    Live(Identity),
}

/// Whether a state holds (or is opening) a socket for `id`.
pub open spec fn holds_identity(s: ConnectionState, id: Identity) -> bool {
    match s {
        ConnectionState::Idle => false,
        ConnectionState::Pending(i) => i == id,
        ConnectionState::Live(i) => i == id,
    }
}

/// The state of the socket as subscribers are told of it.
#[derive(Debug)]
pub enum WebSocketStatus {
    NotConnected,
    Pending(GameWsConnectionInfo),
    Connected(GameWsConnectionInfo),
}

impl View for WebSocketStatus {
    type V = ConnectionState;

    open spec fn view(&self) -> ConnectionState {
        match self {
            WebSocketStatus::NotConnected => ConnectionState::Idle,
            WebSocketStatus::Pending(info) => ConnectionState::Pending(info@),
            WebSocketStatus::Connected(info) => ConnectionState::Live(info@),
        }
    }
}

impl Clone for WebSocketStatus {
    fn clone(&self) -> (r: Self)
        ensures
            r@ == self@,
    {
        match self {
            WebSocketStatus::NotConnected => WebSocketStatus::NotConnected,
            WebSocketStatus::Pending(info) => WebSocketStatus::Pending(info.clone()),
            WebSocketStatus::Connected(info) => WebSocketStatus::Connected(info.clone()),
        }
    }
}

impl WebSocketStatus {
    pub fn is_pending(&self) -> (r: bool)
        ensures
            r == (self@ is Pending),
    {
        match self {
            WebSocketStatus::Pending(_) => true,
            _ => false,
        }
    }

    pub fn is_connected(&self) -> (r: bool)
        ensures
            r == (self@ is Live),
    {
        match self {
            WebSocketStatus::Connected(_) => true,
            _ => false,
        }
    }

    pub fn same_status(&self, other: &WebSocketStatus) -> (r: bool)
        ensures
            r == (self@ == other@),
    {
        match (self, other) {
            (WebSocketStatus::NotConnected, WebSocketStatus::NotConnected) => true,
            (WebSocketStatus::Pending(a), WebSocketStatus::Pending(b)) => a.same_identity(b),
            (WebSocketStatus::Connected(a), WebSocketStatus::Connected(b)) => a.same_identity(b),
            _ => false,
        }
    }
}

/// The socket itself, held together with the tag of its state: there is no
/// handle without a matching identity.
pub enum WebSocketConnection<T> {
    Idle,
    Pending { info: GameWsConnectionInfo, task: T },
    Connected { info: GameWsConnectionInfo, task: T },
}

impl<T> WebSocketConnection<T> {
    pub open spec fn state(&self) -> ConnectionState {
        match self {
            WebSocketConnection::Idle => ConnectionState::Idle,
            WebSocketConnection::Pending { info, .. } => ConnectionState::Pending(info@),
            WebSocketConnection::Connected { info, .. } => ConnectionState::Live(info@),
        }
    }

    pub open spec fn socket(&self) -> Option<T> {
        match self {
            WebSocketConnection::Idle => None,
            WebSocketConnection::Pending { task, .. } => Some(*task),
            WebSocketConnection::Connected { task, .. } => Some(*task),
        }
    }

    pub fn status(&self) -> (r: WebSocketStatus)
        ensures
            r@ == self.state(),
    {
        match self {
            WebSocketConnection::Idle => WebSocketStatus::NotConnected,
            WebSocketConnection::Pending { info, .. } => WebSocketStatus::Pending(info.clone()),
            WebSocketConnection::Connected { info, .. } => WebSocketStatus::Connected(info.clone()),
        }
    }
}

/// A frame to write on the live socket.
#[derive(Clone, Debug)]
pub struct WsRequest(pub serde_json::Value);

/// A frame received from the socket, parsed as JSON.
#[derive(Clone, Debug)]
pub struct WsResponse(pub serde_json::Value);

/// What subscribers of the connection manager are told.
#[derive(Clone, Debug)]
pub enum GameWsResponse {
    Closed,
    Connected(GameWsConnectionInfo),
    Connecting(GameWsConnectionInfo),
    ErrorOccurred,
    FailedToConnect(String),
    Received(WsResponse),
    ReceivedError(String),
    WebSocketStatus(WebSocketStatus),
}

/// The outcome of a transition of the socket: the socket that the
/// transition let go of, which the caller closes, and what to broadcast.
pub struct Transition<T> {
    pub release: Option<T>,
    pub broadcast: Broadcast<GameWsResponse>,
}

/// The answer to a request to be connected for an identity.
pub enum JoinDecision<T> {
    /// A socket for that identity is already open or opening: reply this
    /// status to the caller alone.
    Respond(WebSocketStatus),
    /// Close `release`, if any, then open a socket at `path` and hand the
    /// outcome to `connect_result`.
    Connect { path: String, release: Option<T> },
}

/// The signals of the socket transport.
pub enum SocketSignal {
    Opened,
    Closed,
    Error,
}

/// The connection manager: the one socket to the game server, and the
/// subscribers that hear of it.
pub struct GameWsMgr<T> {
    subscribers: Subscribers,
    ws: WebSocketConnection<T>,
}

impl<T> GameWsMgr<T> {
    pub closed spec fn state(&self) -> ConnectionState {
        self.ws.state()
    }

    pub closed spec fn socket(&self) -> Option<T> {
        self.ws.socket()
    }

    pub closed spec fn subscribers(&self) -> Seq<u64> {
        self.subscribers@
    }

    pub fn new() -> (r: Self)
        ensures
            r.state() == ConnectionState::Idle,
            r.socket() is None,
            r.subscribers() == Seq::<u64>::empty(),
    {
        GameWsMgr { subscribers: Subscribers::new(), ws: WebSocketConnection::Idle }
    }

    /// Registers a subscriber; from now on it hears every broadcast.
    pub fn connected(&mut self, id: u64)
        ensures
            final(self).state() == old(self).state(),
            final(self).socket() == old(self).socket(),
            final(self).subscribers().to_set() == old(self).subscribers().to_set().insert(id),
            old(self).subscribers().contains(id) ==> final(self).subscribers() == old(
                self,
            ).subscribers(),
            !old(self).subscribers().contains(id) ==> final(self).subscribers() == old(
                self,
            ).subscribers().push(id),
    {
        self.subscribers.add(id);
    }

    /// Unregisters a subscriber, telling whether it was registered; it hears
    /// no broadcast from now on.
    pub fn disconnected(&mut self, id: u64) -> (r: bool)
        ensures
            final(self).state() == old(self).state(),
            final(self).socket() == old(self).socket(),
            r == old(self).subscribers().contains(id),
            !final(self).subscribers().contains(id),
            final(self).subscribers().to_set() == old(self).subscribers().to_set().remove(id),
    {
        self.subscribers.remove(id)
    }

    /// The current state, for the caller alone.
    pub fn status(&self) -> (r: WebSocketStatus)
        ensures
            r@ == self.state(),
    {
        self.ws.status()
    }

    fn broadcast(&self, response: GameWsResponse) -> (r: Broadcast<GameWsResponse>)
        ensures
            r.to@ == self.subscribers(),
            r.to@.no_duplicates(),
            r.response == response,
    {
        Broadcast { to: self.subscribers.recipients(), response }
    }

    fn take_socket(&mut self) -> (r: Option<T>)
        ensures
            r == old(self).socket(),
            final(self).state() == ConnectionState::Idle,
            final(self).socket() is None,
            final(self).subscribers() == old(self).subscribers(),
    {
        let mut cur = WebSocketConnection::Idle;
        std::mem::swap(&mut self.ws, &mut cur);
        match cur {
            WebSocketConnection::Idle => None,
            WebSocketConnection::Pending { task, .. } => Some(task),
            WebSocketConnection::Connected { task, .. } => Some(task),
        }
    }

    /// Asks for a socket for `info`. Where one for that identity is already
    /// open or opening, nothing changes and the current status is the reply.
    /// Otherwise the current socket, if any, is let go of, the state becomes
    /// idle, and a socket must be opened at the identity's path.
    pub fn join_round(&mut self, info: &GameWsConnectionInfo) -> (r: JoinDecision<T>)
        ensures
            holds_identity(old(self).state(), info@) ==> {
                &&& *final(self) == *old(self)
                &&& r matches JoinDecision::Respond(status)
                &&& status@ == old(self).state()
            },
            !holds_identity(old(self).state(), info@) ==> {
                &&& r matches JoinDecision::Connect { path, release }
                &&& path@ == socket_path_of(info@)
                &&& release == old(self).socket()
                &&& final(self).state() == ConnectionState::Idle
                &&& final(self).socket() is None
                &&& final(self).subscribers() == old(self).subscribers()
            },
    {
        let same = match &self.ws {
            WebSocketConnection::Idle => false,
            WebSocketConnection::Pending { info: cur, .. } => cur.same_identity(info),
            WebSocketConnection::Connected { info: cur, .. } => cur.same_identity(info),
        };
        if same {
            JoinDecision::Respond(self.ws.status())
        } else {
            let release = self.take_socket();
            JoinDecision::Connect { path: socket_path(info), release }
        }
    }

    /// Takes the outcome of opening a socket for `info`: a socket puts the
    /// manager in `Pending(info)` and `Connecting` is broadcast; a refusal
    /// leaves it idle and `FailedToConnect` is broadcast.
    pub fn connect_result(&mut self, info: GameWsConnectionInfo, outcome: Result<T, String>) -> (r:
        Transition<T>)
        ensures
            final(self).subscribers() == old(self).subscribers(),
            r.release == old(self).socket(),
            r.broadcast.to@ == old(self).subscribers(),
            r.broadcast.to@.no_duplicates(),
            match outcome {
                Ok(task) => {
                    &&& final(self).state() == ConnectionState::Pending(info@)
                    &&& final(self).socket() == Some(task)
                    &&& r.broadcast.response matches GameWsResponse::Connecting(i)
                    &&& i@ == info@
                },
                Err(reason) => {
                    &&& final(self).state() == ConnectionState::Idle
                    &&& final(self).socket() is None
                    &&& r.broadcast.response == GameWsResponse::FailedToConnect(reason)
                },
            },
    {
        let release = self.take_socket();
        match outcome {
            Ok(task) => {
                let announced = info.clone();
                self.ws = WebSocketConnection::Pending { info, task };
                Transition { release, broadcast: self.broadcast(GameWsResponse::Connecting(announced)) }
            },
            Err(reason) => {
                Transition { release, broadcast: self.broadcast(GameWsResponse::FailedToConnect(reason)) }
            },
        }
    }

    /// Lets go of the socket, whatever its state; the caller closes it and
    /// reports the closure as a `Closed` signal.
    pub fn close_socket(&mut self) -> (r: Option<T>)
        ensures
            r == old(self).socket(),
            final(self).state() == ConnectionState::Idle,
            final(self).socket() is None,
            final(self).subscribers() == old(self).subscribers(),
    {
        self.take_socket()
    }

    /// Whether a frame may be written now: only on a live socket.
    pub fn can_send(&self) -> (r: bool)
        ensures
            r == (self.state() is Live),
    {
        match &self.ws {
            WebSocketConnection::Connected { .. } => true,
            _ => false,
        }
    }

    /// The socket to write a frame on: only a live one. Sending on a socket
    /// that is not live is dropped by the caller.
    pub fn live_socket(&mut self) -> (r: Option<&mut T>)
        ensures
            r is Some <==> old(self).state() is Live,
            final(self).state() == old(self).state(),
            final(self).subscribers() == old(self).subscribers(),
    {
        match &mut self.ws {
            WebSocketConnection::Connected { task, .. } => Some(task),
            _ => None,
        }
    }

    /// Takes a frame that the transport could not read as text: it is
    /// broadcast as `ReceivedError`, and the connection is not touched.
    pub fn on_unreadable_frame(&self, description: String) -> (r: Broadcast<GameWsResponse>)
        ensures
            r.to@ == self.subscribers(),
            r.to@.no_duplicates(),
            r.response == GameWsResponse::ReceivedError(description),
    {
        self.broadcast(GameWsResponse::ReceivedError(description))
    }

    /// Takes a signal of the transport.
    /// - `Opened` while pending makes the socket live and `Connected` is
    ///   broadcast; in any other state the signal comes from a superseded
    ///   socket: the manager lets go of what it holds, becomes idle, and
    ///   `ErrorOccurred` is broadcast.
    /// - `Closed` and `Error` make the manager idle and broadcast `Closed` and
    ///   `ErrorOccurred`.
    pub fn on_signal(&mut self, signal: SocketSignal) -> (r: Transition<T>)
        ensures
            final(self).subscribers() == old(self).subscribers(),
            r.broadcast.to@ == old(self).subscribers(),
            r.broadcast.to@.no_duplicates(),
            match (signal, old(self).state()) {
                (SocketSignal::Opened, ConnectionState::Pending(id)) => {
                    &&& final(self).state() == ConnectionState::Live(id)
                    &&& final(self).socket() == old(self).socket()
                    &&& r.release is None
                    &&& r.broadcast.response matches GameWsResponse::Connected(i)
                    &&& i@ == id
                },
                (SocketSignal::Closed, _) => {
                    &&& final(self).state() == ConnectionState::Idle
                    &&& final(self).socket() is None
                    &&& r.release == old(self).socket()
                    &&& r.broadcast.response is Closed
                },
                _ => {
                    &&& final(self).state() == ConnectionState::Idle
                    &&& final(self).socket() is None
                    &&& r.release == old(self).socket()
                    &&& r.broadcast.response is ErrorOccurred
                },
            },
    {
        let mut cur = WebSocketConnection::Idle;
        std::mem::swap(&mut self.ws, &mut cur);
        match (signal, cur) {
            (SocketSignal::Opened, WebSocketConnection::Pending { info, task }) => {
                let announced = info.clone();
                self.ws = WebSocketConnection::Connected { info, task };
                Transition {
                    release: None,
                    broadcast: self.broadcast(GameWsResponse::Connected(announced)),
                }
            },
            (SocketSignal::Closed, cur) => {
                let release = match cur {
                    WebSocketConnection::Idle => None,
                    WebSocketConnection::Pending { task, .. } => Some(task),
                    WebSocketConnection::Connected { task, .. } => Some(task),
                };
                Transition { release, broadcast: self.broadcast(GameWsResponse::Closed) }
            },
            (_, cur) => {
                let release = match cur {
                    WebSocketConnection::Idle => None,
                    WebSocketConnection::Pending { task, .. } => Some(task),
                    WebSocketConnection::Connected { task, .. } => Some(task),
                };
                Transition { release, broadcast: self.broadcast(GameWsResponse::ErrorOccurred) }
            },
        }
    }

    /// Takes a text frame received from the socket: a JSON document is
    /// broadcast as `Received`, anything else as `ReceivedError`. The state
    /// of the connection is not touched.
    pub fn on_frame(&self, text: &str) -> (r: Broadcast<GameWsResponse>)
        ensures
            r.to@ == self.subscribers(),
            r.to@.no_duplicates(),
            is_json_document(text@) ==> r.response is Received,
            !is_json_document(text@) ==> r.response is ReceivedError,
    {
        match parse_json(text) {
            Ok(value) => self.broadcast(GameWsResponse::Received(WsResponse(value))),
            Err(description) => self.broadcast(GameWsResponse::ReceivedError(description)),
        }
    }
}

/// Once a handle is unsubscribed it hears nothing more, whatever the socket
/// does next: along a run of transitions that keep the subscribers (as every
/// transition of the socket does), each broadcast goes to the subscribers of
/// the state it leaves, none of which is `h`.
pub proof fn law_unsubscribed_hears_nothing<T>(
    states: Seq<GameWsMgr<T>>,
    recipients: Seq<Seq<u64>>,
    h: u64,
)
    requires
        states.len() > 0,
        !states[0].subscribers().contains(h),
        forall|i: int| 0 <= i < states.len() - 1 ==> #[trigger] states[i + 1].subscribers() == states[i].subscribers(),
        recipients.len() < states.len(),
        forall|i: int| 0 <= i < recipients.len() ==> #[trigger] recipients[i] == states[i].subscribers(),
    ensures
        forall|i: int| 0 <= i < recipients.len() ==> !(#[trigger] recipients[i]).contains(h),
{
    assert forall|i: int| 0 <= i < states.len() implies !(#[trigger] states[i].subscribers()).contains(h) by {
        lemma_subscribers_kept(states, i);
    }
    assert forall|i: int| 0 <= i < recipients.len() implies !(#[trigger] recipients[i]).contains(h) by {
        assert(!states[i].subscribers().contains(h));
    }
}

proof fn lemma_subscribers_kept<T>(states: Seq<GameWsMgr<T>>, i: int)
    requires
        0 <= i < states.len(),
        forall|k: int| 0 <= k < states.len() - 1 ==> #[trigger] states[k + 1].subscribers() == states[k].subscribers(),
    ensures
        states[i].subscribers() == states[0].subscribers(),
    decreases i,
{
    if i > 0 {
        lemma_subscribers_kept(states, i - 1);
        assert(states[(i - 1) + 1].subscribers() == states[i - 1].subscribers());
    }
}

} // verus!
