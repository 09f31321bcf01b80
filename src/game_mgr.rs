use vstd::prelude::*;

use crate::game_ws_mgr::{ConnectionState, GameWsResponse, WebSocketStatus};
use crate::subscribers::{Broadcast, Subscribers};

verus! {

/// What subscribers of the game manager are told.
#[derive(Clone, Debug)]
pub enum GameMgrResponse {
    WebSocketStatusChanged(WebSocketStatus),
}

/// The state of the connection that a broadcast of the connection manager
/// reports, if it reports one.
pub open spec fn status_reported(msg: GameWsResponse) -> Option<ConnectionState> {
    match msg {
        GameWsResponse::Connecting(info) => Some(ConnectionState::Pending(info@)),
        GameWsResponse::Connected(info) => Some(ConnectionState::Live(info@)),
        GameWsResponse::Closed => Some(ConnectionState::Idle),
        GameWsResponse::FailedToConnect(_) => Some(ConnectionState::Idle),
        GameWsResponse::ErrorOccurred => Some(ConnectionState::Idle),
        GameWsResponse::Received(_) => None,
        GameWsResponse::ReceivedError(_) => None,
        GameWsResponse::WebSocketStatus(status) => Some(status@),
    }
}

/// Follows the connection manager's broadcasts and tells its own subscribers
/// each time the state of the connection changes.
pub struct GameMgr {
    subscribers: Subscribers,
    ws_status: WebSocketStatus,
}

impl GameMgr {
    pub closed spec fn status(&self) -> ConnectionState {
        self.ws_status@
    }

    pub closed spec fn subscribers(&self) -> Seq<u64> {
        self.subscribers@
    }

    pub fn create() -> (r: Self)
        ensures
            r.status() == ConnectionState::Idle,
            r.subscribers() == Seq::<u64>::empty(),
    {
        GameMgr { subscribers: Subscribers::new(), ws_status: WebSocketStatus::NotConnected }
    }

    pub fn ws_status(&self) -> (r: WebSocketStatus)
        ensures
            r@ == self.status(),
    {
        self.ws_status.clone()
    }

    /// Registers a subscriber; registering one twice changes nothing.
    pub fn connected(&mut self, id: u64)
        ensures
            final(self).status() == old(self).status(),
            old(self).subscribers().contains(id) ==> final(self).subscribers() == old(
                self,
            ).subscribers(),
            !old(self).subscribers().contains(id) ==> final(self).subscribers() == old(
                self,
            ).subscribers().push(id),
    {
        self.subscribers.add(id);
    }

    pub fn disconnected(&mut self, id: u64)
        ensures
            final(self).status() == old(self).status(),
            !final(self).subscribers().contains(id),
            final(self).subscribers().to_set() == old(self).subscribers().to_set().remove(id),
    {
        self.subscribers.remove(id);
    }

    /// Replaces the known status by `status`, telling whether it differed.
    fn update_ws_status(&mut self, status: WebSocketStatus) -> (r: bool)
        ensures
            r == (status@ != old(self).status()),
            final(self).status() == status@,
            final(self).subscribers() == old(self).subscribers(),
    {
        if self.ws_status.same_status(&status) {
            false
        } else {
            self.ws_status = status;
            true
        }
    }

    /// Takes a broadcast of the connection manager. Where it reports a state
    /// other than the known one, that state becomes the known one and is
    /// broadcast to every subscriber; otherwise nothing changes.
    pub fn update(&mut self, msg: GameWsResponse) -> (r: Option<Broadcast<GameMgrResponse>>)
        ensures
            final(self).subscribers() == old(self).subscribers(),
            match status_reported(msg) {
                Some(s) if s != old(self).status() => {
                    &&& final(self).status() == s
                    &&& r matches Some(b)
                    &&& b.to@ == old(self).subscribers()
                    &&& b.to@.no_duplicates()
                    &&& b.response matches GameMgrResponse::WebSocketStatusChanged(st)
                    &&& st@ == s
                },
                _ => final(self).status() == old(self).status() && r is None,
            },
    {
        let status = match msg {
            GameWsResponse::Connecting(info) => WebSocketStatus::Pending(info),
            GameWsResponse::Connected(info) => WebSocketStatus::Connected(info),
            GameWsResponse::Closed => WebSocketStatus::NotConnected,
            GameWsResponse::FailedToConnect(_) => WebSocketStatus::NotConnected,
            GameWsResponse::ErrorOccurred => WebSocketStatus::NotConnected,
            GameWsResponse::Received(_) => {
                return None;
            },
            GameWsResponse::ReceivedError(_) => {
                return None;
            },
            GameWsResponse::WebSocketStatus(status) => status,
        };
        if self.update_ws_status(status) {
            Some(
                Broadcast {
                    to: self.subscribers.recipients(),
                    response: GameMgrResponse::WebSocketStatusChanged(self.ws_status.clone()),
                },
            )
        } else {
            None
        }
    }
}

} // verus!
