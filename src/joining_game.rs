use vstd::prelude::*;

use crate::game_server::{
    join_outcome_of, join_round_path_of, is_success_status, GameServerService, JoinRoundResponse,
};
use crate::game_ws_mgr::{GameWsConnectionInfo, GameWsResponse, Identity};

verus! {

/// How long, in seconds, the workflow waits once the socket is live before it
/// declares the join done.
pub const SETTLE_DELAY_SECS: u64 = 3;

/// The steps of joining a game.
#[derive(Debug)]
pub enum JoinStep {
    WantToJoinGame,
    JoiningGame,
    JoinedGameWebSocketPending { player_id: String },
    JoinedGameWithWebSocket { player_id: String },
    WaitingRedirect,
    JoinFailed { player_id: Option<String>, error: String },
}

/// A step of the join workflow in mathematical form.
pub enum JoinStepV {
    WantToJoin,
    Joining,
    SocketPending(Seq<char>),
    SocketLive(Seq<char>),
    Redirecting,
    Failed { player_id: Option<Seq<char>>, error: Seq<char> },
}

impl View for JoinStep {
    type V = JoinStepV;

    open spec fn view(&self) -> JoinStepV {
        match self {
            JoinStep::WantToJoinGame => JoinStepV::WantToJoin,
            JoinStep::JoiningGame => JoinStepV::Joining,
            JoinStep::JoinedGameWebSocketPending { player_id } => JoinStepV::SocketPending(
                player_id@,
            ),
            JoinStep::JoinedGameWithWebSocket { player_id } => JoinStepV::SocketLive(player_id@),
            JoinStep::WaitingRedirect => JoinStepV::Redirecting,
            JoinStep::JoinFailed { player_id, error } => JoinStepV::Failed {
                player_id: match player_id {
                    Some(p) => Some(p@),
                    None => None,
                },
                error: error@,
            },
        }
    }
}

/// The player identity that a step knows of.
pub open spec fn player_id_of(step: JoinStepV) -> Option<Seq<char>> {
    match step {
        JoinStepV::SocketPending(p) => Some(p),
        JoinStepV::SocketLive(p) => Some(p),
        JoinStepV::Failed { player_id, .. } => player_id,
        _ => None,
    }
}

impl JoinStep {
    pub fn into_player_id_or_none(self) -> (r: Option<String>)
        ensures
            match r {
                Some(p) => player_id_of(self@) == Some(p@),
                None => player_id_of(self@) is None,
            },
    {
        match self {
            JoinStep::JoinedGameWebSocketPending { player_id } => Some(player_id),
            JoinStep::JoinedGameWithWebSocket { player_id } => Some(player_id),
            JoinStep::JoinFailed { player_id, .. } => player_id,
            _ => None,
        }
    }
}

/// The events that drive the workflow.
#[derive(Debug)]
pub enum Msg {
    /// Start joining.
    JoinRound,
    /// The answer to the HTTP join call.
    JoinRoundResponse(Result<JoinRoundResponse, String>),
    /// A broadcast of the connection manager.
    GameWsResponse(GameWsResponse),
    /// The settle delay has elapsed.
    SuccessfullyJoined,
}

/// What the host is to do after a transition.
#[derive(Debug)]
pub enum JoinAction {
    Nothing,
    /// Issue the HTTP join call at this path.
    FetchJoin { path: String },
    /// Ask the connection manager for a socket for this identity.
    EnsureConnected(GameWsConnectionInfo),
    /// Send `SuccessfullyJoined` once this many seconds have passed.
    StartSettleDelay { seconds: u64 },
    /// Switch to the in-game screen for this game and player.
    Navigate { game_id: String, player_id: String },
    /// The event does not fit the step: a defect to record. The step is kept.
    ImpossibleTransition,
}

/// An action in mathematical form.
pub enum JoinActionV {
    Nothing,
    FetchJoin(Seq<char>),
    EnsureConnected(Identity),
    StartSettleDelay(u64),
    Navigate(Identity),
    ImpossibleTransition,
}

impl View for JoinAction {
    type V = JoinActionV;

    open spec fn view(&self) -> JoinActionV {
        match self {
            JoinAction::Nothing => JoinActionV::Nothing,
            JoinAction::FetchJoin { path } => JoinActionV::FetchJoin(path@),
            JoinAction::EnsureConnected(info) => JoinActionV::EnsureConnected(info@),
            JoinAction::StartSettleDelay { seconds } => JoinActionV::StartSettleDelay(*seconds),
            JoinAction::Navigate { game_id, player_id } => JoinActionV::Navigate(
                (game_id@, player_id@),
            ),
            JoinAction::ImpossibleTransition => JoinActionV::ImpossibleTransition,
        }
    }
}

/// The step and the action that follow an event, for a workflow joining
/// `game_id` as `username`.
pub open spec fn transition(step: JoinStepV, game_id: Seq<char>, username: Seq<char>, msg: Msg) -> (
    JoinStepV,
    JoinActionV,
) {
    match (step, msg) {
        (JoinStepV::WantToJoin, Msg::JoinRound) => (
            JoinStepV::Joining,
            JoinActionV::FetchJoin(join_round_path_of(game_id, username)),
        ),
        (JoinStepV::Joining, Msg::JoinRoundResponse(Ok(response))) => (
            JoinStepV::SocketPending(response.player_id@),
            JoinActionV::EnsureConnected((game_id, response.player_id@)),
        ),
        (JoinStepV::Joining, Msg::JoinRoundResponse(Err(e))) => (
            JoinStepV::Failed { player_id: None, error: "error joining the round: "@ + e@ },
            JoinActionV::Nothing,
        ),
        (JoinStepV::SocketPending(p), Msg::GameWsResponse(GameWsResponse::Connected(_))) => (
            JoinStepV::SocketLive(p),
            JoinActionV::StartSettleDelay(SETTLE_DELAY_SECS),
        ),
        (JoinStepV::SocketPending(p), Msg::GameWsResponse(GameWsResponse::ErrorOccurred))
        | (JoinStepV::SocketLive(p), Msg::GameWsResponse(GameWsResponse::ErrorOccurred)) => (
            JoinStepV::Failed {
                player_id: Some(p),
                error: "Unknown error occurred while connecting."@,
            },
            JoinActionV::Nothing,
        ),
        (JoinStepV::SocketPending(p), Msg::GameWsResponse(GameWsResponse::FailedToConnect(reason)))
        | (JoinStepV::SocketLive(p), Msg::GameWsResponse(GameWsResponse::FailedToConnect(reason))) => (
            JoinStepV::Failed { player_id: Some(p), error: "Failed to connect: "@ + reason@ },
            JoinActionV::Nothing,
        ),
        (JoinStepV::SocketLive(p), Msg::SuccessfullyJoined) => (
            JoinStepV::Redirecting,
            JoinActionV::Navigate((game_id, p)),
        ),
        // Broadcasts that do not concern the current step.
        (s, Msg::GameWsResponse(_)) => (s, JoinActionV::Nothing),
        (s, _) => (s, JoinActionV::ImpossibleTransition),
    }
}

/// Once the join call returns a player id `p` and the connection manager
/// broadcasts `Connecting` and then `Connected` for `(game_id, p)`, the
/// workflow is live for `p`; when the settle delay has elapsed it redirects,
/// and the one navigation it ever asks for is to `(game_id, p)`.
pub proof fn law_join_happy_path(
    game_id: Seq<char>,
    username: Seq<char>,
    response: JoinRoundResponse,
    connecting: GameWsConnectionInfo,
    connected: GameWsConnectionInfo,
)
    requires
        connecting@ == (game_id, response.player_id@),
        connected@ == (game_id, response.player_id@),
    ensures
        ({
            let p = response.player_id@;
            let t1 = transition(JoinStepV::WantToJoin, game_id, username, Msg::JoinRound);
            let t2 = transition(t1.0, game_id, username, Msg::JoinRoundResponse(Ok(response)));
            let t3 = transition(
                t2.0,
                game_id,
                username,
                Msg::GameWsResponse(GameWsResponse::Connecting(connecting)),
            );
            let t4 = transition(
                t3.0,
                game_id,
                username,
                Msg::GameWsResponse(GameWsResponse::Connected(connected)),
            );
            let t5 = transition(t4.0, game_id, username, Msg::SuccessfullyJoined);
            &&& t1.1 == JoinActionV::FetchJoin(join_round_path_of(game_id, username))
            &&& t2.1 == JoinActionV::EnsureConnected((game_id, p))
            &&& t4.0 == JoinStepV::SocketLive(p)
            &&& t4.1 == JoinActionV::StartSettleDelay(SETTLE_DELAY_SECS)
            &&& t5.0 == JoinStepV::Redirecting
            &&& t5.1 == JoinActionV::Navigate((game_id, p))
            &&& !(t1.1 is Navigate) && !(t2.1 is Navigate) && !(t3.1 is Navigate) && !(
            t4.1 is Navigate)
        }),
{
}

/// A join call answered with a status that is not a success leaves the
/// workflow failed with no player id, and asks the connection manager for
/// nothing.
pub proof fn law_join_http_failure(
    game_id: Seq<char>,
    username: Seq<char>,
    status: u16,
    status_text: String,
    body: Result<JoinRoundResponse, String>,
)
    requires
        !is_success_status(status),
    ensures
        ({
            let t = transition(
                JoinStepV::Joining,
                game_id,
                username,
                Msg::JoinRoundResponse(join_outcome_of(status, status_text, body)),
            );
            &&& t.0 matches JoinStepV::Failed { player_id: None, .. }
            &&& t.1 == JoinActionV::Nothing
        }),
{
}

/// The properties that the hosting screen gives the workflow.
pub struct Props {
    pub game_id: String,
    pub username: String,
}

/// One workflow that joins the game `game_id` as `username`.
pub struct JoiningGame {
    pub game_server: GameServerService,
    pub step: JoinStep,
    pub game_id: String,
    pub username: String,
}

impl JoiningGame {
    /// A workflow at its first step; the host then sends `Msg::JoinRound`.
    pub fn create(props: Props) -> (r: Self)
        ensures
            r.step@ == JoinStepV::WantToJoin,
            r.game_id@ == props.game_id@,
            r.username@ == props.username@,
    {
        JoiningGame {
            game_server: GameServerService::new(),
            step: JoinStep::WantToJoinGame,
            game_id: props.game_id,
            username: props.username,
        }
    }

    /// New properties restart the workflow from its first step; the same ones
    /// change nothing. Tells whether the workflow restarted, in which case the
    /// host sends `Msg::JoinRound` again.
    pub fn change(&mut self, props: Props) -> (r: bool)
        ensures
            r == (props.game_id@ != old(self).game_id@ || props.username@ != old(self).username@),
            r ==> {
                &&& final(self).step@ == JoinStepV::WantToJoin
                &&& final(self).game_id@ == props.game_id@
                &&& final(self).username@ == props.username@
            },
            !r ==> final(self).step@ == old(self).step@ && final(self).game_id@ == old(
                self,
            ).game_id@ && final(self).username@ == old(self).username@,
    {
        if props.game_id == self.game_id && props.username == self.username {
            false
        } else {
            self.game_id = props.game_id;
            self.username = props.username;
            self.step = JoinStep::WantToJoinGame;
            true
        }
    }

    /// Takes one event: moves to the next step and tells the host what to do.
    pub fn update(&mut self, msg: Msg) -> (r: JoinAction)
        ensures
            (final(self).step@, r@) == transition(
                old(self).step@,
                old(self).game_id@,
                old(self).username@,
                msg,
            ),
            final(self).game_id@ == old(self).game_id@,
            final(self).username@ == old(self).username@,
    {
        let ghost msg0 = msg;
        let mut current = JoinStep::WaitingRedirect;
        std::mem::swap(&mut self.step, &mut current);
        let (next, action) = match (current, msg) {
            (JoinStep::WantToJoinGame, Msg::JoinRound) => {
                let path = self.game_server.join_round_path(
                    self.game_id.as_str(),
                    self.username.as_str(),
                );
                (JoinStep::JoiningGame, JoinAction::FetchJoin { path })
            },
            (JoinStep::JoiningGame, Msg::JoinRoundResponse(Ok(response))) => {
                let player_id = response.player_id;
                let info = GameWsConnectionInfo::new(self.game_id.clone(), player_id.clone());
                (JoinStep::JoinedGameWebSocketPending { player_id }, JoinAction::EnsureConnected(info))
            },
            (JoinStep::JoiningGame, Msg::JoinRoundResponse(Err(e))) => {
                let mut error = String::from_str("error joining the round: ");
                error.append(e.as_str());
                (JoinStep::JoinFailed { player_id: None, error }, JoinAction::Nothing)
            },
            (
                JoinStep::JoinedGameWebSocketPending { player_id },
                Msg::GameWsResponse(GameWsResponse::Connected(_)),
            ) => (
                JoinStep::JoinedGameWithWebSocket { player_id },
                JoinAction::StartSettleDelay { seconds: SETTLE_DELAY_SECS },
            ),
            (
                JoinStep::JoinedGameWebSocketPending { player_id },
                Msg::GameWsResponse(GameWsResponse::ErrorOccurred),
            )
            | (
                JoinStep::JoinedGameWithWebSocket { player_id },
                Msg::GameWsResponse(GameWsResponse::ErrorOccurred),
            ) => {
                let error = String::from_str("Unknown error occurred while connecting.");
                (JoinStep::JoinFailed { player_id: Some(player_id), error }, JoinAction::Nothing)
            },
            (
                JoinStep::JoinedGameWebSocketPending { player_id },
                Msg::GameWsResponse(GameWsResponse::FailedToConnect(reason)),
            )
            | (
                JoinStep::JoinedGameWithWebSocket { player_id },
                Msg::GameWsResponse(GameWsResponse::FailedToConnect(reason)),
            ) => {
                let mut error = String::from_str("Failed to connect: ");
                error.append(reason.as_str());
                (JoinStep::JoinFailed { player_id: Some(player_id), error }, JoinAction::Nothing)
            },
            (JoinStep::JoinedGameWithWebSocket { player_id }, Msg::SuccessfullyJoined) => (
                JoinStep::WaitingRedirect,
                JoinAction::Navigate { game_id: self.game_id.clone(), player_id },
            ),
            (step, Msg::GameWsResponse(_)) => (step, JoinAction::Nothing),
            (step, _) => (step, JoinAction::ImpossibleTransition),
        };
        self.step = next;
        action
    }
}

} // verus!
