use vstd::prelude::*;

verus! {

/// What the game server answers to the creation of a round.
#[derive(Debug)]
pub struct CreateRoundResponse {
    pub id: String,
    pub player_id: String,
    pub game_id: String,
    pub status: String,
    pub created_on: String,
    pub created_by: String,
    pub min_players: u32,
    pub max_players: u32,
    pub public: bool,
    pub players: Vec<String>,
}

/// What the game server answers to a player joining a round.
#[derive(Debug)]
pub struct JoinRoundResponse {
    pub id: String,
    pub player_id: String,
    pub game_id: String,
    pub status: String,
    pub created_on: String,
    pub created_by: String,
    pub min_players: u32,
    pub max_players: u32,
    pub public: bool,
    pub players: Vec<String>,
}

/// The path of the HTTP call by which `username` joins the round `game_id`.
pub open spec fn join_round_path_of(game_id: Seq<char>, username: Seq<char>) -> Seq<char> {
    "/api/round/"@ + game_id + "/join?username="@ + username
}

/// Whether an HTTP status code is a success (2xx).
pub open spec fn is_success_status(status: u16) -> bool {
    200 <= status <= 299
}

/// The result of the join call: the decoded body on a success status, the
/// status's description otherwise.
pub open spec fn join_outcome_of(
    status: u16,
    status_text: String,
    body: Result<JoinRoundResponse, String>,
) -> Result<JoinRoundResponse, String> {
    if is_success_status(status) {
        body
    } else {
        Err(status_text)
    }
}

/// The client of the game server's HTTP interface.
#[derive(Default)]
pub struct GameServerService {}

impl GameServerService {
    pub fn new() -> (r: Self) {
        GameServerService {  }
    }

    /// Builds the path of the HTTP call by which `username` joins the round
    /// `game_id`.
    pub fn join_round_path(&self, game_id: &str, username: &str) -> (r: String)
        ensures
            r@ == join_round_path_of(game_id@, username@),
    {
        let mut path = String::from_str("/api/round/");
        path.append(game_id);
        path.append("/join?username=");
        path.append(username);
        path
    }

    /// Turns the answer to the join call into its result: `body` when the
    /// status is a success, else an error that carries `status_text`.
    pub fn join_round_outcome(
        &self,
        status: u16,
        status_text: String,
        body: Result<JoinRoundResponse, String>,
    ) -> (r: Result<JoinRoundResponse, String>)
        ensures
            r == join_outcome_of(status, status_text, body),
    {
        if 200 <= status && status <= 299 {
            body
        } else {
            Err(status_text)
        }
    }
}

} // verus!
