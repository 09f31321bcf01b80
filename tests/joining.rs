use cards_client::game_server::{GameServerService, JoinRoundResponse};
use cards_client::game_ws_mgr::{GameWsConnectionInfo, GameWsResponse};
use cards_client::joining_game::{JoinAction, JoinStep, JoiningGame, Msg, Props, SETTLE_DELAY_SECS};

fn response(player_id: &str) -> JoinRoundResponse {
    JoinRoundResponse {
        id: "r1".to_string(),
        player_id: player_id.to_string(),
        game_id: "g".to_string(),
        status: "WAITING".to_string(),
        created_on: "2020-01-01".to_string(),
        created_by: "host".to_string(),
        min_players: 2,
        max_players: 4,
        public: true,
        players: vec!["host".to_string()],
    }
}

fn workflow(game: &str, user: &str) -> JoiningGame {
    JoiningGame::create(Props { game_id: game.to_string(), username: user.to_string() })
}

fn info(game: &str, player: &str) -> GameWsConnectionInfo {
    GameWsConnectionInfo::new(game.to_string(), player.to_string())
}

#[test]
fn join_round_path_is_templated() {
    let s = GameServerService::new();
    assert_eq!(s.join_round_path("g1", "Toto"), "/api/round/g1/join?username=Toto");
}

#[test]
fn join_outcome_follows_status() {
    let s = GameServerService::new();
    let ok = s.join_round_outcome(200, "200 OK".to_string(), Ok(response("ann")));
    assert_eq!(ok.map(|r| r.player_id), Ok("ann".to_string()));
    let created = s.join_round_outcome(201, "201 Created".to_string(), Err("bad body".to_string()));
    assert_eq!(created.map(|r| r.player_id), Err("bad body".to_string()));
    let missing = s.join_round_outcome(404, "404 Not Found".to_string(), Ok(response("ann")));
    assert_eq!(missing.map(|r| r.player_id), Err("404 Not Found".to_string()));
    let moved = s.join_round_outcome(301, "301 Moved Permanently".to_string(), Ok(response("ann")));
    assert!(moved.is_err());
}

#[test]
fn happy_path_navigates_once() {
    let mut w = workflow("g", "Toto");
    let mut navigations = Vec::new();
    let mut record = |a: JoinAction, navigations: &mut Vec<(String, String)>| {
        if let JoinAction::Navigate { game_id, player_id } = &a {
            navigations.push((game_id.clone(), player_id.clone()));
        }
        a
    };

    match record(w.update(Msg::JoinRound), &mut navigations) {
        JoinAction::FetchJoin { path } => assert_eq!(path, "/api/round/g/join?username=Toto"),
        _ => panic!("expected the HTTP join call"),
    }
    assert!(matches!(w.step, JoinStep::JoiningGame));

    match record(w.update(Msg::JoinRoundResponse(Ok(response("ann")))), &mut navigations) {
        JoinAction::EnsureConnected(i) => {
            assert_eq!(i.game_id, "g");
            assert_eq!(i.player_id, "ann");
        }
        _ => panic!("expected a connection request"),
    }
    assert!(matches!(&w.step, JoinStep::JoinedGameWebSocketPending { player_id } if player_id == "ann"));

    let a = record(w.update(Msg::GameWsResponse(GameWsResponse::Connecting(info("g", "ann")))), &mut navigations);
    assert!(matches!(a, JoinAction::Nothing));
    assert!(matches!(&w.step, JoinStep::JoinedGameWebSocketPending { .. }));

    let a = record(w.update(Msg::GameWsResponse(GameWsResponse::Connected(info("g", "ann")))), &mut navigations);
    assert!(matches!(a, JoinAction::StartSettleDelay { seconds } if seconds == SETTLE_DELAY_SECS));
    assert_eq!(SETTLE_DELAY_SECS, 3);
    assert!(matches!(&w.step, JoinStep::JoinedGameWithWebSocket { player_id } if player_id == "ann"));

    record(w.update(Msg::SuccessfullyJoined), &mut navigations);
    assert!(matches!(w.step, JoinStep::WaitingRedirect));
    let a = record(w.update(Msg::SuccessfullyJoined), &mut navigations);
    assert!(matches!(a, JoinAction::ImpossibleTransition));
    assert_eq!(navigations, vec![("g".to_string(), "ann".to_string())]);
}

#[test]
fn http_failure_fails_without_connecting() {
    let mut w = workflow("g", "Toto");
    w.update(Msg::JoinRound);
    let outcome = GameServerService::new().join_round_outcome(
        500,
        "500 Internal Server Error".to_string(),
        Ok(response("ann")),
    );
    let a = w.update(Msg::JoinRoundResponse(outcome));
    assert!(matches!(a, JoinAction::Nothing));
    match &w.step {
        JoinStep::JoinFailed { player_id, error } => {
            assert_eq!(*player_id, None);
            assert_eq!(error, "error joining the round: 500 Internal Server Error");
        }
        _ => panic!("expected a failure"),
    }
}

#[test]
fn socket_failures_keep_the_player_id() {
    let mut w = workflow("g", "Toto");
    w.update(Msg::JoinRound);
    w.update(Msg::JoinRoundResponse(Ok(response("ann"))));
    w.update(Msg::GameWsResponse(GameWsResponse::FailedToConnect("refused".to_string())));
    match &w.step {
        JoinStep::JoinFailed { player_id, error } => {
            assert_eq!(player_id.as_deref(), Some("ann"));
            assert_eq!(error, "Failed to connect: refused");
        }
        _ => panic!("expected a failure"),
    }

    let mut w = workflow("g", "Toto");
    w.update(Msg::JoinRound);
    w.update(Msg::JoinRoundResponse(Ok(response("bob"))));
    w.update(Msg::GameWsResponse(GameWsResponse::Connected(info("g", "bob"))));
    w.update(Msg::GameWsResponse(GameWsResponse::ErrorOccurred));
    match &w.step {
        JoinStep::JoinFailed { player_id, error } => {
            assert_eq!(player_id.as_deref(), Some("bob"));
            assert_eq!(error, "Unknown error occurred while connecting.");
        }
        _ => panic!("expected a failure"),
    }
}

#[test]
fn impossible_transitions_keep_the_step() {
    let mut w = workflow("g", "Toto");
    assert!(matches!(w.update(Msg::SuccessfullyJoined), JoinAction::ImpossibleTransition));
    assert!(matches!(w.step, JoinStep::WantToJoinGame));
    assert!(matches!(
        w.update(Msg::JoinRoundResponse(Ok(response("ann")))),
        JoinAction::ImpossibleTransition
    ));
    assert!(matches!(w.step, JoinStep::WantToJoinGame));
    assert!(matches!(w.update(Msg::GameWsResponse(GameWsResponse::ErrorOccurred)), JoinAction::Nothing));
    assert!(matches!(w.step, JoinStep::WantToJoinGame));
}

#[test]
fn new_properties_restart_the_workflow() {
    let mut w = workflow("g", "Toto");
    w.update(Msg::JoinRound);
    assert!(!w.change(Props { game_id: "g".to_string(), username: "Toto".to_string() }));
    assert!(matches!(w.step, JoinStep::JoiningGame));
    assert!(w.change(Props { game_id: "h".to_string(), username: "Toto".to_string() }));
    assert!(matches!(w.step, JoinStep::WantToJoinGame));
    match w.update(Msg::JoinRound) {
        JoinAction::FetchJoin { path } => assert_eq!(path, "/api/round/h/join?username=Toto"),
        _ => panic!("expected the HTTP join call"),
    }
}

#[test]
fn player_id_of_steps() {
    assert_eq!(
        JoinStep::JoinedGameWithWebSocket { player_id: "p".to_string() }.into_player_id_or_none(),
        Some("p".to_string())
    );
    assert_eq!(JoinStep::JoiningGame.into_player_id_or_none(), None);
    assert_eq!(
        JoinStep::JoinFailed { player_id: None, error: "e".to_string() }.into_player_id_or_none(),
        None
    );
}

