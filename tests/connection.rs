use cards_client::game_mgr::{GameMgr, GameMgrResponse};
use cards_client::game_ws_mgr::{
    socket_path, socket_protocol, GameWsConnectionInfo, GameWsMgr, GameWsResponse, JoinDecision,
    SocketSignal, WebSocketStatus,
};
use cards_client::subscribers::Subscribers;

fn info(game: &str, player: &str) -> GameWsConnectionInfo {
    GameWsConnectionInfo::new(game.to_string(), player.to_string())
}

fn is_connecting(r: &GameWsResponse, game: &str, player: &str) -> bool {
    matches!(r, GameWsResponse::Connecting(i) if i.game_id == game && i.player_id == player)
}

/// A manager with `subs` registered and a socket (handle `task`) pending for `id`.
fn pending_mgr(subs: &[u64], id: &GameWsConnectionInfo, task: u32) -> GameWsMgr<u32> {
    let mut mgr = GameWsMgr::new();
    for s in subs {
        mgr.connected(*s);
    }
    match mgr.join_round(id) {
        JoinDecision::Connect { release, .. } => assert_eq!(release, None),
        JoinDecision::Respond(_) => panic!("an idle manager must connect"),
    }
    let t = mgr.connect_result(id.clone(), Ok(task));
    assert!(is_connecting(&t.broadcast.response, &id.game_id, &id.player_id));
    mgr
}

#[test]
fn socket_path_is_templated_from_identity() {
    assert_eq!(socket_path(&info("g1", "ann")), "/api/round/g1/join?playerId=ann");
}

#[test]
fn socket_protocol_follows_page_protocol() {
    assert_eq!(socket_protocol("http:"), "ws:");
    assert_eq!(socket_protocol("https:"), "wss:");
}

#[test]
fn ensure_connected_from_idle_asks_for_a_socket() {
    let mut mgr: GameWsMgr<u32> = GameWsMgr::new();
    match mgr.join_round(&info("g", "p")) {
        JoinDecision::Connect { path, release } => {
            assert_eq!(path, "/api/round/g/join?playerId=p");
            assert_eq!(release, None);
        }
        JoinDecision::Respond(_) => panic!("expected a new socket"),
    }
    assert!(matches!(mgr.status(), WebSocketStatus::NotConnected));
}

#[test]
fn ensure_connected_twice_is_idempotent() {
    let id = info("g", "p");
    let mut mgr = pending_mgr(&[1], &id, 7);
    match mgr.join_round(&id) {
        JoinDecision::Respond(WebSocketStatus::Pending(i)) => assert_eq!(i.player_id, "p"),
        _ => panic!("a pending socket for the same identity must be reused"),
    }
    mgr.on_signal(SocketSignal::Opened);
    match mgr.join_round(&id) {
        JoinDecision::Respond(WebSocketStatus::Connected(i)) => assert_eq!(i.game_id, "g"),
        _ => panic!("a live socket for the same identity must be reused"),
    }
    assert!(mgr.can_send());
}

#[test]
fn identity_mismatch_forces_reconnect() {
    let mut mgr = pending_mgr(&[1, 2], &info("g", "ann"), 7);
    mgr.on_signal(SocketSignal::Opened);
    match mgr.join_round(&info("g", "bob")) {
        JoinDecision::Connect { path, release } => {
            assert_eq!(path, "/api/round/g/join?playerId=bob");
            assert_eq!(release, Some(7));
        }
        JoinDecision::Respond(_) => panic!("another identity needs another socket"),
    }
    assert!(matches!(mgr.status(), WebSocketStatus::NotConnected));
    let t = mgr.connect_result(info("g", "bob"), Ok(8));
    assert_eq!(t.release, None);
    assert_eq!(t.broadcast.to, vec![1, 2]);
    assert!(is_connecting(&t.broadcast.response, "g", "bob"));
    assert!(matches!(mgr.status(), WebSocketStatus::Pending(i) if i.player_id == "bob"));
}

#[test]
fn refused_socket_broadcasts_failure_and_stays_idle() {
    let mut mgr: GameWsMgr<u32> = GameWsMgr::new();
    mgr.connected(5);
    let t = mgr.connect_result(info("g", "p"), Err("bad address".to_string()));
    assert_eq!(t.broadcast.to, vec![5]);
    assert!(matches!(&t.broadcast.response, GameWsResponse::FailedToConnect(r) if r == "bad address"));
    assert!(matches!(mgr.status(), WebSocketStatus::NotConnected));
    assert!(!mgr.can_send());
}

#[test]
fn broadcast_fans_out_once_per_subscriber() {
    let id = info("g", "p");
    let mut mgr = pending_mgr(&[10, 20, 30], &id, 1);
    mgr.connected(20);
    let t = mgr.on_signal(SocketSignal::Opened);
    assert_eq!(t.broadcast.to, vec![10, 20, 30]);
    assert!(matches!(&t.broadcast.response, GameWsResponse::Connected(i) if i.player_id == "p"));
    assert_eq!(t.release, None);
}

#[test]
fn unsubscribed_handle_hears_nothing() {
    let id = info("g", "p");
    let mut mgr = pending_mgr(&[1, 2, 3], &id, 1);
    assert!(mgr.disconnected(2));
    assert!(!mgr.disconnected(2));
    let opened = mgr.on_signal(SocketSignal::Opened);
    assert_eq!(opened.broadcast.to, vec![1, 3]);
    let frame = mgr.on_frame(r#"{"type":"PING"}"#);
    assert_eq!(frame.to, vec![1, 3]);
    let closed = mgr.on_signal(SocketSignal::Closed);
    assert_eq!(closed.broadcast.to, vec![1, 3]);
}

#[test]
fn stale_open_is_an_error_and_releases_the_socket() {
    let id = info("g", "p");
    let mut mgr = pending_mgr(&[1], &id, 4);
    mgr.on_signal(SocketSignal::Opened);
    let t = mgr.on_signal(SocketSignal::Opened);
    assert!(matches!(t.broadcast.response, GameWsResponse::ErrorOccurred));
    assert_eq!(t.release, Some(4));
    assert!(matches!(mgr.status(), WebSocketStatus::NotConnected));
}

#[test]
fn close_and_error_signals_make_the_manager_idle() {
    let mut mgr = pending_mgr(&[1], &info("g", "p"), 4);
    let t = mgr.on_signal(SocketSignal::Closed);
    assert!(matches!(t.broadcast.response, GameWsResponse::Closed));
    assert_eq!(t.release, Some(4));

    let mut mgr = pending_mgr(&[1], &info("g", "p"), 5);
    mgr.on_signal(SocketSignal::Opened);
    let t = mgr.on_signal(SocketSignal::Error);
    assert!(matches!(t.broadcast.response, GameWsResponse::ErrorOccurred));
    assert_eq!(t.release, Some(5));
    assert!(matches!(mgr.status(), WebSocketStatus::NotConnected));
}

#[test]
fn close_socket_releases_the_handle() {
    let mut mgr = pending_mgr(&[], &info("g", "p"), 9);
    assert_eq!(mgr.close_socket(), Some(9));
    assert_eq!(mgr.close_socket(), None);
    assert!(matches!(mgr.status(), WebSocketStatus::NotConnected));
}

#[test]
fn malformed_frame_keeps_the_socket_live() {
    let mut mgr = pending_mgr(&[1, 2], &info("g", "p"), 3);
    mgr.on_signal(SocketSignal::Opened);
    let b = mgr.on_frame("{not json");
    assert_eq!(b.to, vec![1, 2]);
    assert!(matches!(b.response, GameWsResponse::ReceivedError(_)));
    assert!(matches!(mgr.status(), WebSocketStatus::Connected(_)));
    assert!(mgr.can_send());
}

#[test]
fn well_formed_frame_is_received() {
    let mut mgr = pending_mgr(&[1], &info("g", "p"), 3);
    mgr.on_signal(SocketSignal::Opened);
    let b = mgr.on_frame(r#"{"type":"PONG"}"#);
    match b.response {
        GameWsResponse::Received(data) => {
            assert_eq!(data.0["type"], serde_json::Value::String("PONG".to_string()))
        }
        _ => panic!("expected a received frame"),
    }
}

#[test]
fn status_helpers() {
    assert!(WebSocketStatus::Pending(info("g", "p")).is_pending());
    assert!(!WebSocketStatus::Pending(info("g", "p")).is_connected());
    assert!(WebSocketStatus::Connected(info("g", "p")).is_connected());
    assert!(!WebSocketStatus::NotConnected.is_pending());
    assert!(WebSocketStatus::NotConnected.same_status(&WebSocketStatus::NotConnected));
    assert!(!WebSocketStatus::Pending(info("g", "p"))
        .same_status(&WebSocketStatus::Pending(info("g", "q"))));
}

#[test]
fn subscribers_have_set_semantics() {
    let mut s = Subscribers::new();
    s.add(3);
    s.add(1);
    s.add(3);
    assert_eq!(s.len(), 2);
    assert_eq!(s.recipients(), vec![3, 1]);
    assert!(s.contains(1));
    assert!(s.remove(3));
    assert!(!s.remove(3));
    assert_eq!(s.recipients(), vec![1]);
}

#[test]
fn game_mgr_reports_only_changes() {
    let mut mgr = GameMgr::create();
    mgr.connected(1);
    mgr.connected(2);
    let b = mgr.update(GameWsResponse::Connecting(info("g", "p"))).expect("a change");
    assert_eq!(b.to, vec![1, 2]);
    assert!(matches!(b.response, GameMgrResponse::WebSocketStatusChanged(WebSocketStatus::Pending(_))));
    assert!(mgr.update(GameWsResponse::WebSocketStatus(WebSocketStatus::Pending(info("g", "p")))).is_none());
    assert!(mgr.update(GameWsResponse::ReceivedError("x".to_string())).is_none());
    let b = mgr.update(GameWsResponse::Connected(info("g", "p"))).expect("a change");
    assert!(matches!(b.response, GameMgrResponse::WebSocketStatusChanged(WebSocketStatus::Connected(_))));
    mgr.disconnected(1);
    let b = mgr.update(GameWsResponse::Closed).expect("a change");
    assert_eq!(b.to, vec![2]);
    assert!(matches!(mgr.ws_status(), WebSocketStatus::NotConnected));
    assert!(mgr.update(GameWsResponse::ErrorOccurred).is_none());
}
