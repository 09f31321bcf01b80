use cards_client::history::{History, MAX_HISTORY_LEN};
use cards_client::notifications::{
    notification, NotificationBus, NotificationLevel, NotificationRequest,
};

#[test]
fn history_keeps_newest_first_with_numbers() {
    let mut h = History::new();
    h.push("Connecting...".to_string());
    h.push("Connected".to_string());
    assert_eq!(h.len(), 2);
    assert_eq!(h.get(0), (2, "Connected".to_string()));
    assert_eq!(h.get(1), (1, "Connecting...".to_string()));
}

#[test]
fn history_is_bounded() {
    let mut h = History::new();
    for i in 0..(MAX_HISTORY_LEN + 10) {
        h.push(format!("line {}", i));
    }
    assert_eq!(MAX_HISTORY_LEN, 500);
    assert_eq!(h.len(), MAX_HISTORY_LEN);
    assert_eq!(h.get(0), (MAX_HISTORY_LEN + 10, format!("line {}", MAX_HISTORY_LEN + 9)));
    assert_eq!(h.get(MAX_HISTORY_LEN - 1), (11, "line 10".to_string()));
}

#[test]
fn notification_bus_fans_out() {
    let mut bus = NotificationBus::create();
    bus.connected(4);
    bus.connected(9);
    bus.connected(4);
    let b = bus.handle_input(notification(NotificationLevel::Warning, "careful".to_string()));
    assert_eq!(b.to, vec![4, 9]);
    match b.response {
        NotificationRequest::New(n) => {
            assert_eq!(n.text, "careful");
            assert_eq!(n.level, NotificationLevel::Warning);
        }
    }
    bus.disconnected(4);
    let b = bus.handle_input(notification(NotificationLevel::Info, "hi".to_string()));
    assert_eq!(b.to, vec![9]);
}
