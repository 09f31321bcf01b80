use cards_client::json::Json;
use cards_client::wire::{
    decode, encode, ActionAwaited, AwaitedAction, Card, CardState, ComponentPosition,
    ComponentUpdate, ComponentsUpdates, DecodeError, Error, GameFinished, Hand,
    InterfaceComponent, InterfaceUpdate, Message, PlayerConnected,
};

fn to_value(j: &Json) -> serde_json::Value {
    match j {
        Json::Null => serde_json::Value::Null,
        Json::Bool(b) => serde_json::Value::Bool(*b),
        Json::Number(n) => serde_json::Value::Number(n.parse().expect("a JSON number")),
        Json::Str(s) => serde_json::Value::String(s.clone()),
        Json::Array(items) => serde_json::Value::Array(items.iter().map(to_value).collect()),
        Json::Object(members) => {
            let mut map = serde_json::Map::new();
            for (k, v) in members {
                map.insert(k.clone(), to_value(v));
            }
            serde_json::Value::Object(map)
        }
    }
}

fn from_value(v: &serde_json::Value) -> Json {
    match v {
        serde_json::Value::Null => Json::Null,
        serde_json::Value::Bool(b) => Json::Bool(*b),
        serde_json::Value::Number(n) => Json::Number(n.to_string()),
        serde_json::Value::String(s) => Json::Str(s.clone()),
        serde_json::Value::Array(items) => Json::Array(items.iter().map(from_value).collect()),
        serde_json::Value::Object(map) => Json::Object(
            map.iter().map(|(k, v)| (k.clone(), from_value(v))).collect(),
        ),
    }
}

fn encode_text(msg: &Message) -> String {
    serde_json::to_string(&to_value(&encode(msg))).expect("encoding failed")
}

fn decode_text(text: &str) -> Result<Message, DecodeError> {
    let value: serde_json::Value = serde_json::from_str(text).expect("not JSON");
    decode(&from_value(&value))
}

fn test_encoding_decoding(msg: impl Into<Message>, as_str: impl AsRef<str>) {
    let msg = msg.into();
    let encoded = encode_text(&msg);
    assert_eq!(encoded, as_str.as_ref(), "encoding differs from expectation");

    let decoded = decode_text(as_str.as_ref()).expect("decoding failed");
    assert_eq!(decoded, msg, "decoding differs from expectation");
}

fn strip(s: &str) -> String {
    s.replace(|c: char| c.is_whitespace(), "")
}

#[test]
fn ping() {
    test_encoding_decoding(Message::Ping, r#"{"type":"PING"}"#);
}

#[test]
fn pong() {
    test_encoding_decoding(Message::Pong, r#"{"type":"PONG"}"#);
}

#[test]
fn close() {
    test_encoding_decoding(Message::Close, r#"{"type":"CLOSE"}"#);
}

#[test]
fn player_connected() {
    test_encoding_decoding(
        PlayerConnected {
            username: "Toto".to_string(),
            message: "Say hello to Toto.".to_string(),
        },
        r#"{"type":"PLAYER_CONNECTED","message":"Say hello to Toto.","username":"Toto"}"#,
    );
}

#[test]
fn start_game() {
    test_encoding_decoding(Message::StartGame, r#"{"type":"START_GAME"}"#);
}

#[test]
fn game_finished() {
    test_encoding_decoding(
        GameFinished {
            winners: vec!["Toto".to_string(), "Tata".to_string()],
        },
        r#"{"type":"GAME_FINISHED","winners":["Toto","Tata"]}"#,
    );
}

#[test]
fn error() {
    test_encoding_decoding(
        Error {
            messages: vec![
                "You are dumb.".to_string(),
                "The cake is a lie.".to_string(),
            ],
        },
        r#"{"type":"ERROR","messages":["You are dumb.","The cake is a lie."]}"#,
    );
}

#[test]
fn action_awaited() {
    test_encoding_decoding(
        ActionAwaited {
            all_of: vec![AwaitedAction::OnClick {
                target_component: "hand".to_string(),
            }],
        },
        strip(
            r#"{
                "type": "ACTION_AWAITED",
                "all_of": [
                    {
                        "type": "OnClick",
                        "target_component": "hand"
                    }
                ]
            }"#,
        ),
    );
}

#[test]
fn interface_update() {
    test_encoding_decoding(
        InterfaceUpdate {
            components: vec![
                InterfaceComponent {
                    id: "played_cards".into(),
                    position: ComponentPosition::Bottom,
                },
                InterfaceComponent {
                    id: "hand".into(),
                    position: ComponentPosition::Center,
                },
            ],
        },
        strip(
            r#"{
                "type": "INTERFACE_UPDATE",
                "components": [
                    {
                        "id": "played_cards",
                        "position": "bottom"
                    },
                    {
                        "id": "hand",
                        "position": "center"
                    }
                ]
            }"#,
        ),
    );
}

#[test]
fn components_updates() {
    test_encoding_decoding(
        ComponentsUpdates {
            updates: vec![
                ComponentUpdate::Create {
                    id: "hand".into(),
                    component: Hand {
                        cards: vec![
                            "773b57de804b4067a27b9650d077d470".into(),
                            "3a618ae83d664b43b1096738f559978a".into(),
                            "bd5b40c1a4c342539dbc3165982ccf31".into(),
                        ],
                    }
                    .into(),
                },
                ComponentUpdate::Create {
                    id: "bd5b40c1a4c342539dbc3165982ccf31".into(),
                    component: Card {
                        name: "H2".to_string(),
                        description: "".to_string(),
                        front_image: None,
                        back_image: None,
                        state: CardState {
                            suit: "H".to_string(),
                            value: "2".to_string(),
                        },
                    }
                    .into(),
                },
            ],
        },
        strip(
            r#"{
                "type": "COMPONENTS_UPDATES",
                "components": [
                    {
                        "type":"Create",
                        "id":"hand",
                        "component": {
                            "type":"Hand",
                            "cards": [
                                "773b57de804b4067a27b9650d077d470",
                                "3a618ae83d664b43b1096738f559978a",
                                "bd5b40c1a4c342539dbc3165982ccf31"
                            ]
                        }
                    },
                    {
                        "type": "Create",
                        "id": "bd5b40c1a4c342539dbc3165982ccf31",
                        "component": {
                            "type": "Card",
                            "name": "H2",
                            "description": "",
                            "front_image": null,
                            "back_image": null,
                            "state": {
                                "suit": "H",
                                "value": "2"
                            }
                        }
                    }
                ]
            }"#,
        ),
    );
}

#[test]
fn game_started_round_trip() {
    test_encoding_decoding(Message::GameStarted, r#"{"type":"GAME_STARTED"}"#);
}

#[test]
fn card_with_images_round_trip() {
    let msg = Message::ComponentsUpdates(ComponentsUpdates {
        updates: vec![ComponentUpdate::Create {
            id: "c1".into(),
            component: Card {
                name: "S10".to_string(),
                description: "ten of spades".to_string(),
                front_image: Some("front.png".to_string()),
                back_image: Some("back.png".to_string()),
                state: CardState {
                    suit: "S".to_string(),
                    value: "10".to_string(),
                },
            }
            .into(),
        }],
    });
    let text = encode_text(&msg);
    assert_eq!(
        text,
        r#"{"type":"COMPONENTS_UPDATES","components":[{"type":"Create","id":"c1","component":{"type":"Card","name":"S10","description":"ten of spades","front_image":"front.png","back_image":"back.png","state":{"suit":"S","value":"10"}}}]}"#
    );
    assert_eq!(decode_text(&text), Ok(msg));
}

#[test]
fn every_position_round_trips() {
    let positions = [
        (ComponentPosition::Top, "top"),
        (ComponentPosition::Bottom, "bottom"),
        (ComponentPosition::Left, "left"),
        (ComponentPosition::Right, "right"),
        (ComponentPosition::Center, "center"),
    ];
    for (position, name) in positions {
        let msg = Message::InterfaceUpdate(InterfaceUpdate {
            components: vec![InterfaceComponent { id: "x".into(), position }],
        });
        let text = encode_text(&msg);
        assert_eq!(
            text,
            format!(r#"{{"type":"INTERFACE_UPDATE","components":[{{"id":"x","position":"{}"}}]}}"#, name)
        );
        assert_eq!(decode_text(&text), Ok(msg));
    }
}

#[test]
fn empty_lists_round_trip() {
    test_encoding_decoding(
        GameFinished { winners: vec![] },
        r#"{"type":"GAME_FINISHED","winners":[]}"#,
    );
    test_encoding_decoding(
        ActionAwaited { all_of: vec![] },
        r#"{"type":"ACTION_AWAITED","all_of":[]}"#,
    );
}

#[test]
fn decode_ignores_extra_members_and_order() {
    let decoded = decode_text(
        r#"{"username":"Toto","extra":[1,true,null],"message":"hi","type":"PLAYER_CONNECTED"}"#,
    );
    assert_eq!(
        decoded,
        Ok(Message::PlayerConnected(PlayerConnected {
            message: "hi".to_string(),
            username: "Toto".to_string(),
        }))
    );
}

#[test]
fn decode_missing_image_is_none() {
    let decoded = decode_text(
        r#"{"type":"COMPONENTS_UPDATES","components":[{"type":"Create","id":"c","component":{"type":"Card","name":"n","description":"d","state":{"suit":"H","value":"2"}}}]}"#,
    );
    match decoded {
        Ok(Message::ComponentsUpdates(u)) => match &u.updates[0] {
            ComponentUpdate::Create { component: cards_client::wire::Component::Card(card), .. } => {
                assert_eq!(card.front_image, None);
                assert_eq!(card.back_image, None);
            }
            other => panic!("unexpected update {:?}", other),
        },
        other => panic!("unexpected result {:?}", other),
    }
}

#[test]
fn decode_unknown_type() {
    assert_eq!(decode_text(r#"{"type":"HELLO"}"#), Err(DecodeError::UnknownType));
    assert_eq!(decode_text(r#"{"kind":"PING"}"#), Err(DecodeError::UnknownType));
    assert_eq!(decode_text(r#"{"type":3}"#), Err(DecodeError::UnknownType));
    assert_eq!(decode_text(r#"["PING"]"#), Err(DecodeError::UnknownType));
}

#[test]
fn decode_invalid_fields() {
    assert_eq!(
        decode_text(r#"{"type":"PLAYER_CONNECTED","message":"hi"}"#),
        Err(DecodeError::InvalidFields)
    );
    assert_eq!(
        decode_text(r#"{"type":"GAME_FINISHED","winners":["a",2]}"#),
        Err(DecodeError::InvalidFields)
    );
    assert_eq!(
        decode_text(r#"{"type":"INTERFACE_UPDATE","components":[{"id":"x","position":"middle"}]}"#),
        Err(DecodeError::InvalidFields)
    );
    assert_eq!(
        decode_text(r#"{"type":"ACTION_AWAITED","all_of":[{"type":"OnHover","target_component":"x"}]}"#),
        Err(DecodeError::InvalidFields)
    );
    assert_eq!(
        decode_text(r#"{"type":"COMPONENTS_UPDATES","components":[{"type":"Create","id":"x","component":{"type":"Card","name":"n","description":"d","front_image":3,"state":{"suit":"H","value":"2"}}}]}"#),
        Err(DecodeError::InvalidFields)
    );
}
