use vstd::prelude::*;

use crate::json::{
    lookup_from, array, field, field_of, is_text, object, opt_str_field, opt_str_field_of, opt_str_value,
    opt_text, opt_view, str_array_of, str_field, str_field_of, str_list, str_list_of,
    string_array, strings_view, text, items_view, Json, JsonV,
};

verus! {

/// The messages exchanged over the live socket.
#[derive(Clone, Debug, PartialEq)]
pub enum Message {
    Ping,
    Pong,
    Close,
    PlayerConnected(PlayerConnected),
    StartGame,
    GameStarted,
    GameFinished(GameFinished),
    Error(Error),
    ActionAwaited(ActionAwaited),
    InterfaceUpdate(InterfaceUpdate),
    ComponentsUpdates(ComponentsUpdates),
}

#[derive(Clone, Debug, PartialEq)]
pub struct PlayerConnected {
    pub message: String,
    pub username: String,
}

#[derive(Clone, Debug, PartialEq)]
pub struct GameFinished {
    pub winners: Vec<String>,
}

#[derive(Clone, Debug, PartialEq)]
pub struct Error {
    pub messages: Vec<String>,
}

#[derive(Clone, Debug, PartialEq)]
pub struct ActionAwaited {
    pub all_of: Vec<AwaitedAction>,
}

#[derive(Clone, Debug, PartialEq)]
pub enum AwaitedAction {
    OnClick { target_component: String },
}

#[derive(Clone, Debug, PartialEq)]
pub struct InterfaceUpdate {
    pub components: Vec<InterfaceComponent>,
}

#[derive(Clone, Debug, PartialEq)]
pub struct InterfaceComponent {
    pub id: ComponentId,
    pub position: ComponentPosition,
}

#[derive(Clone, Debug, PartialEq)]
pub struct ComponentId(pub String);

#[derive(Clone, Copy, Debug, PartialEq, Eq, Structural)]
pub enum ComponentPosition {
    Top,
    Bottom,
    Left,
    Right,
    Center,
}

/// The updates of components; on the wire the list is named `components`.
#[derive(Clone, Debug, PartialEq)]
pub struct ComponentsUpdates {
    pub updates: Vec<ComponentUpdate>,
}

#[derive(Clone, Debug, PartialEq)]
pub enum ComponentUpdate {
    Create { id: ComponentId, component: Component },
}

#[derive(Clone, Debug, PartialEq)]
pub enum Component {
    Card(Card),
    Hand(Hand),
}

#[derive(Clone, Debug, PartialEq)]
pub struct Card {
    pub name: String,
    pub description: String,
    pub front_image: Option<String>,
    pub back_image: Option<String>,
    pub state: CardState,
}

#[derive(Clone, Debug, PartialEq)]
pub struct CardState {
    pub suit: String,
    pub value: String,
}

#[derive(Clone, Debug, PartialEq)]
pub struct Hand {
    pub cards: Vec<ComponentId>,
}

// ---------------------------------------------------------------------------
// Mathematical values of the messages
pub enum AwaitedActionV {
    OnClick { target_component: Seq<char> },
}

pub enum ComponentV {
    Card {
        name: Seq<char>,
        description: Seq<char>,
        front_image: Option<Seq<char>>,
        back_image: Option<Seq<char>>,
        suit: Seq<char>,
        value: Seq<char>,
    },
    Hand { cards: Seq<Seq<char>> },
}

pub enum ComponentUpdateV {
    Create { id: Seq<char>, component: ComponentV },
}

pub enum MessageV {
    Ping,
    Pong,
    Close,
    PlayerConnected { message: Seq<char>, username: Seq<char> },
    StartGame,
    GameStarted,
    GameFinished { winners: Seq<Seq<char>> },
    Error { messages: Seq<Seq<char>> },
    ActionAwaited { all_of: Seq<AwaitedActionV> },
    InterfaceUpdate { components: Seq<(Seq<char>, ComponentPosition)> },
    ComponentsUpdates { updates: Seq<ComponentUpdateV> },
}

impl View for ComponentId {
    type V = Seq<char>;

    open spec fn view(&self) -> Seq<char> {
        self.0@
    }
}

impl View for AwaitedAction {
    type V = AwaitedActionV;

    open spec fn view(&self) -> AwaitedActionV {
        match self {
            AwaitedAction::OnClick { target_component } => AwaitedActionV::OnClick {
                target_component: target_component@,
            },
        }
    }
}

impl View for InterfaceComponent {
    type V = (Seq<char>, ComponentPosition);

    open spec fn view(&self) -> (Seq<char>, ComponentPosition) {
        (self.id@, self.position)
    }
}

impl View for Component {
    type V = ComponentV;

    open spec fn view(&self) -> ComponentV {
        match self {
            Component::Card(c) => ComponentV::Card {
                name: c.name@,
                description: c.description@,
                front_image: opt_view(c.front_image),
                back_image: opt_view(c.back_image),
                suit: c.state.suit@,
                value: c.state.value@,
            },
            Component::Hand(h) => ComponentV::Hand { cards: ids_view(h.cards@) },
        }
    }
}

impl View for ComponentUpdate {
    type V = ComponentUpdateV;

    open spec fn view(&self) -> ComponentUpdateV {
        match self {
            ComponentUpdate::Create { id, component } => ComponentUpdateV::Create {
                id: id@,
                component: component@,
            },
        }
    }
}

impl View for Message {
    type V = MessageV;

    open spec fn view(&self) -> MessageV {
        match self {
            Message::Ping => MessageV::Ping,
            Message::Pong => MessageV::Pong,
            Message::Close => MessageV::Close,
            Message::PlayerConnected(p) => MessageV::PlayerConnected {
                message: p.message@,
                username: p.username@,
            },
            Message::StartGame => MessageV::StartGame,
            Message::GameStarted => MessageV::GameStarted,
            Message::GameFinished(g) => MessageV::GameFinished { winners: strings_view(g.winners@) },
            Message::Error(e) => MessageV::Error { messages: strings_view(e.messages@) },
            Message::ActionAwaited(a) => MessageV::ActionAwaited {
                all_of: Seq::new(a.all_of@.len(), |i: int| a.all_of@[i]@),
            },
            Message::InterfaceUpdate(u) => MessageV::InterfaceUpdate {
                components: Seq::new(u.components@.len(), |i: int| u.components@[i]@),
            },
            Message::ComponentsUpdates(u) => MessageV::ComponentsUpdates {
                updates: Seq::new(u.updates@.len(), |i: int| u.updates@[i]@),
            },
        }
    }
}

/// The texts of a sequence of component ids.
pub open spec fn ids_view(ids: Seq<ComponentId>) -> Seq<Seq<char>> {
    Seq::new(ids.len(), |i: int| ids[i]@)
}

// ---------------------------------------------------------------------------
// The encoding: a JSON object whose `type` member names the variant, with the
// variant's fields beside it.
pub open spec fn position_name(p: ComponentPosition) -> Seq<char> {
    match p {
        ComponentPosition::Top => "top"@,
        ComponentPosition::Bottom => "bottom"@,
        ComponentPosition::Left => "left"@,
        ComponentPosition::Right => "right"@,
        ComponentPosition::Center => "center"@,
    }
}

pub open spec fn encode_awaited(a: AwaitedActionV) -> JsonV {
    match a {
        AwaitedActionV::OnClick { target_component } => JsonV::Object(
            seq!["type"@, "target_component"@],
            seq![JsonV::Str("OnClick"@), JsonV::Str(target_component)],
        ),
    }
}

pub open spec fn encode_interface_component(c: (Seq<char>, ComponentPosition)) -> JsonV {
    JsonV::Object(seq!["id"@, "position"@], seq![JsonV::Str(c.0), JsonV::Str(position_name(c.1))])
}

pub open spec fn encode_component(c: ComponentV) -> JsonV {
    match c {
        ComponentV::Card { name, description, front_image, back_image, suit, value } => JsonV::Object(
            seq!["type"@, "name"@, "description"@, "front_image"@, "back_image"@, "state"@],
            seq![
                JsonV::Str("Card"@),
                JsonV::Str(name),
                JsonV::Str(description),
                opt_str_value(front_image),
                opt_str_value(back_image),
                JsonV::Object(seq!["suit"@, "value"@], seq![JsonV::Str(suit), JsonV::Str(value)]),
            ],
        ),
        ComponentV::Hand { cards } => JsonV::Object(
            seq!["type"@, "cards"@],
            seq![JsonV::Str("Hand"@), str_array_of(cards)],
        ),
    }
}

pub open spec fn encode_update(u: ComponentUpdateV) -> JsonV {
    match u {
        ComponentUpdateV::Create { id, component } => JsonV::Object(
            seq!["type"@, "id"@, "component"@],
            seq![JsonV::Str("Create"@), JsonV::Str(id), encode_component(component)],
        ),
    }
}

/// An object with only the member `type`.
pub open spec fn tag_only(tag: Seq<char>) -> JsonV {
    JsonV::Object(seq!["type"@], seq![JsonV::Str(tag)])
}

/// The JSON form of a message.
pub open spec fn encode_message(m: MessageV) -> JsonV {
    match m {
        MessageV::Ping => tag_only("PING"@),
        MessageV::Pong => tag_only("PONG"@),
        MessageV::Close => tag_only("CLOSE"@),
        MessageV::PlayerConnected { message, username } => JsonV::Object(
            seq!["type"@, "message"@, "username"@],
            seq![JsonV::Str("PLAYER_CONNECTED"@), JsonV::Str(message), JsonV::Str(username)],
        ),
        MessageV::StartGame => tag_only("START_GAME"@),
        MessageV::GameStarted => tag_only("GAME_STARTED"@),
        MessageV::GameFinished { winners } => JsonV::Object(
            seq!["type"@, "winners"@],
            seq![JsonV::Str("GAME_FINISHED"@), str_array_of(winners)],
        ),
        MessageV::Error { messages } => JsonV::Object(
            seq!["type"@, "messages"@],
            seq![JsonV::Str("ERROR"@), str_array_of(messages)],
        ),
        MessageV::ActionAwaited { all_of } => JsonV::Object(
            seq!["type"@, "all_of"@],
            seq![
                JsonV::Str("ACTION_AWAITED"@),
                JsonV::Array(Seq::new(all_of.len(), |i: int| encode_awaited(all_of[i]))),
            ],
        ),
        MessageV::InterfaceUpdate { components } => JsonV::Object(
            seq!["type"@, "components"@],
            seq![
                JsonV::Str("INTERFACE_UPDATE"@),
                JsonV::Array(
                    Seq::new(components.len(), |i: int| encode_interface_component(components[i])),
                ),
            ],
        ),
        MessageV::ComponentsUpdates { updates } => JsonV::Object(
            seq!["type"@, "components"@],
            seq![
                JsonV::Str("COMPONENTS_UPDATES"@),
                JsonV::Array(Seq::new(updates.len(), |i: int| encode_update(updates[i]))),
            ],
        ),
    }
}

// ---------------------------------------------------------------------------
// The decoding: the `type` member picks the variant, whose fields must all be
// there with the right shape; other members are ignored.
pub open spec fn decode_position(s: Seq<char>) -> Option<ComponentPosition> {
    if s == "top"@ {
        Some(ComponentPosition::Top)
    } else if s == "bottom"@ {
        Some(ComponentPosition::Bottom)
    } else if s == "left"@ {
        Some(ComponentPosition::Left)
    } else if s == "right"@ {
        Some(ComponentPosition::Right)
    } else if s == "center"@ {
        Some(ComponentPosition::Center)
    } else {
        None
    }
}

pub open spec fn decode_awaited(j: JsonV) -> Option<AwaitedActionV> {
    match (str_field_of(j, "type"@), str_field_of(j, "target_component"@)) {
        (Some(t), Some(c)) => if t == "OnClick"@ {
            Some(AwaitedActionV::OnClick { target_component: c })
        } else {
            None
        },
        _ => None,
    }
}

pub open spec fn decode_interface_component(j: JsonV) -> Option<(Seq<char>, ComponentPosition)> {
    match (str_field_of(j, "id"@), str_field_of(j, "position"@)) {
        (Some(id), Some(p)) => match decode_position(p) {
            Some(pos) => Some((id, pos)),
            None => None,
        },
        _ => None,
    }
}

/// An array of strings held in the member `key`.
pub open spec fn str_list_field_of(j: JsonV, key: Seq<char>) -> Option<Seq<Seq<char>>> {
    match field_of(j, key) {
        Some(v) => str_list_of(v),
        None => None,
    }
}

pub open spec fn decode_card_state(j: JsonV) -> Option<(Seq<char>, Seq<char>)> {
    match (str_field_of(j, "suit"@), str_field_of(j, "value"@)) {
        (Some(suit), Some(value)) => Some((suit, value)),
        _ => None,
    }
}

pub open spec fn decode_card(j: JsonV) -> Option<ComponentV> {
    match (
        str_field_of(j, "name"@),
        str_field_of(j, "description"@),
        opt_str_field_of(j, "front_image"@),
        opt_str_field_of(j, "back_image"@),
        field_of(j, "state"@),
    ) {
        (Some(name), Some(description), Some(front_image), Some(back_image), Some(state)) => {
            match decode_card_state(state) {
                Some((suit, value)) => Some(
                    ComponentV::Card { name, description, front_image, back_image, suit, value },
                ),
                None => None,
            }
        },
        _ => None,
    }
}

pub open spec fn decode_component(j: JsonV) -> Option<ComponentV> {
    match str_field_of(j, "type"@) {
        Some(t) => if t == "Card"@ {
            decode_card(j)
        } else if t == "Hand"@ {
            match str_list_field_of(j, "cards"@) {
                Some(cards) => Some(ComponentV::Hand { cards }),
                None => None,
            }
        } else {
            None
        },
        None => None,
    }
}

pub open spec fn decode_update(j: JsonV) -> Option<ComponentUpdateV> {
    match (str_field_of(j, "type"@), str_field_of(j, "id"@), field_of(j, "component"@)) {
        (Some(t), Some(id), Some(c)) => if t == "Create"@ {
            match decode_component(c) {
                Some(component) => Some(ComponentUpdateV::Create { id, component }),
                None => None,
            }
        } else {
            None
        },
        _ => None,
    }
}

pub open spec fn decode_awaited_list(j: JsonV) -> Option<Seq<AwaitedActionV>> {
    match j {
        JsonV::Array(items) => if forall|i: int|
            0 <= i < items.len() ==> (#[trigger] decode_awaited(items[i])) is Some {
            Some(Seq::new(items.len(), |i: int| decode_awaited(items[i])->Some_0))
        } else {
            None
        },
        _ => None,
    }
}

pub open spec fn decode_interface_list(j: JsonV) -> Option<Seq<(Seq<char>, ComponentPosition)>> {
    match j {
        JsonV::Array(items) => if forall|i: int|
            0 <= i < items.len() ==> (#[trigger] decode_interface_component(items[i])) is Some {
            Some(Seq::new(items.len(), |i: int| decode_interface_component(items[i])->Some_0))
        } else {
            None
        },
        _ => None,
    }
}

pub open spec fn decode_update_list(j: JsonV) -> Option<Seq<ComponentUpdateV>> {
    match j {
        JsonV::Array(items) => if forall|i: int|
            0 <= i < items.len() ==> (#[trigger] decode_update(items[i])) is Some {
            Some(Seq::new(items.len(), |i: int| decode_update(items[i])->Some_0))
        } else {
            None
        },
        _ => None,
    }
}

/// The `type` names of the messages.
pub open spec fn is_message_tag(t: Seq<char>) -> bool {
    t == "PING"@ || t == "PONG"@ || t == "CLOSE"@ || t == "PLAYER_CONNECTED"@ || t
        == "START_GAME"@ || t == "GAME_STARTED"@ || t == "GAME_FINISHED"@ || t == "ERROR"@ || t
        == "ACTION_AWAITED"@ || t == "INTERFACE_UPDATE"@ || t == "COMPONENTS_UPDATES"@
}

/// Whether `j` is an object whose `type` member names a message.
pub open spec fn has_message_tag(j: JsonV) -> bool {
    match str_field_of(j, "type"@) {
        Some(t) => is_message_tag(t),
        None => false,
    }
}

/// The message that a JSON value holds, if any.
pub open spec fn decode_message(j: JsonV) -> Option<MessageV> {
    match str_field_of(j, "type"@) {
        None => None,
        Some(t) => if t == "PING"@ {
            Some(MessageV::Ping)
        } else if t == "PONG"@ {
            Some(MessageV::Pong)
        } else if t == "CLOSE"@ {
            Some(MessageV::Close)
        } else if t == "PLAYER_CONNECTED"@ {
            match (str_field_of(j, "message"@), str_field_of(j, "username"@)) {
                (Some(message), Some(username)) => Some(
                    MessageV::PlayerConnected { message, username },
                ),
                _ => None,
            }
        } else if t == "START_GAME"@ {
            Some(MessageV::StartGame)
        } else if t == "GAME_STARTED"@ {
            Some(MessageV::GameStarted)
        } else if t == "GAME_FINISHED"@ {
            match str_list_field_of(j, "winners"@) {
                Some(winners) => Some(MessageV::GameFinished { winners }),
                None => None,
            }
        } else if t == "ERROR"@ {
            match str_list_field_of(j, "messages"@) {
                Some(messages) => Some(MessageV::Error { messages }),
                None => None,
            }
        } else if t == "ACTION_AWAITED"@ {
            match field_of(j, "all_of"@) {
                Some(v) => match decode_awaited_list(v) {
                    Some(all_of) => Some(MessageV::ActionAwaited { all_of }),
                    None => None,
                },
                None => None,
            }
        } else if t == "INTERFACE_UPDATE"@ {
            match field_of(j, "components"@) {
                Some(v) => match decode_interface_list(v) {
                    Some(components) => Some(MessageV::InterfaceUpdate { components }),
                    None => None,
                },
                None => None,
            }
        } else if t == "COMPONENTS_UPDATES"@ {
            match field_of(j, "components"@) {
                Some(v) => match decode_update_list(v) {
                    Some(updates) => Some(MessageV::ComponentsUpdates { updates }),
                    None => None,
                },
                None => None,
            }
        } else {
            None
        },
    }
}

} // verus!

verus! {

// ---------------------------------------------------------------------------
// Decoding undoes encoding.
proof fn lemma_lookup_first(ks: Seq<Seq<char>>, vs: Seq<JsonV>, i: int, k: int)
    requires
        0 <= k <= i < ks.len(),
        ks.len() == vs.len(),
        forall|j: int| 0 <= j < i ==> ks[j] != ks[i],
    ensures
        lookup_from(ks, vs, ks[i], k) == Some(vs[i]),
    decreases i - k,
{
    if k < i {
        lemma_lookup_first(ks, vs, i, k + 1);
    }
}

/// The member at index `i` of an object is found under its name when no
/// member before it has that name.
proof fn lemma_field(ks: Seq<Seq<char>>, vs: Seq<JsonV>, i: int)
    requires
        0 <= i < ks.len(),
        ks.len() == vs.len(),
        forall|j: int| 0 <= j < i ==> ks[j] != ks[i],
    ensures
        field_of(JsonV::Object(ks, vs), ks[i]) == Some(vs[i]),
{
    lemma_lookup_first(ks, vs, i, 0);
}

/// The names of the wire format, told apart.
proof fn lemma_names()
    ensures
        "type"@.len() == 4,
        "name"@.len() == 4,
        "id"@.len() == 2,
        "position"@.len() == 8,
        "target_component"@.len() == 16,
        "description"@.len() == 11,
        "front_image"@.len() == 11,
        "back_image"@.len() == 10,
        "state"@.len() == 5,
        "suit"@.len() == 4,
        "value"@.len() == 5,
        "cards"@.len() == 5,
        "component"@.len() == 9,
        "message"@.len() == 7,
        "username"@.len() == 8,
        "winners"@.len() == 7,
        "messages"@.len() == 8,
        "all_of"@.len() == 6,
        "components"@.len() == 10,
        "type"@ != "name"@,
        "description"@ != "front_image"@,
        "PING"@.len() == 4,
        "PONG"@.len() == 4,
        "CLOSE"@.len() == 5,
        "PLAYER_CONNECTED"@.len() == 16,
        "START_GAME"@.len() == 10,
        "GAME_STARTED"@.len() == 12,
        "GAME_FINISHED"@.len() == 13,
        "ERROR"@.len() == 5,
        "ACTION_AWAITED"@.len() == 14,
        "INTERFACE_UPDATE"@.len() == 16,
        "COMPONENTS_UPDATES"@.len() == 18,
        "PING"@ != "PONG"@,
        "CLOSE"@ != "ERROR"@,
        "PLAYER_CONNECTED"@ != "INTERFACE_UPDATE"@,
        "Card"@ != "Hand"@,
        "top"@.len() == 3,
        "bottom"@.len() == 6,
        "left"@.len() == 4,
        "right"@.len() == 5,
        "center"@.len() == 6,
        "bottom"@ != "center"@,
{
    reveal_strlit("type");
    reveal_strlit("name");
    reveal_strlit("id");
    reveal_strlit("position");
    reveal_strlit("target_component");
    reveal_strlit("description");
    reveal_strlit("front_image");
    reveal_strlit("back_image");
    reveal_strlit("state");
    reveal_strlit("suit");
    reveal_strlit("value");
    reveal_strlit("cards");
    reveal_strlit("component");
    reveal_strlit("message");
    reveal_strlit("username");
    reveal_strlit("winners");
    reveal_strlit("messages");
    reveal_strlit("all_of");
    reveal_strlit("components");
    reveal_strlit("PING");
    reveal_strlit("PONG");
    reveal_strlit("CLOSE");
    reveal_strlit("PLAYER_CONNECTED");
    reveal_strlit("START_GAME");
    reveal_strlit("GAME_STARTED");
    reveal_strlit("GAME_FINISHED");
    reveal_strlit("ERROR");
    reveal_strlit("ACTION_AWAITED");
    reveal_strlit("INTERFACE_UPDATE");
    reveal_strlit("COMPONENTS_UPDATES");
    reveal_strlit("Card");
    reveal_strlit("Hand");
    reveal_strlit("top");
    reveal_strlit("bottom");
    reveal_strlit("left");
    reveal_strlit("right");
    reveal_strlit("center");
    assert("type"@[0] != "name"@[0]);
    assert("description"@[0] != "front_image"@[0]);
    assert("PING"@[1] != "PONG"@[1]);
    assert("CLOSE"@[0] != "ERROR"@[0]);
    assert("PLAYER_CONNECTED"@[0] != "INTERFACE_UPDATE"@[0]);
    assert("Card"@[0] != "Hand"@[0]);
    assert("bottom"@[0] != "center"@[0]);
}

proof fn lemma_awaited_round_trip(a: AwaitedActionV)
    ensures
        decode_awaited(encode_awaited(a)) == Some(a),
{
    lemma_names();
    let AwaitedActionV::OnClick { target_component } = a;
    let ks = seq!["type"@, "target_component"@];
    let vs = seq![JsonV::Str("OnClick"@), JsonV::Str(target_component)];
    lemma_field(ks, vs, 0);
    lemma_field(ks, vs, 1);
}

proof fn lemma_interface_component_round_trip(c: (Seq<char>, ComponentPosition))
    ensures
        decode_interface_component(encode_interface_component(c)) == Some(c),
{
    lemma_names();
    let ks = seq!["id"@, "position"@];
    let vs = seq![JsonV::Str(c.0), JsonV::Str(position_name(c.1))];
    lemma_field(ks, vs, 0);
    lemma_field(ks, vs, 1);
}

proof fn lemma_str_list_round_trip(texts: Seq<Seq<char>>)
    ensures
        str_list_of(str_array_of(texts)) == Some(texts),
{
    let items = Seq::new(texts.len(), |i: int| JsonV::Str(texts[i]));
    assert(Seq::new(items.len(), |i: int| items[i]->Str_0) =~= texts);
}

proof fn lemma_component_round_trip(c: ComponentV)
    ensures
        decode_component(encode_component(c)) == Some(c),
{
    lemma_names();
    match c {
        ComponentV::Card { name, description, front_image, back_image, suit, value } => {
            let ks = seq!["type"@, "name"@, "description"@, "front_image"@, "back_image"@, "state"@];
            let state = JsonV::Object(seq!["suit"@, "value"@], seq![JsonV::Str(suit), JsonV::Str(value)]);
            let vs = seq![
                JsonV::Str("Card"@),
                JsonV::Str(name),
                JsonV::Str(description),
                opt_str_value(front_image),
                opt_str_value(back_image),
                state,
            ];
            lemma_field(ks, vs, 0);
            lemma_field(ks, vs, 1);
            lemma_field(ks, vs, 2);
            lemma_field(ks, vs, 3);
            lemma_field(ks, vs, 4);
            lemma_field(ks, vs, 5);
            lemma_field(seq!["suit"@, "value"@], seq![JsonV::Str(suit), JsonV::Str(value)], 0);
            lemma_field(seq!["suit"@, "value"@], seq![JsonV::Str(suit), JsonV::Str(value)], 1);
        },
        ComponentV::Hand { cards } => {
            let ks = seq!["type"@, "cards"@];
            let vs = seq![JsonV::Str("Hand"@), str_array_of(cards)];
            lemma_field(ks, vs, 0);
            lemma_field(ks, vs, 1);
            lemma_str_list_round_trip(cards);
        },
    }
}

proof fn lemma_update_round_trip(u: ComponentUpdateV)
    ensures
        decode_update(encode_update(u)) == Some(u),
{
    lemma_names();
    let ComponentUpdateV::Create { id, component } = u;
    let ks = seq!["type"@, "id"@, "component"@];
    let vs = seq![JsonV::Str("Create"@), JsonV::Str(id), encode_component(component)];
    lemma_field(ks, vs, 0);
    lemma_field(ks, vs, 1);
    lemma_field(ks, vs, 2);
    lemma_component_round_trip(component);
}

proof fn lemma_tag_only(tag: Seq<char>)
    ensures
        str_field_of(tag_only(tag), "type"@) == Some(tag),
{
    lemma_field(seq!["type"@], seq![JsonV::Str(tag)], 0);
}

/// Decoding the JSON form of any message gives that message back.
pub proof fn law_codec_round_trip(m: MessageV)
    ensures
        decode_message(encode_message(m)) == Some(m),
        has_message_tag(encode_message(m)),
{
    lemma_names();
    match m {
        MessageV::Ping => lemma_tag_only("PING"@),
        MessageV::Pong => lemma_tag_only("PONG"@),
        MessageV::Close => lemma_tag_only("CLOSE"@),
        MessageV::StartGame => lemma_tag_only("START_GAME"@),
        MessageV::GameStarted => lemma_tag_only("GAME_STARTED"@),
        MessageV::PlayerConnected { message, username } => {
            let ks = seq!["type"@, "message"@, "username"@];
            let vs = seq![JsonV::Str("PLAYER_CONNECTED"@), JsonV::Str(message), JsonV::Str(username)];
            lemma_field(ks, vs, 0);
            lemma_field(ks, vs, 1);
            lemma_field(ks, vs, 2);
        },
        MessageV::GameFinished { winners } => {
            let ks = seq!["type"@, "winners"@];
            let vs = seq![JsonV::Str("GAME_FINISHED"@), str_array_of(winners)];
            lemma_field(ks, vs, 0);
            lemma_field(ks, vs, 1);
            lemma_str_list_round_trip(winners);
        },
        MessageV::Error { messages } => {
            let ks = seq!["type"@, "messages"@];
            let vs = seq![JsonV::Str("ERROR"@), str_array_of(messages)];
            lemma_field(ks, vs, 0);
            lemma_field(ks, vs, 1);
            lemma_str_list_round_trip(messages);
        },
        MessageV::ActionAwaited { all_of } => {
            let items = Seq::new(all_of.len(), |i: int| encode_awaited(all_of[i]));
            let ks = seq!["type"@, "all_of"@];
            let vs = seq![JsonV::Str("ACTION_AWAITED"@), JsonV::Array(items)];
            lemma_field(ks, vs, 0);
            lemma_field(ks, vs, 1);
            assert forall|i: int| 0 <= i < items.len() implies (#[trigger] decode_awaited(
                items[i],
            )) == Some(all_of[i]) by {
                lemma_awaited_round_trip(all_of[i]);
            }
            assert(Seq::new(items.len(), |i: int| decode_awaited(items[i])->Some_0) =~= all_of);
        },
        MessageV::InterfaceUpdate { components } => {
            let items = Seq::new(
                components.len(),
                |i: int| encode_interface_component(components[i]),
            );
            let ks = seq!["type"@, "components"@];
            let vs = seq![JsonV::Str("INTERFACE_UPDATE"@), JsonV::Array(items)];
            lemma_field(ks, vs, 0);
            lemma_field(ks, vs, 1);
            assert forall|i: int| 0 <= i < items.len() implies (#[trigger] decode_interface_component(
                items[i],
            )) == Some(components[i]) by {
                lemma_interface_component_round_trip(components[i]);
            }
            assert(Seq::new(items.len(), |i: int| decode_interface_component(items[i])->Some_0)
                =~= components);
        },
        MessageV::ComponentsUpdates { updates } => {
            let items = Seq::new(updates.len(), |i: int| encode_update(updates[i]));
            let ks = seq!["type"@, "components"@];
            let vs = seq![JsonV::Str("COMPONENTS_UPDATES"@), JsonV::Array(items)];
            lemma_field(ks, vs, 0);
            lemma_field(ks, vs, 1);
            assert forall|i: int| 0 <= i < items.len() implies (#[trigger] decode_update(items[i]))
                == Some(updates[i]) by {
                lemma_update_round_trip(updates[i]);
            }
            assert(Seq::new(items.len(), |i: int| decode_update(items[i])->Some_0) =~= updates);
        },
    }
}

} // verus!

verus! {

// ---------------------------------------------------------------------------
// Executable encoding.
fn member(key: &str, value: Json) -> (r: (String, Json))
    ensures
        r.0@ == key@,
        r.1 == value,
{
    (String::from_str(key), value)
}

fn tag(name: &str) -> (r: Json)
    ensures
        r@ == JsonV::Str(name@),
{
    Json::Str(String::from_str(name))
}

fn position_text(p: ComponentPosition) -> (r: Json)
    ensures
        r@ == JsonV::Str(position_name(p)),
{
    match p {
        ComponentPosition::Top => tag("top"),
        ComponentPosition::Bottom => tag("bottom"),
        ComponentPosition::Left => tag("left"),
        ComponentPosition::Right => tag("right"),
        ComponentPosition::Center => tag("center"),
    }
}

fn object2(k0: &str, v0: Json, k1: &str, v1: Json) -> (r: Json)
    ensures
        r@ == JsonV::Object(seq![k0@, k1@], seq![v0@, v1@]),
{
    let members = vec![member(k0, v0), member(k1, v1)];
    let ghost ms = members@;
    let r = object(members);
    assert(crate::json::keys_view(ms) =~= seq![k0@, k1@]);
    assert(crate::json::values_view(ms) =~= seq![v0@, v1@]);
    r
}

fn object3(k0: &str, v0: Json, k1: &str, v1: Json, k2: &str, v2: Json) -> (r: Json)
    ensures
        r@ == JsonV::Object(seq![k0@, k1@, k2@], seq![v0@, v1@, v2@]),
{
    let members = vec![member(k0, v0), member(k1, v1), member(k2, v2)];
    let ghost ms = members@;
    let r = object(members);
    assert(crate::json::keys_view(ms) =~= seq![k0@, k1@, k2@]);
    assert(crate::json::values_view(ms) =~= seq![v0@, v1@, v2@]);
    r
}

fn tag_object(name: &str) -> (r: Json)
    ensures
        r@ == tag_only(name@),
{
    let members = vec![member("type", tag(name))];
    let ghost ms = members@;
    let r = object(members);
    assert(crate::json::keys_view(ms) =~= seq!["type"@]);
    assert(crate::json::values_view(ms) =~= seq![JsonV::Str(name@)]);
    r
}

fn encode_awaited_action(a: &AwaitedAction) -> (r: Json)
    ensures
        r@ == encode_awaited(a@),
{
    match a {
        AwaitedAction::OnClick { target_component } => object2(
            "type",
            tag("OnClick"),
            "target_component",
            text(target_component),
        ),
    }
}

fn encode_component_ids(ids: &Vec<ComponentId>) -> (r: Json)
    ensures
        r@ == str_array_of(ids_view(ids@)),
{
    let mut items: Vec<Json> = Vec::new();
    let mut i: usize = 0;
    while i < ids.len()
        invariant
            i <= ids@.len(),
            items@.len() == i,
            forall|k: int| 0 <= k < i ==> (#[trigger] items@[k])@ == JsonV::Str(ids@[k]@),
        decreases ids@.len() - i,
    {
        items.push(text(&ids[i].0));
        i = i + 1;
    }
    let r = array(items);
    assert(items_view(items@) =~= Seq::new(
        ids_view(ids@).len(),
        |k: int| JsonV::Str(ids_view(ids@)[k]),
    ));
    r
}

fn encode_component_value(c: &Component) -> (r: Json)
    ensures
        r@ == encode_component(c@),
{
    match c {
        Component::Card(card) => {
            let state = object2("suit", text(&card.state.suit), "value", text(&card.state.value));
            let members = vec![
                member("type", tag("Card")),
                member("name", text(&card.name)),
                member("description", text(&card.description)),
                member("front_image", opt_text(&card.front_image)),
                member("back_image", opt_text(&card.back_image)),
                member("state", state),
            ];
            let ghost ms = members@;
            let r = object(members);
            assert(crate::json::keys_view(ms) =~= seq![
                "type"@,
                "name"@,
                "description"@,
                "front_image"@,
                "back_image"@,
                "state"@,
            ]);
            assert(crate::json::values_view(ms) =~= seq![
                JsonV::Str("Card"@),
                JsonV::Str(card.name@),
                JsonV::Str(card.description@),
                opt_str_value(opt_view(card.front_image)),
                opt_str_value(opt_view(card.back_image)),
                JsonV::Object(
                    seq!["suit"@, "value"@],
                    seq![JsonV::Str(card.state.suit@), JsonV::Str(card.state.value@)],
                ),
            ]);
            r
        },
        Component::Hand(hand) => object2("type", tag("Hand"), "cards", encode_component_ids(&hand.cards)),
    }
}

fn encode_component_update(u: &ComponentUpdate) -> (r: Json)
    ensures
        r@ == encode_update(u@),
{
    match u {
        ComponentUpdate::Create { id, component } => object3(
            "type",
            tag("Create"),
            "id",
            text(&id.0),
            "component",
            encode_component_value(component),
        ),
    }
}

fn encode_awaited_actions(v: &Vec<AwaitedAction>) -> (r: Json)
    ensures
        r@ == JsonV::Array(Seq::new(v@.len(), |i: int| encode_awaited(v@[i]@))),
{
    let mut items: Vec<Json> = Vec::new();
    let mut i: usize = 0;
    while i < v.len()
        invariant
            i <= v@.len(),
            items@.len() == i,
            forall|k: int| 0 <= k < i ==> (#[trigger] items@[k])@ == encode_awaited(v@[k]@),
        decreases v@.len() - i,
    {
        items.push(encode_awaited_action(&v[i]));
        i = i + 1;
    }
    let r = array(items);
    assert(items_view(items@) =~= Seq::new(v@.len(), |k: int| encode_awaited(v@[k]@)));
    r
}

fn encode_interface_components(v: &Vec<InterfaceComponent>) -> (r: Json)
    ensures
        r@ == JsonV::Array(Seq::new(v@.len(), |i: int| encode_interface_component(v@[i]@))),
{
    let mut items: Vec<Json> = Vec::new();
    let mut i: usize = 0;
    while i < v.len()
        invariant
            i <= v@.len(),
            items@.len() == i,
            forall|k: int|
                0 <= k < i ==> (#[trigger] items@[k])@ == encode_interface_component(v@[k]@),
        decreases v@.len() - i,
    {
        let c = &v[i];
        items.push(object2("id", text(&c.id.0), "position", position_text(c.position)));
        i = i + 1;
    }
    let r = array(items);
    assert(items_view(items@) =~= Seq::new(v@.len(), |k: int| encode_interface_component(v@[k]@)));
    r
}

fn encode_component_updates(v: &Vec<ComponentUpdate>) -> (r: Json)
    ensures
        r@ == JsonV::Array(Seq::new(v@.len(), |i: int| encode_update(v@[i]@))),
{
    let mut items: Vec<Json> = Vec::new();
    let mut i: usize = 0;
    while i < v.len()
        invariant
            i <= v@.len(),
            items@.len() == i,
            forall|k: int| 0 <= k < i ==> (#[trigger] items@[k])@ == encode_update(v@[k]@),
        decreases v@.len() - i,
    {
        items.push(encode_component_update(&v[i]));
        i = i + 1;
    }
    let r = array(items);
    assert(items_view(items@) =~= Seq::new(v@.len(), |k: int| encode_update(v@[k]@)));
    r
}

/// The JSON form of a message: an object whose `type` names the variant,
/// with the variant's fields beside it, in their declared order.
pub fn encode(m: &Message) -> (r: Json)
    ensures
        r@ == encode_message(m@),
{
    match m {
        Message::Ping => tag_object("PING"),
        Message::Pong => tag_object("PONG"),
        Message::Close => tag_object("CLOSE"),
        Message::PlayerConnected(p) => object3(
            "type",
            tag("PLAYER_CONNECTED"),
            "message",
            text(&p.message),
            "username",
            text(&p.username),
        ),
        Message::StartGame => tag_object("START_GAME"),
        Message::GameStarted => tag_object("GAME_STARTED"),
        Message::GameFinished(g) => object2(
            "type",
            tag("GAME_FINISHED"),
            "winners",
            string_array(&g.winners),
        ),
        Message::Error(e) => object2("type", tag("ERROR"), "messages", string_array(&e.messages)),
        Message::ActionAwaited(a) => {
            let r = object2("type", tag("ACTION_AWAITED"), "all_of", encode_awaited_actions(&a.all_of));
            proof {
                let av = Seq::new(a.all_of@.len(), |i: int| a.all_of@[i]@);
                assert(Seq::new(av.len(), |i: int| encode_awaited(av[i])) =~= Seq::new(
                    a.all_of@.len(),
                    |i: int| encode_awaited(a.all_of@[i]@),
                ));
            }
            r
        },
        Message::InterfaceUpdate(u) => {
            let r = object2(
                "type",
                tag("INTERFACE_UPDATE"),
                "components",
                encode_interface_components(&u.components),
            );
            proof {
                let cv = Seq::new(u.components@.len(), |i: int| u.components@[i]@);
                assert(Seq::new(cv.len(), |i: int| encode_interface_component(cv[i])) =~= Seq::new(
                    u.components@.len(),
                    |i: int| encode_interface_component(u.components@[i]@),
                ));
            }
            r
        },
        Message::ComponentsUpdates(u) => {
            let r = object2(
                "type",
                tag("COMPONENTS_UPDATES"),
                "components",
                encode_component_updates(&u.updates),
            );
            proof {
                let uv = Seq::new(u.updates@.len(), |i: int| u.updates@[i]@);
                assert(Seq::new(uv.len(), |i: int| encode_update(uv[i])) =~= Seq::new(
                    u.updates@.len(),
                    |i: int| encode_update(u.updates@[i]@),
                ));
            }
            r
        },
    }
}

} // verus!

verus! {

// ---------------------------------------------------------------------------
// Executable decoding.
/// Why a JSON value holds no message.
#[derive(Clone, Copy, Debug, PartialEq, Eq, Structural)]
pub enum DecodeError {
    /// No `type` member that names a message.
    UnknownType,
    /// The `type` names a message whose fields are missing or misshapen.
    InvalidFields,
}

fn decode_position_text(s: &String) -> (r: Option<ComponentPosition>)
    ensures
        r == decode_position(s@),
{
    if is_text(s, "top") {
        Some(ComponentPosition::Top)
    } else if is_text(s, "bottom") {
        Some(ComponentPosition::Bottom)
    } else if is_text(s, "left") {
        Some(ComponentPosition::Left)
    } else if is_text(s, "right") {
        Some(ComponentPosition::Right)
    } else if is_text(s, "center") {
        Some(ComponentPosition::Center)
    } else {
        None
    }
}

fn decode_awaited_action(j: &Json) -> (r: Option<AwaitedAction>)
    ensures
        match r {
            Some(a) => decode_awaited(j@) == Some(a@),
            None => decode_awaited(j@) is None,
        },
{
    match (str_field(j, "type"), str_field(j, "target_component")) {
        (Some(t), Some(c)) => if is_text(&t, "OnClick") {
            Some(AwaitedAction::OnClick { target_component: c })
        } else {
            None
        },
        _ => None,
    }
}

fn decode_interface_component_value(j: &Json) -> (r: Option<InterfaceComponent>)
    ensures
        match r {
            Some(c) => decode_interface_component(j@) == Some(c@),
            None => decode_interface_component(j@) is None,
        },
{
    match (str_field(j, "id"), str_field(j, "position")) {
        (Some(id), Some(p)) => match decode_position_text(&p) {
            Some(position) => Some(InterfaceComponent { id: ComponentId(id), position }),
            None => None,
        },
        _ => None,
    }
}

fn decode_component_ids(j: &Json) -> (r: Option<Vec<ComponentId>>)
    ensures
        match r {
            Some(v) => str_list_of(j@) == Some(ids_view(v@)),
            None => str_list_of(j@) is None,
        },
{
    match str_list(j) {
        Some(texts) => {
            let mut ids: Vec<ComponentId> = Vec::new();
            let mut i: usize = 0;
            while i < texts.len()
                invariant
                    i <= texts@.len(),
                    ids@.len() == i,
                    forall|k: int| 0 <= k < i ==> (#[trigger] ids@[k])@ == texts@[k]@,
                decreases texts@.len() - i,
            {
                ids.push(ComponentId(texts[i].clone()));
                i = i + 1;
            }
            assert(ids_view(ids@) =~= strings_view(texts@));
            Some(ids)
        },
        None => None,
    }
}

fn decode_component_value(j: &Json) -> (r: Option<Component>)
    ensures
        match r {
            Some(c) => decode_component(j@) == Some(c@),
            None => decode_component(j@) is None,
        },
{
    let t = match str_field(j, "type") {
        Some(t) => t,
        None => {
            return None;
        },
    };
    if is_text(&t, "Card") {
        let name = str_field(j, "name");
        let description = str_field(j, "description");
        let front_image = opt_str_field(j, "front_image");
        let back_image = opt_str_field(j, "back_image");
        let state = field(j, "state");
        match (name, description, front_image, back_image, state) {
            (Some(name), Some(description), Ok(front_image), Ok(back_image), Some(state)) => {
                match (str_field(state, "suit"), str_field(state, "value")) {
                    (Some(suit), Some(value)) => Some(
                        Component::Card(
                            Card {
                                name,
                                description,
                                front_image,
                                back_image,
                                state: CardState { suit, value },
                            },
                        ),
                    ),
                    _ => None,
                }
            },
            _ => None,
        }
    } else if is_text(&t, "Hand") {
        match field(j, "cards") {
            Some(cards) => match decode_component_ids(cards) {
                Some(cards) => Some(Component::Hand(Hand { cards })),
                None => None,
            },
            None => None,
        }
    } else {
        None
    }
}

fn decode_component_update(j: &Json) -> (r: Option<ComponentUpdate>)
    ensures
        match r {
            Some(u) => decode_update(j@) == Some(u@),
            None => decode_update(j@) is None,
        },
{
    match (str_field(j, "type"), str_field(j, "id"), field(j, "component")) {
        (Some(t), Some(id), Some(c)) => if is_text(&t, "Create") {
            match decode_component_value(c) {
                Some(component) => Some(ComponentUpdate::Create { id: ComponentId(id), component }),
                None => None,
            }
        } else {
            None
        },
        _ => None,
    }
}

fn decode_awaited_actions(j: &Json) -> (r: Option<Vec<AwaitedAction>>)
    ensures
        match r {
            Some(v) => decode_awaited_list(j@) == Some(Seq::new(v@.len(), |i: int| v@[i]@)),
            None => decode_awaited_list(j@) is None,
        },
{
    match j {
        Json::Array(items) => {
            let ghost vs = j@->Array_0;
            assert(j@ == JsonV::Array(vs));
            assert(vs =~= items_view(items@));
            let mut out: Vec<AwaitedAction> = Vec::new();
            let mut i: usize = 0;
            while i < items.len()
                invariant
                    i <= items@.len(),
                    j@ == JsonV::Array(vs),
                    vs == items_view(items@),
                    out@.len() == i,
                    forall|k: int| 0 <= k < i ==> decode_awaited(vs[k]) == Some((#[trigger] out@[k])@),
                decreases items@.len() - i,
            {
                assert(vs[i as int] == items@[i as int]@);
                match decode_awaited_action(&items[i]) {
                    Some(a) => {
                        out.push(a);
                    },
                    None => {
                        return None;
                    },
                }
                i = i + 1;
            }
            assert forall|k: int| 0 <= k < vs.len() implies (#[trigger] decode_awaited(vs[k])) is Some by {
                assert(decode_awaited(vs[k]) == Some(out@[k]@));
            }
            assert(Seq::new(vs.len(), |k: int| decode_awaited(vs[k])->Some_0) =~= Seq::new(
                out@.len(),
                |k: int| out@[k]@,
            ));
            Some(out)
        },
        _ => None,
    }
}

fn decode_interface_components(j: &Json) -> (r: Option<Vec<InterfaceComponent>>)
    ensures
        match r {
            Some(v) => decode_interface_list(j@) == Some(Seq::new(v@.len(), |i: int| v@[i]@)),
            None => decode_interface_list(j@) is None,
        },
{
    match j {
        Json::Array(items) => {
            let ghost vs = j@->Array_0;
            assert(j@ == JsonV::Array(vs));
            assert(vs =~= items_view(items@));
            let mut out: Vec<InterfaceComponent> = Vec::new();
            let mut i: usize = 0;
            while i < items.len()
                invariant
                    i <= items@.len(),
                    j@ == JsonV::Array(vs),
                    vs == items_view(items@),
                    out@.len() == i,
                    forall|k: int|
                        0 <= k < i ==> decode_interface_component(vs[k]) == Some((#[trigger] out@[k])@),
                decreases items@.len() - i,
            {
                assert(vs[i as int] == items@[i as int]@);
                match decode_interface_component_value(&items[i]) {
                    Some(c) => {
                        out.push(c);
                    },
                    None => {
                        return None;
                    },
                }
                i = i + 1;
            }
            assert forall|k: int| 0 <= k < vs.len() implies (#[trigger] decode_interface_component(
                vs[k],
            )) is Some by {
                assert(decode_interface_component(vs[k]) == Some(out@[k]@));
            }
            assert(Seq::new(vs.len(), |k: int| decode_interface_component(vs[k])->Some_0) =~= Seq::new(
                out@.len(),
                |k: int| out@[k]@,
            ));
            Some(out)
        },
        _ => None,
    }
}

fn decode_component_updates(j: &Json) -> (r: Option<Vec<ComponentUpdate>>)
    ensures
        match r {
            Some(v) => decode_update_list(j@) == Some(Seq::new(v@.len(), |i: int| v@[i]@)),
            None => decode_update_list(j@) is None,
        },
{
    match j {
        Json::Array(items) => {
            let ghost vs = j@->Array_0;
            assert(j@ == JsonV::Array(vs));
            assert(vs =~= items_view(items@));
            let mut out: Vec<ComponentUpdate> = Vec::new();
            let mut i: usize = 0;
            while i < items.len()
                invariant
                    i <= items@.len(),
                    j@ == JsonV::Array(vs),
                    vs == items_view(items@),
                    out@.len() == i,
                    forall|k: int| 0 <= k < i ==> decode_update(vs[k]) == Some((#[trigger] out@[k])@),
                decreases items@.len() - i,
            {
                assert(vs[i as int] == items@[i as int]@);
                match decode_component_update(&items[i]) {
                    Some(u) => {
                        out.push(u);
                    },
                    None => {
                        return None;
                    },
                }
                i = i + 1;
            }
            assert forall|k: int| 0 <= k < vs.len() implies (#[trigger] decode_update(vs[k])) is Some by {
                assert(decode_update(vs[k]) == Some(out@[k]@));
            }
            assert(Seq::new(vs.len(), |k: int| decode_update(vs[k])->Some_0) =~= Seq::new(
                out@.len(),
                |k: int| out@[k]@,
            ));
            Some(out)
        },
        _ => None,
    }
}

fn decode_strings_field(j: &Json, key: &str) -> (r: Option<Vec<String>>)
    ensures
        match r {
            Some(v) => str_list_field_of(j@, key@) == Some(strings_view(v@)),
            None => str_list_field_of(j@, key@) is None,
        },
{
    match field(j, key) {
        Some(v) => str_list(v),
        None => None,
    }
}

/// The message that a JSON value holds: the `type` member picks the variant,
/// whose fields must all be there with the right shape; other members are
/// ignored.
pub fn decode(j: &Json) -> (r: Result<Message, DecodeError>)
    ensures
        r is Ok <==> decode_message(j@) is Some,
        match r {
            Ok(m) => decode_message(j@) == Some(m@),
            Err(DecodeError::UnknownType) => !has_message_tag(j@),
            Err(DecodeError::InvalidFields) => has_message_tag(j@) && decode_message(j@) is None,
        },
{
    let t = match str_field(j, "type") {
        Some(t) => t,
        None => {
            return Err(DecodeError::UnknownType);
        },
    };
    if is_text(&t, "PING") {
        Ok(Message::Ping)
    } else if is_text(&t, "PONG") {
        Ok(Message::Pong)
    } else if is_text(&t, "CLOSE") {
        Ok(Message::Close)
    } else if is_text(&t, "PLAYER_CONNECTED") {
        match (str_field(j, "message"), str_field(j, "username")) {
            (Some(message), Some(username)) => Ok(
                Message::PlayerConnected(PlayerConnected { message, username }),
            ),
            _ => Err(DecodeError::InvalidFields),
        }
    } else if is_text(&t, "START_GAME") {
        Ok(Message::StartGame)
    } else if is_text(&t, "GAME_STARTED") {
        Ok(Message::GameStarted)
    } else if is_text(&t, "GAME_FINISHED") {
        match decode_strings_field(j, "winners") {
            Some(winners) => Ok(Message::GameFinished(GameFinished { winners })),
            None => Err(DecodeError::InvalidFields),
        }
    } else if is_text(&t, "ERROR") {
        match decode_strings_field(j, "messages") {
            Some(messages) => Ok(Message::Error(Error { messages })),
            None => Err(DecodeError::InvalidFields),
        }
    } else if is_text(&t, "ACTION_AWAITED") {
        match field(j, "all_of") {
            Some(v) => match decode_awaited_actions(v) {
                Some(all_of) => Ok(Message::ActionAwaited(ActionAwaited { all_of })),
                None => Err(DecodeError::InvalidFields),
            },
            None => Err(DecodeError::InvalidFields),
        }
    } else if is_text(&t, "INTERFACE_UPDATE") {
        match field(j, "components") {
            Some(v) => match decode_interface_components(v) {
                Some(components) => Ok(Message::InterfaceUpdate(InterfaceUpdate { components })),
                None => Err(DecodeError::InvalidFields),
            },
            None => Err(DecodeError::InvalidFields),
        }
    } else if is_text(&t, "COMPONENTS_UPDATES") {
        match field(j, "components") {
            Some(v) => match decode_component_updates(v) {
                Some(updates) => Ok(Message::ComponentsUpdates(ComponentsUpdates { updates })),
                None => Err(DecodeError::InvalidFields),
            },
            None => Err(DecodeError::InvalidFields),
        }
    } else {
        Err(DecodeError::UnknownType)
    }
}

} // verus!

verus! {

impl ComponentId {
    pub fn new(id: &str) -> (r: ComponentId)
        ensures
            r@ == id@,
    {
        ComponentId(String::from_str(id))
    }
}

impl From<String> for ComponentId {
    fn from(id: String) -> (r: ComponentId) {
        ComponentId(id)
    }
}

impl vstd::std_specs::convert::FromSpecImpl<String> for ComponentId {
    open spec fn obeys_from_spec() -> bool {
        true
    }

    open spec fn from_spec(id: String) -> ComponentId {
        ComponentId(id)
    }
}

impl From<&str> for ComponentId {
    fn from(id: &str) -> (r: ComponentId) {
        ComponentId::new(id)
    }
}

impl vstd::std_specs::convert::FromSpecImpl<&str> for ComponentId {
    // A `String` cannot be built in specifications: what `from` gives is
    // stated by `ComponentId::new`.
    open spec fn obeys_from_spec() -> bool {
        false
    }

    open spec fn from_spec(id: &str) -> ComponentId {
        ComponentId(vstd::pervasive::arbitrary())
    }
}

impl From<Card> for Component {
    fn from(card: Card) -> (r: Component) {
        Component::Card(card)
    }
}

impl vstd::std_specs::convert::FromSpecImpl<Card> for Component {
    open spec fn obeys_from_spec() -> bool {
        true
    }

    open spec fn from_spec(card: Card) -> Component {
        Component::Card(card)
    }
}

impl From<Hand> for Component {
    fn from(hand: Hand) -> (r: Component) {
        Component::Hand(hand)
    }
}

impl vstd::std_specs::convert::FromSpecImpl<Hand> for Component {
    open spec fn obeys_from_spec() -> bool {
        true
    }

    open spec fn from_spec(hand: Hand) -> Component {
        Component::Hand(hand)
    }
}

impl From<PlayerConnected> for Message {
    fn from(m: PlayerConnected) -> (r: Message) {
        Message::PlayerConnected(m)
    }
}

impl vstd::std_specs::convert::FromSpecImpl<PlayerConnected> for Message {
    open spec fn obeys_from_spec() -> bool {
        true
    }

    open spec fn from_spec(m: PlayerConnected) -> Message {
        Message::PlayerConnected(m)
    }
}

impl From<GameFinished> for Message {
    fn from(m: GameFinished) -> (r: Message) {
        Message::GameFinished(m)
    }
}

impl vstd::std_specs::convert::FromSpecImpl<GameFinished> for Message {
    open spec fn obeys_from_spec() -> bool {
        true
    }

    open spec fn from_spec(m: GameFinished) -> Message {
        Message::GameFinished(m)
    }
}

impl From<Error> for Message {
    fn from(m: Error) -> (r: Message) {
        Message::Error(m)
    }
}

impl vstd::std_specs::convert::FromSpecImpl<Error> for Message {
    open spec fn obeys_from_spec() -> bool {
        true
    }

    open spec fn from_spec(m: Error) -> Message {
        Message::Error(m)
    }
}

impl From<ActionAwaited> for Message {
    fn from(m: ActionAwaited) -> (r: Message) {
        Message::ActionAwaited(m)
    }
}

impl vstd::std_specs::convert::FromSpecImpl<ActionAwaited> for Message {
    open spec fn obeys_from_spec() -> bool {
        true
    }

    open spec fn from_spec(m: ActionAwaited) -> Message {
        Message::ActionAwaited(m)
    }
}

impl From<InterfaceUpdate> for Message {
    fn from(m: InterfaceUpdate) -> (r: Message) {
        Message::InterfaceUpdate(m)
    }
}

impl vstd::std_specs::convert::FromSpecImpl<InterfaceUpdate> for Message {
    open spec fn obeys_from_spec() -> bool {
        true
    }

    open spec fn from_spec(m: InterfaceUpdate) -> Message {
        Message::InterfaceUpdate(m)
    }
}

impl From<ComponentsUpdates> for Message {
    fn from(m: ComponentsUpdates) -> (r: Message) {
        Message::ComponentsUpdates(m)
    }
}

impl vstd::std_specs::convert::FromSpecImpl<ComponentsUpdates> for Message {
    open spec fn obeys_from_spec() -> bool {
        true
    }

    open spec fn from_spec(m: ComponentsUpdates) -> Message {
        Message::ComponentsUpdates(m)
    }
}

} // verus!
