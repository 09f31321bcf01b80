//! The connectivity core of a browser client for an online card game: the
//! connection manager that owns the one socket to the game server and tells
//! its subscribers of it, the workflow that joins a game (an HTTP call, then
//! a socket), and the wire protocol spoken over the socket.
use vstd::prelude::*;

pub mod json;
pub mod subscribers;
pub mod frames;
pub mod game_ws_mgr;
pub mod game_server;
pub mod joining_game;
pub mod game_mgr;
pub mod wire;
pub mod history;
pub mod notifications;
