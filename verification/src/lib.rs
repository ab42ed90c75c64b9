//! Verified core of a chess-bot arena: the line protocol spoken with bot
//! workers, the referee that runs validation and ranked games, the PGN
//! record of a game, and the request rules of the web API.

pub mod text;
pub mod protocol;
pub mod matches;
pub mod models;
pub mod chess;
pub mod referee;
pub mod validation;
pub mod api;
pub mod ids;
pub mod pairing;
pub mod elo;
