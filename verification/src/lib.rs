//! Terminal Snake: the game rules, the board model and the decisions around
//! them, each stated as a contract and proved.

pub mod constants;
pub mod snake;
pub mod board;
pub mod game;
pub mod theme;
pub mod rendering;
pub mod control;
pub mod highscore;
pub mod text;
