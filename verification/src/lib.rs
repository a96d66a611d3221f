//! A turn-based social-deduction party game played in a chat room.

pub mod dispatch;
pub mod game;
pub mod inbound;
pub mod laws;
pub mod message;
pub mod player;
pub mod text;
