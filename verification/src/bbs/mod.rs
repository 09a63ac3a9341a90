//! The bulletin board that answers text messages: its commands, its store
//! of channels, users and posts, and its answers.

pub mod command;
pub mod front;
pub mod service;
pub mod sessions;
pub mod storage;
