//! The bridge that forwards what the mesh says to a chat: how it reads the
//! packets of the radio, what it keeps of the nodes, and what it forwards.

pub mod packets;
pub mod service;
pub mod storage;
pub mod telegram;
