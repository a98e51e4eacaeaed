//! Message routing for a chat assistant: classifying text into intents,
//! tracking which user holds the conversation in each channel, and deciding
//! what to do with every inbound message.

pub mod ai;
pub mod bot;
pub mod commands;
pub mod config;
pub mod dates;
pub mod dispatch;
pub mod store;
pub mod text;
