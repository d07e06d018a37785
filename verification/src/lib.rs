//! A verified core for a chat-channel tool bot.
//!
//! The library holds the logic of a conversational bridge: a gate that decides
//! whether an inbound channel message is processed, a conversation log shared
//! across turns, a registry of the tools advertised to the language model, the
//! dispatch rules that turn a model response into tool invocations, and the
//! capability functions that render tool results as reply strings. The
//! surrounding transport (channel delivery, the model endpoint, HTTP fetches)
//! is driven by an unverified shell that feeds plain values into these
//! functions and obeys their decisions.

pub mod capability;
pub mod conversation;
pub mod decimal;
pub mod dispatch;
pub mod protocol;
pub mod session;
pub mod tools;
pub mod weather;
