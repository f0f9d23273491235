//! Webhook-driven chat bot bridge: the credential lifecycle and the
//! event-dispatch state machine, with the reply pipeline modelled as a
//! transition function driven by an outer event loop.

pub mod credential;
pub mod dispatch;
pub mod events;
pub mod pipeline;
pub mod refresher;
