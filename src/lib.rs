//! Session engine for a streaming chat client of a local text-generation
//! service: line assembly of raw console input, the conversation context and
//! its persisted form, the per-turn exchange state machine and the
//! classification of failed exchanges.

pub mod config;
pub mod context;
pub mod exchange;
pub mod failure;
pub mod line;
pub mod session;

pub use config::{default_host, default_port, Config};
pub use context::{load_context, ConversationContext, SessionError};
pub use failure::{failure_message, is_html_error, plan_failure, FailurePlan};
pub use exchange::{Exchange, ExchangePhase, StreamEvent};
pub use line::LineAssembler;
pub use session::{summary_advisory, Session, SystemPrompt, TurnRequest};
