//! An agent-orchestration core: asynchronous event sources ("triggers") feed
//! events to an agent that renders each event into a prompt and submits it to
//! a pluggable text-completion capability ("model"). The library verifies the
//! decision logic of that engine: retry policy for transient rate-limit
//! failures, scope aggregation for a single shared authentication handshake,
//! template-driven prompt construction, and agent build validation.

pub mod agent;
pub mod llm;
pub mod prompt;
pub mod shutdown;
pub mod tools;
pub mod triggers;
pub mod utils;

pub use tools::{
    DailySummaryWriter, DailySummaryWriterBuilder, SimpleFileWriter, SimpleFileWriterBuilder,
};
pub use tools::gmail_tool::{GmailTool, GmailToolBuilder};
pub use triggers::{
    GmailWatchTrigger, PollTrigger, TelegramBotTrigger, TEvent,
};
pub use triggers::gmail_watch_trigger::GmailWatchTriggerBuilder;
pub use triggers::poll_trigger::PollTriggerBuilder;
pub use triggers::telegram_bot_trigger::TelegramBotTriggerBuilder;
pub use utils::context_hub::ContextHub;
