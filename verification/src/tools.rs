//! Tools (actuators) the model can invoke. The file writes and API calls
//! themselves are external collaborators run by the composing layer; the
//! library holds each tool's configuration and the exact construction of
//! what it writes or requests.

pub mod daily_summary_writer;
pub mod gmail_actions;
pub mod gmail_tool;
pub mod simple_file_writer;

pub use daily_summary_writer::{DailySummaryWriter, DailySummaryWriterBuilder};
pub use simple_file_writer::{SimpleFileWriter, SimpleFileWriterBuilder};
