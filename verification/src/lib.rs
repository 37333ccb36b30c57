//! A bridge between a host and a guest that share a numeric accumulator.
//!
//! The guest is sent commands, one at a time on a stream of lines or all at
//! once as a batch, and applies them to an accumulator while tracing what it
//! did. The host owns accumulators of its own in a table and hands them out
//! by handle.
pub mod arithmetic;
pub mod batch;
pub mod codec;
pub mod command;
pub mod processor;
pub mod session;
pub mod stream;
pub mod table;
pub mod text;

pub use arithmetic::Arithmetic;
pub use batch::process_batch;
pub use batch::BatchReport;
pub use codec::decode_command;
pub use codec::encode_command;
pub use codec::ProtocolError;
pub use command::Command;
pub use processor::format_result;
pub use processor::process_message;
pub use processor::Overflow;
pub use session::stream_session;
pub use session::SessionOutcome;
pub use stream::is_terminator;
pub use stream::Action;
pub use stream::Event;
pub use stream::Phase;
pub use stream::StreamError;
pub use stream::StreamPump;
pub use table::AccumulatorTable;
pub use table::Handle;
pub use table::TableError;
