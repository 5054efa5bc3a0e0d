pub mod channel_state;
pub mod messages;
pub mod tangle_channel_reader;
pub mod tangle_channel_writer;
