//! Recurring reminders: cron-style schedules, the events that carry them,
//! the stored event list, and the decisions of the daemon that fires them.

pub mod daemon;
pub mod error;
pub mod event;
pub mod schedule;
pub mod selection;
pub mod storage;
pub mod time;

pub use daemon::Outcome;
pub use daemon::Poll;
pub use error::RecollectError;
pub use event::Event;
pub use event::Notice;
pub use event::Summary;
pub use schedule::validate_schedule;
pub use storage::JsonStorage;
pub use storage::Record;
pub use storage::Storage;
pub use time::Timestamp;
