//! Reminder scheduling for a chat bot: reminder records, their stored form,
//! the earliest-first pending queue, and the decisions of the delivery loop.

pub mod time;
pub mod text;
pub mod record;
pub mod queue;
pub mod scheduler;
pub mod storage;
pub mod components;
pub mod custom_id;
pub mod bookmark;
pub mod reply;
