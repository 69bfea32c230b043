//! Decoding of a pen digitizer's input records and their aggregation into
//! tool snapshots.

pub mod event;
pub mod event_source;
pub mod raw_event;
pub mod session;
pub mod tool;
pub mod tool_event_source;
