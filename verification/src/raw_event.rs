//! The wire-level unit of the digitizer's stream.

use vstd::prelude::*;

verus! {

/// Record type of a frame boundary.
pub const TYPE_SYNC: u16 = 0;

/// Record type of a tool presence change.
pub const TYPE_TOOL: u16 = 1;

/// Record type of a single axis update.
pub const TYPE_MOVEMENT: u16 = 3;

/// One record as the device reports it: what kind of record it is, which
/// tool or axis it concerns, and the magnitude it carries.
#[derive(Debug, Clone, Copy, PartialEq, Eq, Hash)]
pub struct RawEvent {
    pub typ: u16,
    pub code: u16,
    pub value: u32,
}

impl RawEvent {
    /// Puts the three fields of a record together.
    pub fn new(typ: u16, code: u16, value: u32) -> (record: RawEvent)
        ensures
            record == (RawEvent { typ, code, value }),
    {
        RawEvent { typ, code, value }
    }
}

} // verus!
