//! Typed events, and the decoding of one raw record into one of them.

use vstd::prelude::*;
use crate::raw_event::{RawEvent, TYPE_MOVEMENT, TYPE_SYNC, TYPE_TOOL};

verus! {

/// Axis code of the horizontal position.
pub const CODE_X: u16 = 0;

/// Axis code of the vertical position.
pub const CODE_Y: u16 = 1;

/// Axis code of the pressure on the pad.
pub const CODE_PRESSURE: u16 = 24;

/// Axis code of the hover distance above the pad.
pub const CODE_DISTANCE: u16 = 25;

/// Axis code of the tilt along the horizontal axis.
pub const CODE_TILT_X: u16 = 26;

/// Axis code of the tilt along the vertical axis.
pub const CODE_TILT_Y: u16 = 27;

/// The implements that the pad tells apart.
#[derive(Debug, Clone, Copy, PartialEq, Eq, Hash, Structural)]
pub enum ToolKind {
    Pen,
    Rubber,
    Touch,
    Stylus,
    Stylus2,
}

impl ToolKind {
    /// The number by which the device names this kind.
    pub open spec fn spec_code(self) -> u16 {
        match self {
            ToolKind::Pen => 320,
            ToolKind::Rubber => 321,
            ToolKind::Touch => 330,
            ToolKind::Stylus => 331,
            ToolKind::Stylus2 => 332,
        }
    }

    /// The kind that a code names, if it names one.
    pub open spec fn spec_from_code(code: u16) -> Option<ToolKind> {
        if code == 320 {
            Some(ToolKind::Pen)
        } else if code == 321 {
            Some(ToolKind::Rubber)
        } else if code == 330 {
            Some(ToolKind::Touch)
        } else if code == 331 {
            Some(ToolKind::Stylus)
        } else if code == 332 {
            Some(ToolKind::Stylus2)
        } else {
            None
        }
    }

    /// The number by which the device names this kind.
    pub fn code(self) -> (code: u16)
        ensures
            code == self.spec_code(),
    {
        match self {
            ToolKind::Pen => 320,
            ToolKind::Rubber => 321,
            ToolKind::Touch => 330,
            ToolKind::Stylus => 331,
            ToolKind::Stylus2 => 332,
        }
    }

    /// Looks a code up: the kind whose code it is, or `None` where no kind
    /// has that code. An unknown code is never turned into some kind.
    pub fn from_code(code: u16) -> (kind: Option<ToolKind>)
        ensures
            kind == Self::spec_from_code(code),
            match kind {
                Some(k) => k.spec_code() == code,
                None => forall|k: ToolKind| k.spec_code() != code,
            },
    {
        match code {
            320 => Some(ToolKind::Pen),
            321 => Some(ToolKind::Rubber),
            330 => Some(ToolKind::Touch),
            331 => Some(ToolKind::Stylus),
            332 => Some(ToolKind::Stylus2),
            _ => None,
        }
    }

    /// Codes and kinds correspond one to one: looking up the code of a kind
    /// gives that kind back, and a code that names a kind is that kind's code.
    pub proof fn code_round_trip(kind: ToolKind, code: u16)
        ensures
            Self::spec_from_code(kind.spec_code()) == Some(kind),
            Self::spec_from_code(code) == Some(kind) <==> kind.spec_code() == code,
    {
    }
}

/// One update of a single axis, with the magnitude that was reported.
#[derive(Debug, Clone, Copy, PartialEq, Eq, Hash)]
pub enum Movement {
    X(u32),
    Y(u32),
    TiltX(u32),
    TiltY(u32),
    Pressure(u32),
    Distance(u32),
}

/// What one record means.
#[derive(Debug, Clone, Copy, PartialEq, Eq)]
pub enum Event {
    /// The end of one frame of updates.
    Sync,
    /// A tool of this kind came within reach of the pad.
    ToolAdded(ToolKind),
    /// A tool of this kind left the pad.
    ToolRemoved(ToolKind),
    /// One axis changed.
    Movement(Movement),
}

/// Why a record could not be decoded.
#[derive(Debug, Clone, Copy, PartialEq, Eq)]
pub enum UnknownEvent {
    /// A presence record whose code names no tool.
    ToolCode(u16),
    /// A presence record whose value is neither 0 nor 1.
    ToolValue(u32),
    /// An axis record whose code names no axis that is tracked.
    MovementCode(u16),
    /// A record of a type that is not handled; the whole record is kept.
    Type(RawEvent),
}

impl Movement {
    /// The axis update that an axis code and a magnitude stand for, if the
    /// code names a tracked axis.
    pub open spec fn spec_from_code(code: u16, value: u32) -> Option<Movement> {
        if code == CODE_X {
            Some(Movement::X(value))
        } else if code == CODE_Y {
            Some(Movement::Y(value))
        } else if code == CODE_PRESSURE {
            Some(Movement::Pressure(value))
        } else if code == CODE_DISTANCE {
            Some(Movement::Distance(value))
        } else if code == CODE_TILT_X {
            Some(Movement::TiltX(value))
        } else if code == CODE_TILT_Y {
            Some(Movement::TiltY(value))
        } else {
            None
        }
    }

    /// The magnitude that the update carries.
    pub open spec fn spec_value(self) -> u32 {
        match self {
            Movement::X(n) => n,
            Movement::Y(n) => n,
            Movement::TiltX(n) => n,
            Movement::TiltY(n) => n,
            Movement::Pressure(n) => n,
            Movement::Distance(n) => n,
        }
    }
}

impl Event {
    /// The meaning of a record. Every record has exactly one: an event, or
    /// the reason why it is not understood.
    pub open spec fn decode(ev: RawEvent) -> Result<Event, UnknownEvent> {
        if ev.typ == TYPE_SYNC {
            Ok(Event::Sync)
        } else if ev.typ == TYPE_TOOL {
            match ToolKind::spec_from_code(ev.code) {
                None => Err(UnknownEvent::ToolCode(ev.code)),
                Some(kind) => if ev.value == 0 {
                    Ok(Event::ToolRemoved(kind))
                } else if ev.value == 1 {
                    Ok(Event::ToolAdded(kind))
                } else {
                    Err(UnknownEvent::ToolValue(ev.value))
                },
            }
        } else if ev.typ == TYPE_MOVEMENT {
            match Movement::spec_from_code(ev.code, ev.value) {
                Some(mv) => Ok(Event::Movement(mv)),
                None => Err(UnknownEvent::MovementCode(ev.code)),
            }
        } else {
            Err(UnknownEvent::Type(ev))
        }
    }

    /// Decodes one record. The result depends on the record alone.
    pub fn try_from(ev: RawEvent) -> (decoded: Result<Event, UnknownEvent>)
        ensures
            decoded == Self::decode(ev),
    {
        if ev.typ == TYPE_SYNC {
            Ok(Event::Sync)
        } else if ev.typ == TYPE_TOOL {
            match ToolKind::from_code(ev.code) {
                None => Err(UnknownEvent::ToolCode(ev.code)),
                Some(kind) => {
                    if ev.value == 0 {
                        Ok(Event::ToolRemoved(kind))
                    } else if ev.value == 1 {
                        Ok(Event::ToolAdded(kind))
                    } else {
                        Err(UnknownEvent::ToolValue(ev.value))
                    }
                },
            }
        } else if ev.typ == TYPE_MOVEMENT {
            if ev.code == CODE_X {
                Ok(Event::Movement(Movement::X(ev.value)))
            } else if ev.code == CODE_Y {
                Ok(Event::Movement(Movement::Y(ev.value)))
            } else if ev.code == CODE_PRESSURE {
                Ok(Event::Movement(Movement::Pressure(ev.value)))
            } else if ev.code == CODE_DISTANCE {
                Ok(Event::Movement(Movement::Distance(ev.value)))
            } else if ev.code == CODE_TILT_X {
                Ok(Event::Movement(Movement::TiltX(ev.value)))
            } else if ev.code == CODE_TILT_Y {
                Ok(Event::Movement(Movement::TiltY(ev.value)))
            } else {
                Err(UnknownEvent::MovementCode(ev.code))
            }
        } else {
            Err(UnknownEvent::Type(ev))
        }
    }

    /// Whether the record's type and code stand in the decoding table with
    /// an event, whatever the value.
    pub open spec fn in_table(ev: RawEvent) -> bool {
        ||| ev.typ == TYPE_SYNC
        ||| ev.typ == TYPE_TOOL && ToolKind::spec_from_code(ev.code) is Some
        ||| ev.typ == TYPE_MOVEMENT && Movement::spec_from_code(ev.code, ev.value) is Some
    }

    /// Decoding is total, and each outcome comes on exactly the records it
    /// is documented for: success where type and code stand in the table
    /// (and, for a presence record, the value is 0 or 1), and each error on
    /// its own kind of unknown record, carrying the offending field. A frame
    /// boundary is recognised whatever its code and value; an axis update
    /// carries the record's value unchanged.
    pub proof fn decode_total(ev: RawEvent)
        ensures
            Self::decode(ev) is Ok <==> Self::in_table(ev) && (ev.typ == TYPE_TOOL ==> ev.value
                <= 1),
            Self::decode(ev) == Ok::<Event, UnknownEvent>(Event::Sync) <==> ev.typ == TYPE_SYNC,
            forall|kind: ToolKind|
                Self::decode(ev) == Ok::<Event, UnknownEvent>(Event::ToolAdded(kind)) <==> ev.typ
                    == TYPE_TOOL && ev.code == kind.spec_code() && ev.value == 1,
            forall|kind: ToolKind|
                Self::decode(ev) == Ok::<Event, UnknownEvent>(Event::ToolRemoved(kind)) <==> ev.typ
                    == TYPE_TOOL && ev.code == kind.spec_code() && ev.value == 0,
            forall|mv: Movement|
                Self::decode(ev) == Ok::<Event, UnknownEvent>(Event::Movement(mv)) <==> ev.typ
                    == TYPE_MOVEMENT && Movement::spec_from_code(ev.code, ev.value) == Some(mv),
            forall|mv: Movement|
                Self::decode(ev) == Ok::<Event, UnknownEvent>(Event::Movement(mv))
                    ==> mv.spec_value() == ev.value,
            Self::decode(ev) is Err <==> Self::decode(ev) == Err::<Event, UnknownEvent>(
                UnknownEvent::ToolCode(ev.code),
            ) || Self::decode(ev) == Err::<Event, UnknownEvent>(UnknownEvent::ToolValue(ev.value))
                || Self::decode(ev) == Err::<Event, UnknownEvent>(
                UnknownEvent::MovementCode(ev.code),
            ) || Self::decode(ev) == Err::<Event, UnknownEvent>(UnknownEvent::Type(ev)),
            Self::decode(ev) is Err && Self::decode(ev)->Err_0 is ToolCode <==> ev.typ == TYPE_TOOL
                && ToolKind::spec_from_code(ev.code) is None,
            Self::decode(ev) is Err && Self::decode(ev)->Err_0 is ToolValue <==> ev.typ
                == TYPE_TOOL && ToolKind::spec_from_code(ev.code) is Some && ev.value > 1,
            Self::decode(ev) is Err && Self::decode(ev)->Err_0 is MovementCode <==> ev.typ
                == TYPE_MOVEMENT && Movement::spec_from_code(ev.code, ev.value) is None,
            Self::decode(ev) is Err && Self::decode(ev)->Err_0 is Type <==> ev.typ != TYPE_SYNC
                && ev.typ != TYPE_TOOL && ev.typ != TYPE_MOVEMENT,
    {
        assert forall|kind: ToolKind|
            Self::decode(ev) == Ok::<Event, UnknownEvent>(Event::ToolAdded(kind)) <==> ev.typ
                == TYPE_TOOL && ev.code == kind.spec_code() && ev.value == 1 by {
            ToolKind::code_round_trip(kind, ev.code);
        }
        assert forall|kind: ToolKind|
            Self::decode(ev) == Ok::<Event, UnknownEvent>(Event::ToolRemoved(kind)) <==> ev.typ
                == TYPE_TOOL && ev.code == kind.spec_code() && ev.value == 0 by {
            ToolKind::code_round_trip(kind, ev.code);
        }
    }
}

} // verus!
