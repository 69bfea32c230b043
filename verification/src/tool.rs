//! Tool snapshots: the accumulator that collects the axes of a tool that
//! has just appeared, and the finished snapshot that later updates refresh.

use vstd::prelude::*;
use crate::event::{Movement, ToolKind};

verus! {

/// A tool counts as touching only while it hovers lower than this.
pub const TOUCH_DISTANCE: u32 = 10;

/// A tool counts as touching only while it presses harder than this.
pub const TOUCH_PRESSURE: u32 = 700;

/// A position on the pad: horizontal, then vertical.
#[derive(Debug, Clone, Copy, PartialEq, Eq, Hash)]
pub struct Point(pub u32, pub u32);

/// Whether the tool touches the pad, and how hard, or else how far above
/// it the tool hovers.
#[derive(Debug, Clone, Copy, PartialEq, Eq, Hash)]
pub enum Height {
    Distance(u32),
    Touching(u32),
}

impl Height {
    /// The height that a pressure and a distance amount to: touching, with
    /// the pressure, where the tool is both close enough and pressed hard
    /// enough; otherwise the distance.
    pub open spec fn spec_of(pressure: u32, distance: u32) -> Height {
        if distance < TOUCH_DISTANCE && pressure > TOUCH_PRESSURE {
            Height::Touching(pressure)
        } else {
            Height::Distance(distance)
        }
    }

    /// Derives the height from the latest pressure and the latest distance.
    pub fn of(pressure: u32, distance: u32) -> (height: Height)
        ensures
            height == Self::spec_of(pressure, distance),
            height is Touching <==> distance < 10 && pressure > 700,
            height is Touching ==> height->Touching_0 == pressure,
            height is Distance ==> height->Distance_0 == distance,
    {
        if distance < TOUCH_DISTANCE && TOUCH_PRESSURE < pressure {
            Height::Touching(pressure)
        } else {
            Height::Distance(distance)
        }
    }
}

/// A finished snapshot of a tool. Besides what it shows (kind, position,
/// tilt and height) it remembers the pressure and the distance that were
/// reported last, from which the height is derived anew whenever one of
/// the two changes.
#[derive(Debug, Clone, Copy, PartialEq, Eq, Hash)]
pub struct Tool {
    pub kind: ToolKind,
    pub point: Point,
    pub tilt_x: Option<u32>,
    pub tilt_y: Option<u32>,
    pub height: Height,
    pub pressure: u32,
    pub distance: u32,
}

impl Tool {
    /// The snapshot is coherent: its height is the one that its pressure
    /// and distance amount to.
    pub open spec fn wf(self) -> bool {
        self.height == Height::spec_of(self.pressure, self.distance)
    }

    /// The snapshot after one axis update: that axis takes the new
    /// magnitude, every other axis stays, and the height follows the
    /// latest pressure and distance.
    pub open spec fn updated(self, mv: Movement) -> Tool {
        match mv {
            Movement::X(n) => Tool { point: Point(n, self.point.1), ..self },
            Movement::Y(n) => Tool { point: Point(self.point.0, n), ..self },
            Movement::TiltX(n) => Tool { tilt_x: Some(n), ..self },
            Movement::TiltY(n) => Tool { tilt_y: Some(n), ..self },
            Movement::Pressure(n) => Tool {
                pressure: n,
                height: Height::spec_of(n, self.distance),
                ..self
            },
            Movement::Distance(n) => Tool {
                distance: n,
                height: Height::spec_of(self.pressure, n),
                ..self
            },
        }
    }

    /// Applies one axis update in place. A change of pressure or distance
    /// derives the height again, from the new magnitude and the last known
    /// magnitude of the other of the two.
    pub fn apply_movement(&mut self, ev: Movement)
        ensures
            *final(self) == old(self).updated(ev),
            final(self).kind == old(self).kind,
            old(self).wf() ==> final(self).wf(),
            (ev is Pressure || ev is Distance) ==> final(self).wf(),
    {
        match ev {
            Movement::X(n) => {
                self.point = Point(n, self.point.1);
            },
            Movement::Y(n) => {
                self.point = Point(self.point.0, n);
            },
            Movement::TiltX(n) => {
                self.tilt_x = Some(n);
            },
            Movement::TiltY(n) => {
                self.tilt_y = Some(n);
            },
            Movement::Pressure(n) => {
                self.pressure = n;
                self.height = Height::of(n, self.distance);
            },
            Movement::Distance(n) => {
                self.distance = n;
                self.height = Height::of(self.pressure, n);
            },
        }
    }
}

/// The axes of a tool that has appeared, collected until the frame ends.
/// Each axis is unset until an update for it arrives.
#[derive(Debug, Clone, Copy, PartialEq, Eq, Hash)]
pub struct UnfinishedTool {
    pub kind: ToolKind,
    pub x: Option<u32>,
    pub y: Option<u32>,
    pub tilt_x: Option<u32>,
    pub tilt_y: Option<u32>,
    pub pressure: Option<u32>,
    pub distance: Option<u32>,
}

/// The magnitude of an axis, or 0 where none was reported.
pub open spec fn or_zero(axis: Option<u32>) -> u32 {
    match axis {
        Some(n) => n,
        None => 0,
    }
}

impl UnfinishedTool {
    /// The accumulator of a tool of which nothing but its kind is known.
    pub open spec fn empty(kind: ToolKind) -> UnfinishedTool {
        UnfinishedTool {
            kind,
            x: None,
            y: None,
            tilt_x: None,
            tilt_y: None,
            pressure: None,
            distance: None,
        }
    }

    /// The accumulator after one axis update: that axis holds the new
    /// magnitude, whatever it held before; the others stay.
    pub open spec fn updated(self, mv: Movement) -> UnfinishedTool {
        match mv {
            Movement::X(n) => UnfinishedTool { x: Some(n), ..self },
            Movement::Y(n) => UnfinishedTool { y: Some(n), ..self },
            Movement::TiltX(n) => UnfinishedTool { tilt_x: Some(n), ..self },
            Movement::TiltY(n) => UnfinishedTool { tilt_y: Some(n), ..self },
            Movement::Pressure(n) => UnfinishedTool { pressure: Some(n), ..self },
            Movement::Distance(n) => UnfinishedTool { distance: Some(n), ..self },
        }
    }

    /// Whether both coordinates were reported, so that a snapshot can be made.
    pub open spec fn complete(self) -> bool {
        self.x is Some && self.y is Some
    }

    /// The snapshot that a complete accumulator amounts to: the position
    /// that was reported, the tilt as far as it was, a pressure and a
    /// distance of 0 where none was, and the height that these two give.
    pub open spec fn finished(self) -> Tool
        recommends
            self.complete(),
    {
        Tool {
            kind: self.kind,
            point: Point(self.x->Some_0, self.y->Some_0),
            tilt_x: self.tilt_x,
            tilt_y: self.tilt_y,
            height: Height::spec_of(or_zero(self.pressure), or_zero(self.distance)),
            pressure: or_zero(self.pressure),
            distance: or_zero(self.distance),
        }
    }

    /// Starts to collect the axes of a tool of the given kind.
    pub fn kind(kind: ToolKind) -> (unfinished: UnfinishedTool)
        ensures
            unfinished == Self::empty(kind),
            !unfinished.complete(),
    {
        UnfinishedTool {
            kind,
            x: None,
            y: None,
            tilt_x: None,
            tilt_y: None,
            pressure: None,
            distance: None,
        }
    }

    /// Records one axis update; the last one reported for an axis wins.
    pub fn apply_movement(&mut self, mv: Movement)
        ensures
            *final(self) == old(self).updated(mv),
            final(self).kind == old(self).kind,
            old(self).complete() ==> final(self).complete(),
    {
        match mv {
            Movement::X(n) => {
                self.x = Some(n);
            },
            Movement::Y(n) => {
                self.y = Some(n);
            },
            Movement::TiltX(n) => {
                self.tilt_x = Some(n);
            },
            Movement::TiltY(n) => {
                self.tilt_y = Some(n);
            },
            Movement::Pressure(n) => {
                self.pressure = Some(n);
            },
            Movement::Distance(n) => {
                self.distance = Some(n);
            },
        }
    }

    /// Turns the collected axes into a snapshot. This succeeds exactly when
    /// both coordinates were reported; the accumulator is then emptied, and
    /// only its kind stays. Where a coordinate is missing there is no
    /// snapshot, and the accumulator keeps what it holds.
    pub fn finish(&mut self) -> (tool: Option<Tool>)
        ensures
            tool is Some <==> old(self).complete(),
            tool is Some ==> tool == Some(old(self).finished()) && tool->Some_0.wf(),
            tool is Some ==> *final(self) == Self::empty(old(self).kind),
            tool is None ==> *final(self) == *old(self),
    {
        match (self.x, self.y) {
            (Some(x), Some(y)) => {
                let pressure: u32 = match self.pressure {
                    Some(n) => n,
                    None => 0,
                };
                let distance: u32 = match self.distance {
                    Some(n) => n,
                    None => 0,
                };
                let tool = Tool {
                    kind: self.kind,
                    point: Point(x, y),
                    tilt_x: self.tilt_x,
                    tilt_y: self.tilt_y,
                    height: Height::of(pressure, distance),
                    pressure,
                    distance,
                };
                self.x = None;
                self.y = None;
                self.tilt_x = None;
                self.tilt_y = None;
                self.pressure = None;
                self.distance = None;
                Some(tool)
            },
            _ => None,
        }
    }
}

/// The tool that is tracked: still being put together, or finished.
#[derive(Debug, Clone, Copy, PartialEq, Eq, Hash)]
pub enum ToolBuilder {
    Built(Tool),
    Building(UnfinishedTool),
}

impl ToolBuilder {
    /// The kind of the tool that is tracked.
    pub open spec fn spec_kind(self) -> ToolKind {
        match self {
            ToolBuilder::Built(tool) => tool.kind,
            ToolBuilder::Building(unfinished) => unfinished.kind,
        }
    }

    /// A finished snapshot, if there is one, is coherent.
    pub open spec fn wf(self) -> bool {
        match self {
            ToolBuilder::Built(tool) => tool.wf(),
            ToolBuilder::Building(_) => true,
        }
    }

    /// Starts to track a tool of the given kind, of which no axis is known yet.
    pub fn new(kind: ToolKind) -> (builder: ToolBuilder)
        ensures
            builder == ToolBuilder::Building(UnfinishedTool::empty(kind)),
            builder.spec_kind() == kind,
            builder.wf(),
    {
        ToolBuilder::Building(UnfinishedTool::kind(kind))
    }

    /// The kind of the tool that is tracked.
    pub fn kind(&self) -> (kind: ToolKind)
        ensures
            kind == self.spec_kind(),
    {
        match self {
            ToolBuilder::Built(tool) => tool.kind,
            ToolBuilder::Building(unfinished) => unfinished.kind,
        }
    }
}

/// What the aggregator reports.
#[derive(Debug, Clone, Copy, PartialEq, Eq, Hash)]
pub enum ToolEvent {
    /// A snapshot: of a tool that was just completed, or of one whose axes
    /// were refreshed since.
    Update(Tool),
    /// The tracked tool left the pad.
    Removed(ToolKind),
}

} // verus!
