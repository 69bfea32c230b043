//! The aggregator: it follows one tool at a time through the events of
//! the stream and reports a snapshot at the end of each frame.
//!
//! Only the pen is followed. Events of other kinds of tool are seen and
//! passed over; they are neither queued nor reported.

use vstd::prelude::*;
use crate::event::{Event, ToolKind, UnknownEvent};
use crate::event_source::EventSource;
use crate::raw_event::RawEvent;
use crate::tool::{Tool, ToolBuilder, ToolEvent, UnfinishedTool};

verus! {

/// Why the aggregator has no tool event to report for a record.
#[derive(Debug, Clone, Copy, PartialEq, Eq)]
pub enum ToolError {
    /// The record could not be decoded.
    Unknown(UnknownEvent),
    /// A frame ended before both coordinates of the new tool were reported.
    IncompleteFrame,
}

/// The effect of one event: the state afterwards, and what is reported.
/// `Ok(None)` means that nothing is reported.
pub struct Transition {
    pub state: Option<ToolBuilder>,
    pub output: Result<Option<ToolEvent>, ToolError>,
}

/// The effect of a run over waiting records: the state afterwards, how
/// many records were taken, and what is reported. `None` means that the
/// records ran out before there was anything to report.
pub struct Run {
    pub state: Option<ToolBuilder>,
    pub consumed: nat,
    pub result: Option<Result<ToolEvent, ToolError>>,
}

/// The rules of the aggregator, for one event in one state.
///
/// While no tool is tracked, the appearance of the pen starts a new
/// accumulator and everything else is passed over. While a tool is
/// tracked, an axis update goes into the accumulator or the snapshot; the
/// end of a frame finishes the accumulator, if both coordinates are there,
/// and reports the snapshot; the removal of the tracked kind clears the
/// state and is reported at once; presence changes of other kinds are
/// passed over.
pub open spec fn react(state: Option<ToolBuilder>, ev: Event) -> Transition {
    match state {
        None => if ev == Event::ToolAdded(ToolKind::Pen) {
            Transition {
                state: Some(ToolBuilder::Building(UnfinishedTool::empty(ToolKind::Pen))),
                output: Ok(None),
            }
        } else {
            Transition { state: None, output: Ok(None) }
        },
        Some(builder) => match ev {
            Event::Movement(mv) => Transition {
                state: Some(
                    match builder {
                        ToolBuilder::Building(unfinished) => ToolBuilder::Building(
                            unfinished.updated(mv),
                        ),
                        ToolBuilder::Built(tool) => ToolBuilder::Built(tool.updated(mv)),
                    },
                ),
                output: Ok(None),
            },
            Event::Sync => match builder {
                ToolBuilder::Building(unfinished) => if unfinished.complete() {
                    Transition {
                        state: Some(ToolBuilder::Built(unfinished.finished())),
                        output: Ok(Some(ToolEvent::Update(unfinished.finished()))),
                    }
                } else {
                    Transition { state, output: Err(ToolError::IncompleteFrame) }
                },
                ToolBuilder::Built(tool) => Transition {
                    state,
                    output: Ok(Some(ToolEvent::Update(tool))),
                },
            },
            Event::ToolRemoved(kind) => if kind == builder.spec_kind() {
                Transition { state: None, output: Ok(Some(ToolEvent::Removed(kind))) }
            } else {
                Transition { state, output: Ok(None) }
            },
            Event::ToolAdded(_) => Transition { state, output: Ok(None) },
        },
    }
}

/// The effect of one raw record: that of the event it decodes to, or,
/// where it cannot be decoded, the error, with the state left as it is.
pub open spec fn feed(state: Option<ToolBuilder>, record: RawEvent) -> Transition {
    match Event::decode(record) {
        Ok(ev) => react(state, ev),
        Err(unknown) => Transition { state, output: Err(ToolError::Unknown(unknown)) },
    }
}

/// The effect of taking records, oldest first, until one of them gives
/// something to report (a tool event or an error) or none is left.
pub open spec fn run(state: Option<ToolBuilder>, records: Seq<RawEvent>) -> Run
    decreases records.len(),
{
    if records.len() == 0 {
        Run { state, consumed: 0, result: None }
    } else {
        let first = feed(state, records[0]);
        match first.output {
            Ok(None) => {
                let rest = run(first.state, records.skip(1));
                Run { state: rest.state, consumed: rest.consumed + 1, result: rest.result }
            },
            Ok(Some(tool_event)) => Run {
                state: first.state,
                consumed: 1,
                result: Some(Ok(tool_event)),
            },
            Err(error) => Run { state: first.state, consumed: 1, result: Some(Err(error)) },
        }
    }
}

/// The aggregator: the records that wait, and the tool that is tracked,
/// if any.
#[derive(Debug)]
pub struct ToolEventSource {
    pub event_source: EventSource,
    pub state: Option<ToolBuilder>,
}

impl ToolEventSource {
    /// The queue is in order, and a finished snapshot, if one is tracked,
    /// is coherent.
    pub open spec fn wf(self) -> bool {
        &&& self.event_source.wf()
        &&& self.state matches Some(builder) ==> builder.wf()
    }

    /// An aggregator over the given source, with no tool tracked yet.
    pub fn from(event_source: EventSource) -> (source: ToolEventSource)
        ensures
            source.event_source == event_source,
            source.state is None,
            event_source.wf() ==> source.wf(),
    {
        ToolEventSource { event_source, state: None }
    }

    /// Applies one event to the tracked state and says what is to be
    /// reported for it, as the rules of `react` lay down. The waiting
    /// records are not touched.
    pub fn step(&mut self, ev: Event) -> (output: Result<Option<ToolEvent>, ToolError>)
        ensures
            final(self).state == react(old(self).state, ev).state,
            output == react(old(self).state, ev).output,
            final(self).event_source == old(self).event_source,
            old(self).wf() ==> final(self).wf(),
            !(output matches Err(ToolError::Unknown(_))),
    {
        match self.state {
            None => {
                match ev {
                    Event::ToolAdded(ToolKind::Pen) => {
                        self.state = Some(ToolBuilder::new(ToolKind::Pen));
                        Ok(None)
                    },
                    _ => Ok(None),
                }
            },
            Some(builder) => {
                match ev {
                    Event::Movement(mv) => {
                        match builder {
                            ToolBuilder::Building(unfinished) => {
                                let mut unfinished = unfinished;
                                unfinished.apply_movement(mv);
                                self.state = Some(ToolBuilder::Building(unfinished));
                            },
                            ToolBuilder::Built(tool) => {
                                let mut tool = tool;
                                tool.apply_movement(mv);
                                self.state = Some(ToolBuilder::Built(tool));
                            },
                        }
                        Ok(None)
                    },
                    Event::Sync => {
                        match builder {
                            ToolBuilder::Building(unfinished) => {
                                let mut unfinished = unfinished;
                                match unfinished.finish() {
                                    Some(tool) => {
                                        self.state = Some(ToolBuilder::Built(tool));
                                        Ok(Some(ToolEvent::Update(tool)))
                                    },
                                    None => Err(ToolError::IncompleteFrame),
                                }
                            },
                            ToolBuilder::Built(tool) => Ok(Some(ToolEvent::Update(tool))),
                        }
                    },
                    Event::ToolRemoved(kind) => {
                        if kind == builder.kind() {
                            self.state = None;
                            Ok(Some(ToolEvent::Removed(kind)))
                        } else {
                            Ok(None)
                        }
                    },
                    Event::ToolAdded(_) => Ok(None),
                }
            },
        }
    }

    /// Takes waiting records, oldest first, decodes each and applies it,
    /// until one gives something to report: a tool event, or the error of
    /// a record that could not be decoded or of a frame that ended too
    /// early. The records up to and including that one are gone from the
    /// queue, and what they changed in the state stays, also after an
    /// error. `None` means that the queue ran empty first.
    pub fn next(&mut self) -> (result: Option<Result<ToolEvent, ToolError>>)
        requires
            old(self).event_source.wf(),
        ensures
            final(self).event_source.wf(),
            old(self).wf() ==> final(self).wf(),
            result == run(old(self).state, old(self).event_source.pending()).result,
            final(self).state == run(old(self).state, old(self).event_source.pending()).state,
            run(old(self).state, old(self).event_source.pending()).consumed <= old(
                self,
            ).event_source.pending().len(),
            final(self).event_source.pending() == old(self).event_source.pending().skip(
                run(old(self).state, old(self).event_source.pending()).consumed as int,
            ),
            result is None ==> final(self).event_source.pending().len() == 0,
    {
        let ghost start = *self;
        let ghost all = self.event_source.pending();
        let ghost taken: nat = 0;
        loop
            invariant
                self.event_source.wf(),
                start.wf() ==> self.wf(),
                start == *old(self),
                all == start.event_source.pending(),
                taken <= all.len(),
                self.event_source.pending() == all.skip(taken as int),
                run(start.state, all).state == run(self.state, all.skip(taken as int)).state,
                run(start.state, all).result == run(self.state, all.skip(taken as int)).result,
                run(start.state, all).consumed == run(self.state, all.skip(taken as int)).consumed
                    + taken,
            decreases self.event_source.pending().len(),
        {
            let ghost before = self.event_source.pending();
            let ghost state_before = self.state;
            proof {
                if taken < all.len() {
                    assert(all.skip(taken as int).skip(1) =~= all.skip(taken as int + 1));
                }
            }
            match self.event_source.next() {
                None => {
                    assert(all.skip(taken as int).skip(0) =~= all.skip(taken as int));
                    return None;
                },
                Some(Err(unknown)) => {
                    return Some(Err(ToolError::Unknown(unknown)));
                },
                Some(Ok(ev)) => {
                    match self.step(ev) {
                        Ok(None) => {
                            proof {
                                taken = taken + 1;
                            }
                        },
                        Ok(Some(tool_event)) => {
                            return Some(Ok(tool_event));
                        },
                        Err(error) => {
                            return Some(Err(error));
                        },
                    }
                },
            }
        }
    }
}

} // verus!
