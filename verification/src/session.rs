//! What holds of whole runs of the aggregator: the first frame of a tool,
//! the repeated end of a frame, and the removal of the tracked tool.

use vstd::prelude::*;
use crate::event::{Event, Movement, ToolKind, UnknownEvent};
use crate::raw_event::RawEvent;
use crate::tool::{Height, Point, Tool, ToolBuilder, ToolEvent, UnfinishedTool};
use crate::tool_event_source::{feed, react, run, Run, ToolError, Transition};

verus! {

/// The horizontal position that a record reports, if it reports one.
pub open spec fn x_of(record: RawEvent) -> Option<u32> {
    match Event::decode(record) {
        Ok(Event::Movement(Movement::X(n))) => Some(n),
        _ => None,
    }
}

/// The vertical position that a record reports, if it reports one.
pub open spec fn y_of(record: RawEvent) -> Option<u32> {
    match Event::decode(record) {
        Ok(Event::Movement(Movement::Y(n))) => Some(n),
        _ => None,
    }
}

/// The last value that is present in a sequence of optional values.
pub open spec fn last_some(values: Seq<Option<u32>>) -> Option<u32>
    decreases values.len(),
{
    if values.len() == 0 {
        None
    } else {
        match last_some(values.skip(1)) {
            Some(n) => Some(n),
            None => values[0],
        }
    }
}

/// The horizontal position that was reported last among the records.
pub open spec fn last_x(records: Seq<RawEvent>) -> Option<u32> {
    last_some(records.map_values(|record: RawEvent| x_of(record)))
}

/// The vertical position that was reported last among the records.
pub open spec fn last_y(records: Seq<RawEvent>) -> Option<u32> {
    last_some(records.map_values(|record: RawEvent| y_of(record)))
}

/// A record that changes at most the axes of a tool of the given kind
/// while it is tracked: an axis update, or a presence change that is
/// passed over.
pub open spec fn within_frame(kind: ToolKind, record: RawEvent) -> bool {
    match Event::decode(record) {
        Ok(Event::Movement(_)) => true,
        Ok(Event::ToolAdded(_)) => true,
        Ok(Event::ToolRemoved(removed)) => removed != kind,
        _ => false,
    }
}

/// The accumulator after it has taken in the axis updates among the
/// records, oldest first.
pub open spec fn absorbed(unfinished: UnfinishedTool, records: Seq<RawEvent>) -> UnfinishedTool
    decreases records.len(),
{
    if records.len() == 0 {
        unfinished
    } else {
        let next = match Event::decode(records[0]) {
            Ok(Event::Movement(mv)) => unfinished.updated(mv),
            _ => unfinished,
        };
        absorbed(next, records.skip(1))
    }
}

/// `last_some` gives the value at the greatest position that holds one,
/// and nothing exactly where no position holds one.
pub proof fn last_some_is_last(values: Seq<Option<u32>>)
    ensures
        match last_some(values) {
            Some(n) => exists|i: int|
                0 <= i < values.len() && values[i] == Some(n) && forall|k: int|
                    i < k < values.len() ==> values[k] is None,
            None => forall|k: int| 0 <= k < values.len() ==> values[k] is None,
        },
    decreases values.len(),
{
    if values.len() > 0 {
        let rest = values.skip(1);
        last_some_is_last(rest);
        match last_some(rest) {
            Some(n) => {
                let i = choose|i: int|
                    0 <= i < rest.len() && rest[i] == Some(n) && forall|k: int|
                        i < k < rest.len() ==> rest[k] is None;
                assert(values[i + 1] == Some(n));
                assert forall|k: int| i + 1 < k < values.len() implies values[k] is None by {
                    assert(rest[k - 1] is None);
                }
            },
            None => {
                assert forall|k: int| 1 <= k < values.len() implies values[k] is None by {
                    assert(rest[k - 1] is None);
                }
                match values[0] {
                    Some(n) => {
                        assert(values[0] == Some(n));
                    },
                    None => {},
                }
            },
        }
    }
}

/// The coordinates that the accumulator holds after it has taken records
/// in are those reported last among them, or, for a coordinate that none
/// of them reports, what it held before. Its kind stays.
pub proof fn absorbed_keeps_last(unfinished: UnfinishedTool, records: Seq<RawEvent>)
    ensures
        absorbed(unfinished, records).kind == unfinished.kind,
        absorbed(unfinished, records).x == match last_x(records) {
            Some(n) => Some(n),
            None => unfinished.x,
        },
        absorbed(unfinished, records).y == match last_y(records) {
            Some(n) => Some(n),
            None => unfinished.y,
        },
    decreases records.len(),
{
    if records.len() > 0 {
        let next = match Event::decode(records[0]) {
            Ok(Event::Movement(mv)) => unfinished.updated(mv),
            _ => unfinished,
        };
        absorbed_keeps_last(next, records.skip(1));
        assert(records.map_values(|record: RawEvent| x_of(record)).skip(1) =~= records.skip(
            1,
        ).map_values(|record: RawEvent| x_of(record)));
        assert(records.map_values(|record: RawEvent| y_of(record)).skip(1) =~= records.skip(
            1,
        ).map_values(|record: RawEvent| y_of(record)));
    }
}

/// A frame of a tool that is being put together: records that stay
/// within the frame, and then its end. The run takes all of them. Where
/// both coordinates are known by then, it reports one snapshot, made of
/// what the accumulator has taken in, and that snapshot is tracked from
/// then on; otherwise it reports the frame as incomplete and keeps the
/// accumulator.
pub proof fn building_frame(unfinished: UnfinishedTool, records: Seq<RawEvent>)
    requires
        records.len() >= 1,
        Event::decode(records.last()) == Ok::<Event, UnknownEvent>(Event::Sync),
        forall|k: int| 0 <= k < records.len() - 1 ==> within_frame(unfinished.kind, records[k]),
    ensures
        run(Some(ToolBuilder::Building(unfinished)), records).consumed == records.len(),
        absorbed(unfinished, records.drop_last()).complete() ==> run(
            Some(ToolBuilder::Building(unfinished)),
            records,
        ) == (Run {
            state: Some(
                ToolBuilder::Built(absorbed(unfinished, records.drop_last()).finished()),
            ),
            consumed: records.len(),
            result: Some(
                Ok(ToolEvent::Update(absorbed(unfinished, records.drop_last()).finished())),
            ),
        }),
        !absorbed(unfinished, records.drop_last()).complete() ==> run(
            Some(ToolBuilder::Building(unfinished)),
            records,
        ) == (Run {
            state: Some(ToolBuilder::Building(absorbed(unfinished, records.drop_last()))),
            consumed: records.len(),
            result: Some(Err(ToolError::IncompleteFrame)),
        }),
    decreases records.len(),
{
    let state = Some(ToolBuilder::Building(unfinished));
    if records.len() == 1 {
        assert(records.drop_last() =~= Seq::<RawEvent>::empty());
        assert(records[0] == records.last());
        assert(feed(state, records[0]) == react(state, Event::Sync));
    } else {
        assert(within_frame(unfinished.kind, records[0]));
        let next = match Event::decode(records[0]) {
            Ok(Event::Movement(mv)) => unfinished.updated(mv),
            _ => unfinished,
        };
        let rest = records.skip(1);
        assert(feed(state, records[0]) == (Transition {
            state: Some(ToolBuilder::Building(next)),
            output: Ok(None),
        }));
        assert(next.kind == unfinished.kind);
        assert(rest.last() == records.last());
        assert forall|k: int| 0 <= k < rest.len() - 1 implies within_frame(
            next.kind,
            rest[k],
        ) by {
            assert(rest[k] == records[k + 1]);
        }
        building_frame(next, rest);
        assert(rest.drop_last() =~= records.drop_last().skip(1));
        assert(records.drop_last()[0] == records[0]);
    }
}

/// The first frame of the pen. From the idle state, records that begin
/// with the pen's appearance, stay within the frame, report each
/// coordinate at least once and end with the end of the frame give
/// exactly one report for all of them: a snapshot of the pen whose
/// position is the pair of coordinates that were reported last. That
/// snapshot is tracked from then on.
pub proof fn first_frame(records: Seq<RawEvent>, i: int, j: int)
    requires
        Event::decode(records[0]) == Ok::<Event, UnknownEvent>(
            Event::ToolAdded(ToolKind::Pen),
        ),
        Event::decode(records.last()) == Ok::<Event, UnknownEvent>(Event::Sync),
        forall|k: int| 0 < k < records.len() - 1 ==> within_frame(ToolKind::Pen, records[k]),
        0 < i < records.len() - 1,
        0 < j < records.len() - 1,
        x_of(records[i]) is Some,
        y_of(records[j]) is Some,
    ensures
        last_x(records.subrange(1, records.len() - 1)) is Some,
        last_y(records.subrange(1, records.len() - 1)) is Some,
        run(None, records).consumed == records.len(),
        run(None, records).result matches Some(Ok(ToolEvent::Update(tool))) && tool.kind
            == ToolKind::Pen && tool.point == Point(
            last_x(records.subrange(1, records.len() - 1))->Some_0,
            last_y(records.subrange(1, records.len() - 1))->Some_0,
        ) && tool.wf() && run(None, records).state == Some(ToolBuilder::Built(tool)),
{
    let fresh = UnfinishedTool::empty(ToolKind::Pen);
    let rest = records.skip(1);
    let middle = records.subrange(1, records.len() - 1);
    assert(feed(None, records[0]) == (Transition {
        state: Some(ToolBuilder::Building(fresh)),
        output: Ok(None),
    }));
    assert(rest.last() == records.last());
    assert forall|k: int| 0 <= k < rest.len() - 1 implies within_frame(fresh.kind, rest[k]) by {
        assert(rest[k] == records[k + 1]);
    }
    building_frame(fresh, rest);
    assert(rest.drop_last() =~= middle);
    absorbed_keeps_last(fresh, middle);
    let xs = middle.map_values(|record: RawEvent| x_of(record));
    let ys = middle.map_values(|record: RawEvent| y_of(record));
    last_some_is_last(xs);
    last_some_is_last(ys);
    assert(xs[i - 1] == x_of(records[i]));
    assert(ys[j - 1] == y_of(records[j]));
}

/// The end of a frame, while a finished snapshot is tracked, reports that
/// snapshot and changes nothing: two ends of a frame in a row, with no
/// axis update between them, each report the same snapshot.
pub proof fn sync_repeats(tool: Tool, first: RawEvent, second: RawEvent)
    requires
        Event::decode(first) == Ok::<Event, UnknownEvent>(Event::Sync),
        Event::decode(second) == Ok::<Event, UnknownEvent>(Event::Sync),
    ensures
        react(Some(ToolBuilder::Built(tool)), Event::Sync) == (Transition {
            state: Some(ToolBuilder::Built(tool)),
            output: Ok(Some(ToolEvent::Update(tool))),
        }),
        run(Some(ToolBuilder::Built(tool)), seq![first, second]) == (Run {
            state: Some(ToolBuilder::Built(tool)),
            consumed: 1,
            result: Some(Ok(ToolEvent::Update(tool))),
        }),
        run(Some(ToolBuilder::Built(tool)), seq![first, second].skip(1)) == (Run {
            state: Some(ToolBuilder::Built(tool)),
            consumed: 1,
            result: Some(Ok(ToolEvent::Update(tool))),
        }),
{
    let state = Some(ToolBuilder::Built(tool));
    let both = seq![first, second];
    assert(feed(state, both[0]) == react(state, Event::Sync));
    assert(both.skip(1)[0] == second);
    assert(feed(state, both.skip(1)[0]) == react(state, Event::Sync));
}

/// The removal of the tracked kind is reported at once, whether or not a
/// frame has ended since the tool appeared, and leaves no tool tracked.
/// Nothing of the old session is left: when the pen then appears again,
/// reports its two coordinates and the frame ends, the snapshot holds
/// those coordinates and nothing else, no tilt, no pressure and no
/// distance.
pub proof fn removal_resets(
    builder: ToolBuilder,
    removed: RawEvent,
    added: RawEvent,
    x: RawEvent,
    y: RawEvent,
    sync: RawEvent,
)
    requires
        Event::decode(removed) == Ok::<Event, UnknownEvent>(
            Event::ToolRemoved(builder.spec_kind()),
        ),
        Event::decode(added) == Ok::<Event, UnknownEvent>(Event::ToolAdded(ToolKind::Pen)),
        x_of(x) is Some,
        y_of(y) is Some,
        Event::decode(sync) == Ok::<Event, UnknownEvent>(Event::Sync),
    ensures
        react(Some(builder), Event::ToolRemoved(builder.spec_kind())) == (Transition {
            state: None,
            output: Ok(Some(ToolEvent::Removed(builder.spec_kind()))),
        }),
        run(Some(builder), seq![removed, added, x, y, sync]) == (Run {
            state: None,
            consumed: 1,
            result: Some(Ok(ToolEvent::Removed(builder.spec_kind()))),
        }),
        run(None, seq![added, x, y, sync]).consumed == 4,
        run(None, seq![added, x, y, sync]).result == Some(
            Ok::<ToolEvent, ToolError>(
                ToolEvent::Update(
                    Tool {
                        kind: ToolKind::Pen,
                        point: Point(x_of(x)->Some_0, y_of(y)->Some_0),
                        tilt_x: None,
                        tilt_y: None,
                        height: Height::Distance(0),
                        pressure: 0,
                        distance: 0,
                    },
                ),
            ),
        ),
{
    let all = seq![removed, added, x, y, sync];
    assert(feed(Some(builder), all[0]) == react(
        Some(builder),
        Event::ToolRemoved(builder.spec_kind()),
    ));
    let again = seq![added, x, y, sync];
    let fresh = UnfinishedTool::empty(ToolKind::Pen);
    let with_x = fresh.updated(Movement::X(x_of(x)->Some_0));
    let with_y = with_x.updated(Movement::Y(y_of(y)->Some_0));
    assert(feed(None, again[0]).state == Some(ToolBuilder::Building(fresh)));
    let r1 = again.skip(1);
    assert(r1[0] == x);
    assert(feed(Some(ToolBuilder::Building(fresh)), r1[0]).state == Some(
        ToolBuilder::Building(with_x),
    ));
    let r2 = r1.skip(1);
    assert(r2[0] == y);
    assert(feed(Some(ToolBuilder::Building(with_x)), r2[0]).state == Some(
        ToolBuilder::Building(with_y),
    ));
    let r3 = r2.skip(1);
    assert(r3[0] == sync);
    assert(feed(Some(ToolBuilder::Building(with_y)), r3[0]) == react(
        Some(ToolBuilder::Building(with_y)),
        Event::Sync,
    ));
    assert(run(Some(ToolBuilder::Building(with_y)), r3).consumed == 1);
    assert(run(Some(ToolBuilder::Building(with_x)), r2).consumed == 2);
    assert(run(Some(ToolBuilder::Building(fresh)), r1).consumed == 3);
}

} // verus!
