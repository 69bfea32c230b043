use remlabs::event::{Event, Movement, ToolKind, UnknownEvent};
use remlabs::raw_event::RawEvent;

fn raw(typ: u16, code: u16, value: u32) -> RawEvent {
    RawEvent::new(typ, code, value)
}

#[test]
fn raw_event_new_keeps_fields() {
    let record = raw(3, 24, 800);
    assert_eq!(record.typ, 3);
    assert_eq!(record.code, 24);
    assert_eq!(record.value, 800);
    assert_eq!(record, RawEvent { typ: 3, code: 24, value: 800 });
}

#[test]
fn from_code_knows_the_five_kinds() {
    assert_eq!(ToolKind::from_code(320), Some(ToolKind::Pen));
    assert_eq!(ToolKind::from_code(321), Some(ToolKind::Rubber));
    assert_eq!(ToolKind::from_code(330), Some(ToolKind::Touch));
    assert_eq!(ToolKind::from_code(331), Some(ToolKind::Stylus));
    assert_eq!(ToolKind::from_code(332), Some(ToolKind::Stylus2));
}

#[test]
fn from_code_rejects_other_codes() {
    assert_eq!(ToolKind::from_code(0), None);
    assert_eq!(ToolKind::from_code(319), None);
    assert_eq!(ToolKind::from_code(322), None);
    assert_eq!(ToolKind::from_code(329), None);
    assert_eq!(ToolKind::from_code(333), None);
    assert_eq!(ToolKind::from_code(u16::MAX), None);
}

#[test]
fn code_and_from_code_round_trip() {
    let kinds = [
        ToolKind::Pen,
        ToolKind::Rubber,
        ToolKind::Touch,
        ToolKind::Stylus,
        ToolKind::Stylus2,
    ];
    for kind in kinds {
        assert_eq!(ToolKind::from_code(kind.code()), Some(kind));
    }
    assert_eq!(ToolKind::Pen.code(), 320);
    assert_eq!(ToolKind::Stylus2.code(), 332);
}

#[test]
fn from_code_agrees_with_code_on_every_code() {
    let mut known: u32 = 0;
    for code in 0..=u16::MAX {
        match ToolKind::from_code(code) {
            Some(kind) => {
                assert_eq!(kind.code(), code);
                known += 1;
            }
            None => {}
        }
    }
    assert_eq!(known, 5);
}

#[test]
fn sync_whatever_code_and_value() {
    assert_eq!(Event::try_from(raw(0, 0, 0)), Ok(Event::Sync));
    assert_eq!(Event::try_from(raw(0, 320, 1)), Ok(Event::Sync));
    assert_eq!(Event::try_from(raw(0, u16::MAX, u32::MAX)), Ok(Event::Sync));
}

#[test]
fn tool_added_per_code() {
    assert_eq!(Event::try_from(raw(1, 320, 1)), Ok(Event::ToolAdded(ToolKind::Pen)));
    assert_eq!(Event::try_from(raw(1, 321, 1)), Ok(Event::ToolAdded(ToolKind::Rubber)));
    assert_eq!(Event::try_from(raw(1, 330, 1)), Ok(Event::ToolAdded(ToolKind::Touch)));
    assert_eq!(Event::try_from(raw(1, 331, 1)), Ok(Event::ToolAdded(ToolKind::Stylus)));
    assert_eq!(Event::try_from(raw(1, 332, 1)), Ok(Event::ToolAdded(ToolKind::Stylus2)));
}

#[test]
fn tool_removed_per_code() {
    assert_eq!(Event::try_from(raw(1, 320, 0)), Ok(Event::ToolRemoved(ToolKind::Pen)));
    assert_eq!(Event::try_from(raw(1, 321, 0)), Ok(Event::ToolRemoved(ToolKind::Rubber)));
    assert_eq!(Event::try_from(raw(1, 330, 0)), Ok(Event::ToolRemoved(ToolKind::Touch)));
    assert_eq!(Event::try_from(raw(1, 331, 0)), Ok(Event::ToolRemoved(ToolKind::Stylus)));
    assert_eq!(Event::try_from(raw(1, 332, 0)), Ok(Event::ToolRemoved(ToolKind::Stylus2)));
}

#[test]
fn unknown_tool_code() {
    assert_eq!(Event::try_from(raw(1, 322, 1)), Err(UnknownEvent::ToolCode(322)));
    assert_eq!(Event::try_from(raw(1, 0, 0)), Err(UnknownEvent::ToolCode(0)));
}

#[test]
fn unknown_tool_code_comes_before_the_value() {
    assert_eq!(Event::try_from(raw(1, 500, 7)), Err(UnknownEvent::ToolCode(500)));
}

#[test]
fn unexpected_tool_value() {
    assert_eq!(Event::try_from(raw(1, 320, 2)), Err(UnknownEvent::ToolValue(2)));
    assert_eq!(
        Event::try_from(raw(1, 332, u32::MAX)),
        Err(UnknownEvent::ToolValue(u32::MAX))
    );
}

#[test]
fn movement_per_code() {
    assert_eq!(Event::try_from(raw(3, 0, 100)), Ok(Event::Movement(Movement::X(100))));
    assert_eq!(Event::try_from(raw(3, 1, 200)), Ok(Event::Movement(Movement::Y(200))));
    assert_eq!(
        Event::try_from(raw(3, 24, 800)),
        Ok(Event::Movement(Movement::Pressure(800)))
    );
    assert_eq!(
        Event::try_from(raw(3, 25, 5)),
        Ok(Event::Movement(Movement::Distance(5)))
    );
    assert_eq!(Event::try_from(raw(3, 26, 7)), Ok(Event::Movement(Movement::TiltX(7))));
    assert_eq!(Event::try_from(raw(3, 27, 9)), Ok(Event::Movement(Movement::TiltY(9))));
}

#[test]
fn movement_keeps_the_value_verbatim() {
    assert_eq!(
        Event::try_from(raw(3, 0, u32::MAX)),
        Ok(Event::Movement(Movement::X(u32::MAX)))
    );
    assert_eq!(Event::try_from(raw(3, 27, 0)), Ok(Event::Movement(Movement::TiltY(0))));
}

#[test]
fn unknown_movement_code() {
    assert_eq!(Event::try_from(raw(3, 2, 1)), Err(UnknownEvent::MovementCode(2)));
    assert_eq!(Event::try_from(raw(3, 23, 1)), Err(UnknownEvent::MovementCode(23)));
    assert_eq!(Event::try_from(raw(3, 28, 1)), Err(UnknownEvent::MovementCode(28)));
    assert_eq!(Event::try_from(raw(3, 0x35, 1)), Err(UnknownEvent::MovementCode(0x35)));
}

#[test]
fn unknown_type_keeps_the_record() {
    let record = raw(2, 320, 1);
    assert_eq!(Event::try_from(record), Err(UnknownEvent::Type(record)));
    let record = raw(4, 4, 77);
    assert_eq!(Event::try_from(record), Err(UnknownEvent::Type(record)));
    let record = raw(u16::MAX, 0, 0);
    assert_eq!(Event::try_from(record), Err(UnknownEvent::Type(record)));
}

#[test]
fn decoding_twice_gives_the_same() {
    let records = [
        raw(0, 3, 4),
        raw(1, 320, 1),
        raw(1, 320, 0),
        raw(1, 1, 1),
        raw(1, 321, 9),
        raw(3, 24, 1234),
        raw(3, 99, 1),
        raw(17, 0, 0),
    ];
    for record in records {
        assert_eq!(Event::try_from(record), Event::try_from(record));
    }
}

#[test]
fn every_type_and_code_decodes_to_a_documented_outcome() {
    for typ in 0..6u16 {
        for code in 0..400u16 {
            for value in [0u32, 1, 2] {
                let record = raw(typ, code, value);
                match Event::try_from(record) {
                    Ok(Event::Sync) => assert_eq!(typ, 0),
                    Ok(Event::ToolAdded(kind)) => {
                        assert_eq!((typ, code, value), (1, kind.code(), 1));
                    }
                    Ok(Event::ToolRemoved(kind)) => {
                        assert_eq!((typ, code, value), (1, kind.code(), 0));
                    }
                    Ok(Event::Movement(_)) => {
                        assert_eq!(typ, 3);
                        assert!(matches!(code, 0 | 1 | 24 | 25 | 26 | 27));
                    }
                    Err(UnknownEvent::ToolCode(c)) => {
                        assert_eq!((typ, c), (1, code));
                        assert_eq!(ToolKind::from_code(code), None);
                    }
                    Err(UnknownEvent::ToolValue(v)) => {
                        assert_eq!((typ, v), (1, 2));
                        assert!(ToolKind::from_code(code).is_some());
                    }
                    Err(UnknownEvent::MovementCode(c)) => {
                        assert_eq!((typ, c), (3, code));
                        assert!(!matches!(code, 0 | 1 | 24 | 25 | 26 | 27));
                    }
                    Err(UnknownEvent::Type(r)) => {
                        assert_eq!(r, record);
                        assert!(typ != 0 && typ != 1 && typ != 3);
                    }
                }
            }
        }
    }
}
