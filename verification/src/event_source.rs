//! The records that have arrived and wait to be decoded, oldest first.

use vstd::prelude::*;
use crate::event::{Event, UnknownEvent};
use crate::raw_event::RawEvent;

verus! {

/// A queue of raw records. Whoever reads the device appends what arrives;
/// the aggregator takes the records out again in the same order, one at a
/// time.
#[derive(Debug)]
pub struct EventSource {
    records: Vec<RawEvent>,
    pos: usize,
}

impl EventSource {
    /// The cursor lies within the stored records.
    pub closed spec fn wf(self) -> bool {
        self.pos <= self.records.len()
    }

    /// The records that were appended and not yet taken, oldest first.
    pub closed spec fn pending(self) -> Seq<RawEvent> {
        self.records@.subrange(self.pos as int, self.records.len() as int)
    }

    /// A source in which nothing waits.
    pub fn new() -> (source: EventSource)
        ensures
            source.wf(),
            source.pending() == Seq::<RawEvent>::empty(),
    {
        EventSource { records: Vec::new(), pos: 0 }
    }

    /// The number of records that wait.
    pub fn len(&self) -> (n: usize)
        requires
            self.wf(),
        ensures
            n == self.pending().len(),
    {
        self.records.len() - self.pos
    }

    /// Appends a record behind those that wait.
    pub fn push(&mut self, record: RawEvent)
        requires
            old(self).wf(),
        ensures
            final(self).wf(),
            final(self).pending() == old(self).pending().push(record),
    {
        if self.pos == self.records.len() {
            self.records = Vec::new();
            self.pos = 0;
        }
        self.records.push(record);
        assert(self.pending() =~= old(self).pending().push(record));
    }

    /// Takes the oldest waiting record out and decodes it. `None` means
    /// that nothing waits; the source is then left as it is.
    pub fn next(&mut self) -> (decoded: Option<Result<Event, UnknownEvent>>)
        requires
            old(self).wf(),
        ensures
            final(self).wf(),
            decoded is None <==> old(self).pending().len() == 0,
            decoded is None ==> final(self).pending() == old(self).pending(),
            decoded is Some ==> decoded == Some(Event::decode(old(self).pending()[0])),
            decoded is Some ==> final(self).pending() == old(self).pending().skip(1),
    {
        if self.pos < self.records.len() {
            let record = self.records[self.pos];
            self.pos = self.pos + 1;
            assert(self.pending() =~= old(self).pending().skip(1));
            Some(Event::try_from(record))
        } else {
            None
        }
    }
}

} // verus!
