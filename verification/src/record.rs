//! One entry of the log.

use vstd::prelude::*;

verus! {

/// One record of a partition: its offset, its timestamp in milliseconds
/// since the Unix epoch, and its payload.
#[derive(Debug, Clone, PartialEq, Eq)]
pub struct Record {
    pub offset: u64,
    pub timestamp: i64,
    pub value: Vec<u8>,
}

impl Record {
    pub fn new(offset: u64, timestamp: i64, value: Vec<u8>) -> (record: Record)
        ensures
            record.offset == offset,
            record.timestamp == timestamp,
            record.value == value,
    {
        Record { offset, timestamp, value }
    }

    pub fn offset(&self) -> (offset: u64)
        ensures
            offset == self.offset,
    {
        self.offset
    }

    pub fn timestamp(&self) -> (timestamp: i64)
        ensures
            timestamp == self.timestamp,
    {
        self.timestamp
    }

    pub fn value(&self) -> (value: &[u8])
        ensures
            value@ == self.value@,
    {
        self.value.as_slice()
    }
}

/// A stream held in memory: the records read so far lie before `position`,
/// behind the last record the stream ends.
#[derive(Debug, Clone, PartialEq, Eq)]
pub struct RecordStream {
    pub records: Vec<Record>,
    pub position: usize,
}

impl RecordStream {
    /// The position lies within the records.
    pub open spec fn wf(&self) -> bool {
        self.position <= self.records@.len()
    }

    /// The records still to come.
    pub open spec fn remaining(&self) -> Seq<Record> {
        self.records@.skip(self.position as int)
    }

    /// A stream that yields `records` and then ends.
    pub fn new(records: Vec<Record>) -> (stream: RecordStream)
        ensures
            stream.wf(),
            stream.records == records,
            stream.position == 0,
            stream.remaining() == records@,
    {
        let stream = RecordStream { records, position: 0 };
        assert(stream.records@.skip(0) =~= stream.records@);
        stream
    }
}

} // verus!
