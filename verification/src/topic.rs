//! The list of topics as a table: name and number of partitions, handed out
//! in one batch.

use vstd::prelude::*;
use vstd::utf8::encode_utf8;
use crate::bind::{Cell, CellModel, ChunkModel, DataChunk, DuckDBTypeEnum, LogicalType, TableFunction};

verus! {

/// One topic of the list.
#[derive(Debug, Clone, PartialEq, Eq)]
pub struct TopicRow {
    pub name: String,
    pub partitions: i32,
}

/// Progress of a listing: whether its one batch was handed out.
#[derive(Debug, Clone, Copy)]
pub struct TopicInitDataStruct {
    pub done: bool,
}

pub fn fluvio_admin_topic_function_def() -> (table_function: TableFunction)
    ensures
        table_function.name@ == "fluvio_topic"@,
        table_function.parameters@.len() == 0,
{
    let mut table_function = TableFunction::new();
    table_function.set_name("fluvio_topic");
    table_function
}

/// The result columns: the name as text and the partitions as an integer.
pub fn internal_bind() -> (columns: Vec<(&'static str, LogicalType)>)
    ensures
        columns@.len() == 2,
        columns@[0].0@ == "name"@ && columns@[0].1.0 == DuckDBTypeEnum::Varchar,
        columns@[1].0@ == "partitions"@ && columns@[1].1.0 == DuckDBTypeEnum::Integer,
{
    let mut columns: Vec<(&'static str, LogicalType)> = Vec::new();
    columns.push(("name", LogicalType::new(DuckDBTypeEnum::Varchar)));
    columns.push(("partitions", LogicalType::new(DuckDBTypeEnum::Integer)));
    columns
}

/// A listing that has handed out nothing.
pub fn topic_init() -> (init_data: TopicInitDataStruct)
    ensures
        !init_data.done,
{
    TopicInitDataStruct { done: false }
}

/// The batch after the first `rows` topics were written, topic `i` into row
/// `i`: the name into column 0, the number of partitions into column 1.
pub open spec fn topic_rows(topics: Seq<TopicRow>, rows: int, before: ChunkModel) -> ChunkModel
    decreases rows,
{
    if rows <= 0 {
        before
    } else {
        topic_rows(topics, rows - 1, before).with_cell(
            0,
            rows - 1,
            CellModel::Bytes(encode_utf8(topics[rows - 1].name@)),
        ).with_cell(1, rows - 1, CellModel::Int32(topics[rows - 1].partitions))
    }
}

/// Hands out the list in one batch; once that is done, every call declares
/// an empty batch.
pub fn internal_read(init_data: &mut TopicInitDataStruct, topics: &Vec<TopicRow>, output: &mut DataChunk)
    requires
        old(output).wf(),
        old(output)@.columns.len() >= 2,
        !old(init_data).done ==> topics@.len() <= old(output).spec_capacity(),
    ensures
        final(output).wf(),
        final(output).spec_capacity() == old(output).spec_capacity(),
        final(init_data).done,
        old(init_data).done ==> final(output)@ == (ChunkModel { columns: old(output)@.columns, size: 0 }),
        !old(init_data).done ==> final(output)@ == (ChunkModel {
            columns: topic_rows(topics@, topics@.len() as int, old(output)@).columns,
            size: topics@.len(),
        }),
{
    if init_data.done {
        output.set_size(0);
        return ;
    }
    let mut row: usize = 0;
    while row < topics.len()
        invariant
            row <= topics@.len(),
            topics@.len() <= output.spec_capacity(),
            output.wf(),
            output.spec_capacity() == old(output).spec_capacity(),
            output@.columns.len() >= 2,
            output@ == topic_rows(topics@, row as int, old(output)@),
        decreases topics@.len() - row,
    {
        let topic = &topics[row];
        // name
        output.assign_string_element(0, row as u64, topic.name.as_str().as_bytes());
        output.set_data(1, row, Cell::Int32(topic.partitions));
        row = row + 1;
    }

    output.set_size(row as u64);
    init_data.done = true;
}

} // verus!
