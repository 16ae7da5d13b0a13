//! The list of partitions as a table: topic, partition and log end offset,
//! handed out in one batch.

use vstd::prelude::*;
use vstd::utf8::encode_utf8;
use crate::bind::{Cell, CellModel, ChunkModel, DataChunk, DuckDBTypeEnum, LogicalType, TableFunction};
use crate::text::owned;
use crate::topic::TopicInitDataStruct;

verus! {

/// One partition of the list: its name, `topic-partition`, and the log end
/// offset of its leader.
#[derive(Debug, Clone, PartialEq, Eq)]
pub struct PartitionRow {
    pub name: String,
    pub leo: i64,
}

pub fn fluvio_admin_partition_function_def() -> (table_function: TableFunction)
    ensures
        table_function.name@ == "fluvio_partition"@,
        table_function.parameters@.len() == 0,
{
    let mut table_function = TableFunction::new();
    table_function.set_name("fluvio_partition");
    table_function
}

/// The result columns: topic and partition as text, the log end offset as
/// an unsigned integer.
pub fn internal_bind() -> (columns: Vec<(&'static str, LogicalType)>)
    ensures
        columns@.len() == 3,
        columns@[0].0@ == "topic"@ && columns@[0].1.0 == DuckDBTypeEnum::Varchar,
        columns@[1].0@ == "partition"@ && columns@[1].1.0 == DuckDBTypeEnum::Varchar,
        columns@[2].0@ == "LEO"@ && columns@[2].1.0 == DuckDBTypeEnum::Uinteger,
{
    let mut columns: Vec<(&'static str, LogicalType)> = Vec::new();
    columns.push(("topic", LogicalType::new(DuckDBTypeEnum::Varchar)));
    columns.push(("partition", LogicalType::new(DuckDBTypeEnum::Varchar)));
    columns.push(("LEO", LogicalType::new(DuckDBTypeEnum::Uinteger)));
    columns
}

/// A listing that has handed out nothing.
pub fn partition_init() -> (init_data: TopicInitDataStruct)
    ensures
        !init_data.done,
{
    TopicInitDataStruct { done: false }
}

/// Topic and partition, as text, of the partition named `name`; the
/// parser's message where the name is no `topic-partition`.
pub uninterp spec fn replica_key(name: Seq<char>) -> Result<(Seq<char>, Seq<char>), Seq<char>>;

/// The characters of what a name was parsed as.
pub open spec fn parsed_model(parsed: Result<(String, String), String>) -> Result<
    (Seq<char>, Seq<char>),
    Seq<char>,
> {
    match parsed {
        Ok((topic, partition)) => Ok((topic@, partition@)),
        Err(message) => Err(message@),
    }
}

/// Parses `name` as a `ReplicaKey` of `fluvio` and splits the key.
///
/// Trusted: topic and partition, or the message, depend on the name only.
/// The partition is handed out as the decimal text of its number.
#[verifier::external_body]
fn split_replica_key(name: &str) -> (parts: Result<(String, String), String>)
    ensures
        parsed_model(parts) == replica_key(name@),
{
    match fluvio::metadata::partition::ReplicaKey::try_from(name.to_owned()) {
        Ok(key) => {
            let (topic, partition) = key.split();
            Ok((topic, partition.to_string()))
        },
        Err(err) => Err(err.to_string()),
    }
}

/// What is shown as topic and as partition, given what the name parses as:
/// the two parts, or the message and `-1`.
pub open spec fn shown(parsed: Result<(Seq<char>, Seq<char>), Seq<char>>) -> (Seq<char>, Seq<char>) {
    match parsed {
        Ok((topic, partition)) => (topic, partition),
        Err(message) => (message, "-1"@),
    }
}

/// Computes [`shown`].
pub fn topic_and_partition(parsed: Result<(String, String), String>) -> (parts: (String, String))
    ensures
        (parts.0@, parts.1@) == shown(parsed_model(parsed)),
{
    match parsed {
        Ok((topic, partition)) => (topic, partition),
        Err(err) => (err, owned("-1")),
    }
}

/// The batch after the first `rows` partitions were written, partition `i`
/// into row `i`: topic, partition, and the low 32 bits of the log end
/// offset.
pub open spec fn partition_rows(partitions: Seq<PartitionRow>, rows: int, before: ChunkModel) -> ChunkModel
    decreases rows,
{
    if rows <= 0 {
        before
    } else {
        let parts = shown(replica_key(partitions[rows - 1].name@));
        partition_rows(partitions, rows - 1, before).with_cell(
            0,
            rows - 1,
            CellModel::Bytes(encode_utf8(parts.0)),
        ).with_cell(1, rows - 1, CellModel::Bytes(encode_utf8(parts.1))).with_cell(
            2,
            rows - 1,
            CellModel::UInt32(partitions[rows - 1].leo as u32),
        )
    }
}

/// Hands out the list in one batch; once that is done, every call declares
/// an empty batch.
pub fn internal_read(
    init_data: &mut TopicInitDataStruct,
    partitions: &Vec<PartitionRow>,
    output: &mut DataChunk,
)
    requires
        old(output).wf(),
        old(output)@.columns.len() >= 3,
        !old(init_data).done ==> partitions@.len() <= old(output).spec_capacity(),
    ensures
        final(output).wf(),
        final(output).spec_capacity() == old(output).spec_capacity(),
        final(init_data).done,
        old(init_data).done ==> final(output)@ == (ChunkModel { columns: old(output)@.columns, size: 0 }),
        !old(init_data).done ==> final(output)@ == (ChunkModel {
            columns: partition_rows(partitions@, partitions@.len() as int, old(output)@).columns,
            size: partitions@.len(),
        }),
{
    if init_data.done {
        output.set_size(0);
        return ;
    }
    let mut row: usize = 0;
    while row < partitions.len()
        invariant
            row <= partitions@.len(),
            partitions@.len() <= output.spec_capacity(),
            output.wf(),
            output.spec_capacity() == old(output).spec_capacity(),
            output@.columns.len() >= 3,
            output@ == partition_rows(partitions@, row as int, old(output)@),
        decreases partitions@.len() - row,
    {
        let partition = &partitions[row];
        // name
        let (topic, partition_key) = topic_and_partition(split_replica_key(partition.name.as_str()));

        output.assign_string_element(0, row as u64, topic.as_str().as_bytes());
        output.assign_string_element(1, row as u64, partition_key.as_str().as_bytes());
        output.set_data(2, row, Cell::UInt32(#[verifier::truncate] (partition.leo as u32)));

        row = row + 1;
    }

    output.set_size(row as u64);
    init_data.done = true;
}

} // verus!
