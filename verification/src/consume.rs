//! The scan: bind, init and produce.
//!
//! Bind resolves the options into a [`ScanSession`]; init makes a fresh
//! [`BatchCursor`]; each produce call fills one batch. Pulling the next
//! record may block and is the caller's work: within a produce call
//! [`ScanSession::step`] tells the caller when to pull and takes what came.
//! [`ScanSession::internal_read`] runs a whole produce call on a stream
//! that is held in memory.
//!
//! A column is open where it is filled through a JSON path that is not
//! steady. The contracts here state the cells of every other column
//! exactly, and of an open column that it is still there.

use vstd::prelude::*;
use crate::bind::{ChunkModel, DataChunk, DuckDBTypeEnum, LogicalType, TableFunction};
use crate::error::{ConfigError, MapError};
use crate::mapping::{is_open, map_failure, mapped, same_but_column, ColumnMapping};
use crate::opt::{
    expected_schema, first_refused, path_error, resolved_config, schema, start_offset, texts,
    transformation_steps, ConfigModel, ConsumeOpt, ConsumerConfig, Offset,
};
use crate::record::{Record, RecordStream};

verus! {

pub fn fluvio_consumer_table_function_def() -> (table_function: TableFunction)
    ensures
        table_function.name@ == "fluvio_consume"@,
        table_function.parameters@.len() == 1,
        table_function.parameters@[0].0 == DuckDBTypeEnum::Varchar,
{
    let mut table_function = TableFunction::new();
    table_function.set_name("fluvio_consume");

    // first parameter is the scan configuration
    table_function.add_parameter(&LogicalType::new(DuckDBTypeEnum::Varchar));
    table_function
}

/// What bind leaves for the scan: the row budget and the columns.
#[derive(Debug, Clone)]
pub struct ScanSession {
    pub max_row_count: u64,
    pub columns: Vec<ColumnMapping>,
}

/// Progress of one physical scan.
#[derive(Debug, Clone, Copy)]
pub struct BatchCursor {
    /// Rows accounted for so far; the row budget once the scan is over.
    pub total_row: u64,
}

/// Where a scan stands between two produce calls.
#[derive(Debug, Clone, Copy, PartialEq, Eq, Structural)]
pub enum ScanState {
    /// Init is done and no row was produced.
    Initialized,
    /// Rows were produced and more may come.
    Producing,
    /// The budget is used up or the stream has ended: every further produce
    /// call declares an empty batch.
    Exhausted,
}

/// Progress within one produce call: the next row to fill and the rows
/// accounted for.
#[derive(Debug, Clone, Copy)]
pub struct ReadState {
    pub row: usize,
    pub accum_total: u64,
}

impl ReadState {
    /// The state before a produce call has begun.
    pub fn new() -> (state: ReadState)
        ensures
            state.row == 0,
            state.accum_total == 0,
    {
        ReadState { row: 0, accum_total: 0 }
    }
}

/// What happened since the last step of a produce call.
pub enum ReadEvent<'a> {
    /// The produce call begins.
    Start,
    /// The pull returned a record.
    Arrived(&'a Record),
    /// The pull found the stream at its end.
    Ended,
    /// The pull failed.
    Failed,
}

/// What the caller does next.
#[derive(Debug, Clone, Copy, PartialEq, Eq, Structural)]
pub enum ReadAction {
    /// Pull one record and step again with what came.
    Pull,
    /// The batch is declared; the produce call is over.
    Done,
    /// The produce call is given up with the stream's error: no batch is
    /// declared and the cursor stays where it was.
    Abort,
}

/// The batch after the first `upto` columns of row `row` were mapped from
/// `record`, with every open column left as it was.
pub open spec fn fill_cells(
    columns: Seq<ColumnMapping>,
    record: Record,
    row: int,
    upto: int,
    before: ChunkModel,
) -> ChunkModel
    decreases upto,
{
    if upto <= 0 {
        before
    } else {
        mapped(
            columns[upto - 1].mapping,
            record,
            upto - 1,
            row,
            columns[upto - 1].ty,
            fill_cells(columns, record, row, upto - 1, before),
        )
    }
}

/// The messages of a list of errors.
pub open spec fn messages(errors: Seq<MapError>) -> Seq<Seq<char>> {
    Seq::new(errors.len(), |i: int| errors[i].message@)
}

/// Whether what column `c` holds is open: it is filled through a JSON path
/// that is not steady.
pub open spec fn open_column(columns: Seq<ColumnMapping>, c: int) -> bool {
    0 <= c < columns.len() && is_open(columns[c].mapping)
}

/// Whether no column is open.
pub open spec fn all_steady(columns: Seq<ColumnMapping>) -> bool {
    forall|c: int| !open_column(columns, c)
}

/// Whether two batches have the same number of columns and hold the same in
/// every column that is not open.
pub open spec fn agrees(columns: Seq<ColumnMapping>, a: ChunkModel, b: ChunkModel) -> bool {
    &&& a.columns.len() == b.columns.len()
    &&& forall|c: int|
        0 <= c < a.columns.len() && !open_column(columns, c) ==> #[trigger] a.columns[c]
            == b.columns[c]
}

/// The messages of the errors of the first `upto` columns on `record`, in
/// column order.
pub open spec fn cell_errors(columns: Seq<ColumnMapping>, record: Record, upto: int) -> Seq<
    Seq<char>,
>
    decreases upto,
{
    if upto <= 0 {
        Seq::empty()
    } else {
        match map_failure(columns[upto - 1].mapping, record) {
            Some(error) => cell_errors(columns, record, upto - 1).push(error),
            None => cell_errors(columns, record, upto - 1),
        }
    }
}

/// The batch after the first `rows` records were mapped, record `i` into
/// row `i`, with every open column left as it was.
pub open spec fn fill_rows(
    columns: Seq<ColumnMapping>,
    records: Seq<Record>,
    rows: int,
    before: ChunkModel,
) -> ChunkModel
    decreases rows,
{
    if rows <= 0 {
        before
    } else {
        fill_cells(
            columns,
            records[rows - 1],
            rows - 1,
            columns.len() as int,
            fill_rows(columns, records, rows - 1, before),
        )
    }
}

/// The messages of the errors of the first `rows` records, row by row.
pub open spec fn row_errors(columns: Seq<ColumnMapping>, records: Seq<Record>, rows: int) -> Seq<
    Seq<char>,
>
    decreases rows,
{
    if rows <= 0 {
        Seq::empty()
    } else {
        row_errors(columns, records, rows - 1) + cell_errors(
            columns,
            records[rows - 1],
            columns.len() as int,
        )
    }
}

/// Rows that a produce call asks the stream for: as many as fit the batch
/// and the rest of the budget.
pub open spec fn rows_wanted(max_rows: nat, capacity: nat, emitted: nat) -> nat {
    if emitted >= max_rows {
        0
    } else if capacity <= max_rows - emitted {
        capacity
    } else {
        (max_rows - emitted) as nat
    }
}

/// Rows that a produce call declares when the stream holds `remaining`
/// records before its end.
pub open spec fn batch_rows(max_rows: nat, capacity: nat, emitted: nat, remaining: nat) -> nat {
    if remaining < rows_wanted(max_rows, capacity, emitted) {
        remaining
    } else {
        rows_wanted(max_rows, capacity, emitted)
    }
}

/// The cursor after that produce call: unchanged once the budget is used up,
/// the budget where the stream ended within the call, else advanced by the
/// rows declared.
pub open spec fn emitted_after(max_rows: nat, capacity: nat, emitted: nat, remaining: nat) -> nat {
    if emitted >= max_rows {
        emitted
    } else if remaining < rows_wanted(max_rows, capacity, emitted) {
        max_rows
    } else {
        emitted + rows_wanted(max_rows, capacity, emitted)
    }
}

/// Rows declared by consecutive produce calls, one per entry of
/// `capacities`, on a stream that holds `remaining` records before its end.
pub open spec fn scan_rows(max_rows: nat, capacities: Seq<nat>, emitted: nat, remaining: nat) -> nat
    decreases capacities.len(),
{
    if capacities.len() == 0 {
        0
    } else {
        let rows = batch_rows(max_rows, capacities[0], emitted, remaining);
        rows + scan_rows(
            max_rows,
            capacities.drop_first(),
            emitted_after(max_rows, capacities[0], emitted, remaining),
            (remaining - rows) as nat,
        )
    }
}

/// One produce call declares no more rows than the cursor advances by, and
/// the cursor stays within the budget.
pub proof fn lemma_batch_within_budget(max_rows: nat, capacity: nat, emitted: nat, remaining: nat)
    requires
        emitted <= max_rows,
    ensures
        batch_rows(max_rows, capacity, emitted, remaining) <= capacity,
        batch_rows(max_rows, capacity, emitted, remaining) <= remaining,
        emitted + batch_rows(max_rows, capacity, emitted, remaining) <= emitted_after(
            max_rows,
            capacity,
            emitted,
            remaining,
        ),
        emitted_after(max_rows, capacity, emitted, remaining) <= max_rows,
{
}

/// However many produce calls a scan makes and whatever the capacities of
/// their batches, the rows it declares from a cursor within the budget,
/// taken together, do not exceed what is left of the budget.
pub proof fn lemma_scan_within_budget(max_rows: nat, capacities: Seq<nat>, emitted: nat, remaining: nat)
    requires
        emitted <= max_rows,
    ensures
        emitted + scan_rows(max_rows, capacities, emitted, remaining) <= max_rows,
        scan_rows(max_rows, capacities, emitted, remaining) <= remaining,
    decreases capacities.len(),
{
    if capacities.len() > 0 {
        let rows = batch_rows(max_rows, capacities[0], emitted, remaining);
        lemma_batch_within_budget(max_rows, capacities[0], emitted, remaining);
        lemma_scan_within_budget(
            max_rows,
            capacities.drop_first(),
            emitted_after(max_rows, capacities[0], emitted, remaining),
            (remaining - rows) as nat,
        );
    }
}

/// A scan never declares more rows than its budget, over all its produce
/// calls.
pub proof fn lemma_scan_never_exceeds_rows(max_rows: nat, capacities: Seq<nat>, remaining: nat)
    ensures
        scan_rows(max_rows, capacities, 0, remaining) <= max_rows,
{
    lemma_scan_within_budget(max_rows, capacities, 0, remaining);
}

/// A produce call declares a full batch, or what is left of the budget, or
/// what the stream still holds; it declares an empty batch only when the
/// batch has no room, the budget is used up or the stream has ended.
pub proof fn lemma_batch_is_full_or_last(max_rows: nat, capacity: nat, emitted: nat, remaining: nat)
    requires
        emitted <= max_rows,
    ensures
        batch_rows(max_rows, capacity, emitted, remaining) == capacity || batch_rows(
            max_rows,
            capacity,
            emitted,
            remaining,
        ) == max_rows - emitted || batch_rows(max_rows, capacity, emitted, remaining) == remaining,
        batch_rows(max_rows, capacity, emitted, remaining) == 0 ==> capacity == 0 || emitted
            == max_rows || remaining == 0,
{
}

/// A scan that starts with a fresh cursor produces again: its first produce
/// call declares as many rows as fit the batch, the budget and what the
/// stream still holds, whatever earlier scans of the session have done.
pub proof fn lemma_init_restarts(max_rows: nat, capacity: nat, remaining: nat)
    ensures
        batch_rows(max_rows, capacity, 0, remaining) <= capacity,
        batch_rows(max_rows, capacity, 0, remaining) <= max_rows,
        batch_rows(max_rows, capacity, 0, remaining) <= remaining,
        batch_rows(max_rows, capacity, 0, remaining) == capacity || batch_rows(
            max_rows,
            capacity,
            0,
            remaining,
        ) == max_rows || batch_rows(max_rows, capacity, 0, remaining) == remaining,
{
}

/// Once the cursor has reached the budget, every produce call declares an
/// empty batch and leaves the cursor where it is.
pub proof fn lemma_exhausted_stays(max_rows: nat, capacities: Seq<nat>, emitted: nat, remaining: nat)
    requires
        emitted >= max_rows,
    ensures
        scan_rows(max_rows, capacities, emitted, remaining) == 0,
        capacities.len() > 0 ==> emitted_after(max_rows, capacities[0], emitted, remaining) == emitted,
    decreases capacities.len(),
{
    if capacities.len() > 0 {
        lemma_exhausted_stays(max_rows, capacities.drop_first(), emitted, remaining);
    }
}

impl BatchCursor {
    /// A cursor at the start of a scan.
    pub fn new() -> (cursor: BatchCursor)
        ensures
            cursor.total_row == 0,
    {
        BatchCursor { total_row: 0 }
    }

    /// Rows accounted for so far.
    pub fn rows_emitted_so_far(&self) -> (rows: u64)
        ensures
            rows == self.total_row,
    {
        self.total_row
    }
}

/// Mapping a cell keeps the shape of the batch and its declared size.
pub proof fn lemma_fill_cells_shape(
    columns: Seq<ColumnMapping>,
    record: Record,
    row: int,
    upto: int,
    before: ChunkModel,
)
    requires
        upto <= before.columns.len(),
    ensures
        fill_cells(columns, record, row, upto, before).columns.len() == before.columns.len(),
        fill_cells(columns, record, row, upto, before).size == before.size,
    decreases upto,
{
    if upto > 0 {
        lemma_fill_cells_shape(columns, record, row, upto - 1, before);
    }
}

/// Mapping rows keeps the shape of the batch and its declared size.
pub proof fn lemma_fill_rows_shape(
    columns: Seq<ColumnMapping>,
    records: Seq<Record>,
    rows: int,
    before: ChunkModel,
)
    requires
        columns.len() <= before.columns.len(),
    ensures
        fill_rows(columns, records, rows, before).columns.len() == before.columns.len(),
        fill_rows(columns, records, rows, before).size == before.size,
    decreases rows,
{
    if rows > 0 {
        lemma_fill_rows_shape(columns, records, rows - 1, before);
        lemma_fill_cells_shape(
            columns,
            records[rows - 1],
            rows - 1,
            columns.len() as int,
            fill_rows(columns, records, rows - 1, before),
        );
    }
}

impl ScanSession {
    /// Where the scan stands with the cursor `cursor`.
    pub open spec fn state_of(&self, cursor: BatchCursor) -> ScanState {
        if cursor.total_row >= self.max_row_count {
            ScanState::Exhausted
        } else if cursor.total_row == 0 {
            ScanState::Initialized
        } else {
            ScanState::Producing
        }
    }

    /// Whether a produce call in state `state` pulls another record: the
    /// budget and the batch both have room.
    pub open spec fn pulling(&self, state: ReadState, capacity: nat) -> bool {
        state.accum_total < self.max_row_count && state.row < capacity
    }

    /// Where the scan stands.
    pub fn state(&self, cursor: &BatchCursor) -> (state: ScanState)
        ensures
            state == self.state_of(*cursor),
    {
        if cursor.total_row >= self.max_row_count {
            ScanState::Exhausted
        } else if cursor.total_row == 0 {
            ScanState::Initialized
        } else {
            ScanState::Producing
        }
    }

    /// Maps `record` into row `row`, column by column; an error is recorded
    /// and the next column follows.
    pub fn map_row(
        &self,
        record: &Record,
        row: usize,
        output: &mut DataChunk,
        errors: &mut Vec<MapError>,
    )
        requires
            old(output).wf(),
            old(output)@.columns.len() == self.columns@.len(),
            row < old(output).spec_capacity(),
        ensures
            final(output).wf(),
            final(output).spec_capacity() == old(output).spec_capacity(),
            row_filled(self.columns@, *record, row as int, old(output)@, final(output)@),
            all_steady(self.columns@) ==> final(output)@ == fill_cells(
                self.columns@,
                *record,
                row as int,
                self.columns@.len() as int,
                old(output)@,
            ),
            messages(final(errors)@) == messages(old(errors)@) + cell_errors(
                self.columns@,
                *record,
                self.columns@.len() as int,
            ),
    {
        let count = self.columns.len();
        let mut column_index: usize = 0;
        assert(messages(errors@) =~= messages(old(errors)@) + cell_errors(self.columns@, *record, 0));
        while column_index < count
            invariant
                count == self.columns@.len(),
                column_index <= count,
                output.wf(),
                output.spec_capacity() == old(output).spec_capacity(),
                old(output)@.columns.len() == count,
                output@.columns.len() == count,
                output@.size == old(output)@.size,
                row < output.spec_capacity(),
                agrees(
                    self.columns@,
                    output@,
                    fill_cells(self.columns@, *record, row as int, column_index as int, old(output)@),
                ),
                messages(errors@) == messages(old(errors)@) + cell_errors(
                    self.columns@,
                    *record,
                    column_index as int,
                ),
            decreases count - column_index,
        {
            let ghost before = output@;
            let ghost model = fill_cells(
                self.columns@,
                *record,
                row as int,
                column_index as int,
                old(output)@,
            );
            let ghost told = messages(errors@);
            proof {
                lemma_fill_cells_shape(
                    self.columns@,
                    *record,
                    row as int,
                    column_index as int,
                    old(output)@,
                );
                lemma_mapped_agrees(
                    self.columns@,
                    *record,
                    row as int,
                    column_index as int,
                    before,
                    model,
                );
            }
            let column = &self.columns[column_index];
            if let Err(err) = column.mapping.map(record, column_index as u64, row, output, &column.ty) {
                errors.push(err);
                assert(messages(errors@) =~= told.push(err.message@));
            }
            assert(messages(errors@) =~= messages(old(errors)@) + cell_errors(
                self.columns@,
                *record,
                column_index + 1,
            ));
            assert(agrees(
                self.columns@,
                output@,
                fill_cells(self.columns@, *record, row as int, column_index + 1, old(output)@),
            )) by {
                let next = fill_cells(
                    self.columns@,
                    *record,
                    row as int,
                    column_index + 1,
                    old(output)@,
                );
                assert forall|c: int|
                    0 <= c < output@.columns.len() && !open_column(
                        self.columns@,
                        c,
                    ) implies #[trigger] output@.columns[c] == next.columns[c] by {
                    if is_open(column.mapping) {
                        assert(next == model);
                        assert(c != column_index);
                        assert(before.columns[c] == model.columns[c]);
                    }
                }
            }
            column_index = column_index + 1;
        }
        proof {
            let model = fill_cells(
                self.columns@,
                *record,
                row as int,
                self.columns@.len() as int,
                old(output)@,
            );
            lemma_fill_cells_shape(
                self.columns@,
                *record,
                row as int,
                self.columns@.len() as int,
                old(output)@,
            );
            if all_steady(self.columns@) {
                lemma_agrees_exact(self.columns@, output@, model);
            }
        }
    }
}

/// Whether `after` is `before` with row `row` mapped from `record`: it holds
/// what the mappings leave in every column that is not open, and the
/// declared size is as it was.
pub open spec fn row_filled(
    columns: Seq<ColumnMapping>,
    record: Record,
    row: int,
    before: ChunkModel,
    after: ChunkModel,
) -> bool {
    &&& after.size == before.size
    &&& agrees(columns, after, fill_cells(columns, record, row, columns.len() as int, before))
}

/// A batch with its size declared as `size`.
pub open spec fn declared(chunk: ChunkModel, size: nat) -> ChunkModel {
    ChunkModel { columns: chunk.columns, size }
}

impl ScanSession {
    /// One step of a produce call. Of a column that is open the contract
    /// says nothing but that it is still there.
    ///
    /// `Start` opens the call at row 0 with the cursor's count. `Arrived`
    /// maps the record into the next row and counts it. After either, the
    /// call pulls again while the budget and the batch have room; else it
    /// declares the rows filled and stores the count in the cursor. `Ended`
    /// declares the rows filled and sets the cursor to the budget, so that
    /// the scan is over. `Failed` changes nothing and gives the call up.
    pub fn step(
        &self,
        state: &mut ReadState,
        event: ReadEvent<'_>,
        cursor: &mut BatchCursor,
        output: &mut DataChunk,
        errors: &mut Vec<MapError>,
    ) -> (action: ReadAction)
        requires
            old(output).wf(),
            old(output)@.columns.len() == self.columns@.len(),
            !(event is Start) ==> self.pulling(*old(state), old(output).spec_capacity()),
        ensures
            final(output).wf(),
            final(output).spec_capacity() == old(output).spec_capacity(),
            final(output)@.columns.len() == old(output)@.columns.len(),
            match event {
                ReadEvent::Start => {
                    &&& final(state).row == 0
                    &&& final(state).accum_total == old(cursor).total_row
                    &&& final(output)@.columns == old(output)@.columns
                    &&& final(errors)@ == old(errors)@
                },
                ReadEvent::Arrived(record) => {
                    &&& final(state).row == old(state).row + 1
                    &&& final(state).accum_total == old(state).accum_total + 1
                    &&& agrees(
                        self.columns@,
                        final(output)@,
                        fill_cells(
                            self.columns@,
                            *record,
                            old(state).row as int,
                            self.columns@.len() as int,
                            old(output)@,
                        ),
                    )
                    &&& messages(final(errors)@) == messages(old(errors)@) + cell_errors(
                        self.columns@,
                        *record,
                        self.columns@.len() as int,
                    )
                },
                ReadEvent::Ended => {
                    &&& *final(state) == *old(state)
                    &&& final(output)@.columns == old(output)@.columns
                    &&& final(errors)@ == old(errors)@
                },
                ReadEvent::Failed => {
                    &&& *final(state) == *old(state)
                    &&& final(output)@ == old(output)@
                    &&& final(errors)@ == old(errors)@
                    &&& *final(cursor) == *old(cursor)
                },
            },
            action == ReadAction::Abort <==> event is Failed,
            action == ReadAction::Pull <==> !(event is Ended) && !(event is Failed) && self.pulling(
                *final(state),
                old(output).spec_capacity(),
            ),
            action == ReadAction::Pull ==> *final(cursor) == *old(cursor) && final(output)@.size == old(
                output,
            )@.size,
            action == ReadAction::Done ==> final(output)@.size == final(state).row,
            action == ReadAction::Done ==> final(cursor).total_row == (if event is Ended {
                self.max_row_count
            } else {
                final(state).accum_total
            }),
    {
        match event {
            ReadEvent::Start => {
                state.row = 0;
                state.accum_total = cursor.total_row;
            },
            ReadEvent::Arrived(record) => {
                proof {
                    lemma_fill_cells_shape(
                        self.columns@,
                        *record,
                        state.row as int,
                        self.columns@.len() as int,
                        output@,
                    );
                }
                let capacity = output.capacity();
                assert(state.row < capacity);
                self.map_row(record, state.row, output, errors);
                state.row = state.row + 1;
                state.accum_total = state.accum_total + 1;
            },
            ReadEvent::Ended => {
                output.set_size(state.row as u64);
                // set to max so we can terminate
                cursor.total_row = self.max_row_count;
                return ReadAction::Done;
            },
            ReadEvent::Failed => {
                return ReadAction::Abort;
            },
        }
        // if exceed max row or max duckdb len
        if state.accum_total >= self.max_row_count || state.row >= output.capacity() {
            output.set_size(state.row as u64);
            cursor.total_row = state.accum_total;
            ReadAction::Done
        } else {
            ReadAction::Pull
        }
    }

    /// One produce call on a stream held in memory: fills `output` from the
    /// records still to come, declares its size and advances the cursor.
    /// Returns the mapping errors, row by row. The batch holds what the
    /// mappings leave in every column that is not open.
    pub fn internal_read(
        &self,
        cursor: &mut BatchCursor,
        stream: &mut RecordStream,
        output: &mut DataChunk,
    ) -> (errors: Vec<MapError>)
        requires
            old(stream).wf(),
            old(output).wf(),
            old(output)@.columns.len() == self.columns@.len(),
        ensures
            final(stream).wf(),
            final(output).wf(),
            final(output).spec_capacity() == old(output).spec_capacity(),
            final(output)@.size == batch_rows(
                self.max_row_count as nat,
                old(output).spec_capacity(),
                old(cursor).total_row as nat,
                old(stream).remaining().len(),
            ),
            agrees(
                self.columns@,
                final(output)@,
                fill_rows(
                    self.columns@,
                    old(stream).remaining(),
                    final(output)@.size as int,
                    old(output)@,
                ),
            ),
            all_steady(self.columns@) ==> final(output)@ == declared(
                fill_rows(
                    self.columns@,
                    old(stream).remaining(),
                    final(output)@.size as int,
                    old(output)@,
                ),
                final(output)@.size,
            ),
            messages(errors@) == row_errors(
                self.columns@,
                old(stream).remaining(),
                final(output)@.size as int,
            ),
            final(cursor).total_row == emitted_after(
                self.max_row_count as nat,
                old(output).spec_capacity(),
                old(cursor).total_row as nat,
                old(stream).remaining().len(),
            ),
            final(stream).records == old(stream).records,
            final(stream).position == old(stream).position + final(output)@.size,
    {
        let ghost records = stream.remaining();
        let ghost capacity = output.spec_capacity();
        let ghost wanted = rows_wanted(self.max_row_count as nat, capacity, cursor.total_row as nat);
        let mut state = ReadState::new();
        let mut errors: Vec<MapError> = Vec::new();
        let mut action = self.step(&mut state, ReadEvent::Start, cursor, output, &mut errors);
        assert(messages(errors@) =~= row_errors(self.columns@, records, 0));
        while action == ReadAction::Pull
            invariant
                stream.wf(),
                stream.records == old(stream).records,
                stream.position == old(stream).position + state.row,
                records == old(stream).remaining(),
                capacity == old(output).spec_capacity(),
                wanted == rows_wanted(self.max_row_count as nat, capacity, old(cursor).total_row as nat),
                output.wf(),
                output.spec_capacity() == capacity,
                output@.columns.len() == self.columns@.len(),
                old(output)@.columns.len() == self.columns@.len(),
                state.row <= wanted,
                state.row <= records.len(),
                state.accum_total == old(cursor).total_row + state.row,
                agrees(
                    self.columns@,
                    output@,
                    fill_rows(self.columns@, records, state.row as int, old(output)@),
                ),
                messages(errors@) == row_errors(self.columns@, records, state.row as int),
                action != ReadAction::Abort,
                action == ReadAction::Pull ==> self.pulling(state, capacity) && *cursor == *old(cursor),
                action == ReadAction::Done ==> output@.size == state.row,
                action == ReadAction::Done ==> state.row == batch_rows(
                    self.max_row_count as nat,
                    capacity,
                    old(cursor).total_row as nat,
                    records.len(),
                ),
                action == ReadAction::Done ==> cursor.total_row == emitted_after(
                    self.max_row_count as nat,
                    capacity,
                    old(cursor).total_row as nat,
                    records.len(),
                ),
            decreases capacity - state.row + (if action == ReadAction::Pull { 1int } else { 0int }),
        {
            if stream.position < stream.records.len() {
                let record = &stream.records[stream.position];
                assert(*record == records[state.row as int]);
                let ghost before = output@;
                let ghost model = fill_rows(self.columns@, records, state.row as int, old(output)@);
                proof {
                    lemma_fill_rows_shape(self.columns@, records, state.row as int, old(output)@);
                    lemma_fill_cells_agrees(
                        self.columns@,
                        *record,
                        state.row as int,
                        self.columns@.len() as int,
                        before,
                        model,
                    );
                    lemma_fill_cells_shape(
                        self.columns@,
                        *record,
                        state.row as int,
                        self.columns@.len() as int,
                        before,
                    );
                }
                action = self.step(&mut state, ReadEvent::Arrived(record), cursor, output, &mut errors);
                assert(agrees(
                    self.columns@,
                    output@,
                    fill_rows(self.columns@, records, state.row as int, old(output)@),
                )) by {
                    let mid = fill_cells(
                        self.columns@,
                        records[state.row - 1],
                        state.row - 1,
                        self.columns@.len() as int,
                        before,
                    );
                    let next = fill_rows(self.columns@, records, state.row as int, old(output)@);
                    assert forall|c: int|
                        0 <= c < output@.columns.len() && !open_column(
                            self.columns@,
                            c,
                        ) implies #[trigger] output@.columns[c] == next.columns[c] by {
                        assert(output@.columns[c] == mid.columns[c]);
                    }
                }
                stream.position = stream.position + 1;
            } else {
                action = self.step(&mut state, ReadEvent::Ended, cursor, output, &mut errors);
            }
        }
        proof {
            let model = fill_rows(self.columns@, records, state.row as int, old(output)@);
            lemma_fill_rows_shape(self.columns@, records, state.row as int, old(output)@);
            if all_steady(self.columns@) {
                lemma_agrees_exact(self.columns@, output@, declared(model, output@.size));
            }
        }
        errors
    }
}

/// Mapping one cell keeps two batches in agreement.
pub proof fn lemma_mapped_agrees(
    columns: Seq<ColumnMapping>,
    record: Record,
    row: int,
    c: int,
    a: ChunkModel,
    b: ChunkModel,
)
    requires
        agrees(columns, a, b),
        0 <= c < columns.len(),
        c < a.columns.len(),
    ensures
        agrees(
            columns,
            mapped(columns[c].mapping, record, c, row, columns[c].ty, a),
            mapped(columns[c].mapping, record, c, row, columns[c].ty, b),
        ),
{
    let x = mapped(columns[c].mapping, record, c, row, columns[c].ty, a);
    let y = mapped(columns[c].mapping, record, c, row, columns[c].ty, b);
    if !is_open(columns[c].mapping) {
        assert(a.columns[c] == b.columns[c]);
    }
    assert forall|k: int| 0 <= k < x.columns.len() && !open_column(columns, k) implies #[trigger]
        x.columns[k] == y.columns[k] by {
        assert(a.columns[k] == b.columns[k]);
    }
}

/// Mapping a row keeps two batches in agreement.
pub proof fn lemma_fill_cells_agrees(
    columns: Seq<ColumnMapping>,
    record: Record,
    row: int,
    upto: int,
    a: ChunkModel,
    b: ChunkModel,
)
    requires
        agrees(columns, a, b),
        upto <= columns.len(),
        upto <= a.columns.len(),
    ensures
        agrees(
            columns,
            fill_cells(columns, record, row, upto, a),
            fill_cells(columns, record, row, upto, b),
        ),
    decreases upto,
{
    if upto > 0 {
        lemma_fill_cells_agrees(columns, record, row, upto - 1, a, b);
        lemma_fill_cells_shape(columns, record, row, upto - 1, a);
        lemma_mapped_agrees(
            columns,
            record,
            row,
            upto - 1,
            fill_cells(columns, record, row, upto - 1, a),
            fill_cells(columns, record, row, upto - 1, b),
        );
    }
}

/// Two batches that agree, where no column is open and the declared sizes
/// are the same, are the same batch.
pub proof fn lemma_agrees_exact(columns: Seq<ColumnMapping>, a: ChunkModel, b: ChunkModel)
    requires
        agrees(columns, a, b),
        all_steady(columns),
        a.size == b.size,
    ensures
        a == b,
{
    assert forall|c: int| 0 <= c < a.columns.len() implies a.columns[c] == b.columns[c] by {
        assert(!open_column(columns, c));
    }
    assert(a.columns =~= b.columns);
}

/// Starts a physical scan of a bound session: a fresh cursor at zero,
/// whatever earlier scans of the session have done. Production then starts
/// again from where the stream stands.
pub fn consume_init(session: &ScanSession) -> (cursor: BatchCursor)
    ensures
        cursor.total_row == 0,
        session.max_row_count > 0 ==> session.state_of(cursor) == ScanState::Initialized,
{
    BatchCursor::new()
}

/// What bind resolves from the options: what the stream is opened with, and
/// the session of the scan.
#[derive(Debug, Clone)]
pub struct BindData {
    pub topic: String,
    pub config: ConsumerConfig,
    pub start_offset: Offset,
    pub session: ScanSession,
}

/// Resolves the options of a scan, before any connection is made: the
/// consumer's configuration, then the start offset, then the columns. The
/// first of the three that fails gives the error.
pub fn internal_bind(consumer_opt: &ConsumeOpt) -> (bound: Result<BindData, ConfigError>)
    ensures
        match bound {
            Ok(data) => {
                &&& resolved_config(*consumer_opt, transformation_steps(texts(consumer_opt.transform@)))
                    == Ok::<ConfigModel, Seq<char>>(data.config@)
                &&& start_offset(*consumer_opt) == Ok::<Offset, ConfigError>(data.start_offset)
                &&& first_refused(consumer_opt.columns@, 0) == consumer_opt.columns@.len()
                &&& schema(data.session.columns@) == expected_schema(consumer_opt.columns@)
                &&& data.session.max_row_count == consumer_opt.rows
                &&& data.topic == consumer_opt.topic
            },
            Err(error) => {
                let config = resolved_config(*consumer_opt, transformation_steps(texts(consumer_opt.transform@)));
                let offset = start_offset(*consumer_opt);
                let refused = first_refused(consumer_opt.columns@, 0);
                ||| error matches ConfigError::Transform(message) && config == Err::<
                    ConfigModel,
                    Seq<char>,
                >(message@)
                ||| config.is_ok() && offset == Err::<Offset, ConfigError>(error)
                ||| config.is_ok() && offset.is_ok() && refused < consumer_opt.columns@.len() && error
                    == path_error(consumer_opt.columns@[refused].1)
            },
        },
{
    let config = match consumer_opt.generate_config() {
        Ok(config) => config,
        Err(error) => {
            return Err(error);
        },
    };
    let start_offset = match consumer_opt.calculate_offset() {
        Ok(offset) => offset,
        Err(error) => {
            return Err(error);
        },
    };
    let topic = consumer_opt.topic.clone();
    let columns = match consumer_opt.columns_mappings() {
        Ok(columns) => columns,
        Err(error) => {
            return Err(error);
        },
    };
    Ok(
        BindData {
            topic,
            config,
            start_offset,
            session: ScanSession { max_row_count: consumer_opt.rows as u64, columns },
        },
    )
}

} // verus!
