//! The host's side of a scan as plain data: the logical column types and the
//! fixed-capacity, column-major batch that one produce call fills.

use vstd::prelude::*;

verus! {

/// Logical type of a result column.
#[derive(Debug, Clone, Copy, PartialEq, Eq, Structural)]
pub enum DuckDBTypeEnum {
    Boolean,
    Tinyint,
    Smallint,
    /// Signed 32-bit integer
    Integer,
    Bigint,
    Utinyint,
    Usmallint,
    Uinteger,
    Ubigint,
    Float,
    Double,
    Timestamp,
    Date,
    Time,
    Interval,
    Hugeint,
    Varchar,
    Blob,
    Decimal,
    TimestampS,
    TimestampMs,
    TimestampNs,
    Enum,
    List,
    Struct,
    /// Key-value map
    MapType,
    Uuid,
    Union,
}

/// What one cell of a batch holds.
///
/// `Empty` is the state in which the host hands a cell over: nothing has been
/// written to it. The two floating-point variants carry the bit pattern of a
/// double-precision number; a `Float` cell stores that number narrowed to
/// single precision.
#[derive(Debug, Clone, PartialEq, Eq)]
pub enum Cell {
    Empty,
    UInt8(u8),
    Int32(i32),
    UInt32(u32),
    Int64(i64),
    UInt64(u64),
    Float(u64),
    Double(u64),
    Bytes(Vec<u8>),
}

/// Mathematical value of a [`Cell`].
pub enum CellModel {
    Empty,
    UInt8(u8),
    Int32(i32),
    UInt32(u32),
    Int64(i64),
    UInt64(u64),
    Float(u64),
    Double(u64),
    Bytes(Seq<u8>),
}

impl View for Cell {
    type V = CellModel;

    open spec fn view(&self) -> CellModel {
        match *self {
            Cell::Empty => CellModel::Empty,
            Cell::UInt8(v) => CellModel::UInt8(v),
            Cell::Int32(v) => CellModel::Int32(v),
            Cell::UInt32(v) => CellModel::UInt32(v),
            Cell::Int64(v) => CellModel::Int64(v),
            Cell::UInt64(v) => CellModel::UInt64(v),
            Cell::Float(bits) => CellModel::Float(bits),
            Cell::Double(bits) => CellModel::Double(bits),
            Cell::Bytes(bytes) => CellModel::Bytes(bytes@),
        }
    }
}

impl Cell {
    /// A copy of this cell.
    pub fn duplicate(&self) -> (copy: Cell)
        ensures
            copy@ == self@,
    {
        match self {
            Cell::Empty => Cell::Empty,
            Cell::UInt8(v) => Cell::UInt8(*v),
            Cell::Int32(v) => Cell::Int32(*v),
            Cell::UInt32(v) => Cell::UInt32(*v),
            Cell::Int64(v) => Cell::Int64(*v),
            Cell::UInt64(v) => Cell::UInt64(*v),
            Cell::Float(bits) => Cell::Float(*bits),
            Cell::Double(bits) => Cell::Double(*bits),
            Cell::Bytes(bytes) => Cell::Bytes(copy_bytes(bytes.as_slice())),
        }
    }
}

/// Copies a byte slice into a vector of its own.
pub fn copy_bytes(bytes: &[u8]) -> (copy: Vec<u8>)
    ensures
        copy@ == bytes@,
{
    let mut copy: Vec<u8> = Vec::new();
    let mut i: usize = 0;
    while i < bytes.len()
        invariant
            i <= bytes@.len(),
            copy@ == bytes@.subrange(0, i as int),
        decreases bytes@.len() - i,
    {
        copy.push(bytes[i]);
        assert(bytes@.subrange(0, i + 1) =~= bytes@.subrange(0, i as int).push(bytes@[i as int]));
        i = i + 1;
    }
    assert(bytes@.subrange(0, i as int) =~= bytes@);
    copy
}

/// One column buffer of a batch: a fixed number of cells.
pub struct Vector {
    cells: Vec<Cell>,
}

impl View for Vector {
    type V = Seq<CellModel>;

    closed spec fn view(&self) -> Seq<CellModel> {
        Seq::new(self.cells@.len(), |i: int| self.cells@[i]@)
    }
}

impl Vector {
    /// A buffer of `capacity` cells, none of them written.
    pub fn new(capacity: usize) -> (vector: Vector)
        ensures
            vector@.len() == capacity,
            forall|row: int| 0 <= row < capacity ==> vector@[row] == CellModel::Empty,
    {
        let mut cells: Vec<Cell> = Vec::new();
        let mut i: usize = 0;
        while i < capacity
            invariant
                i <= capacity,
                cells@.len() == i,
                forall|row: int| 0 <= row < i ==> cells@[row]@ == CellModel::Empty,
            decreases capacity - i,
        {
            cells.push(Cell::Empty);
            i = i + 1;
        }
        Vector { cells }
    }

    /// Number of cells of the buffer.
    pub fn capacity(&self) -> (n: usize)
        ensures
            n == self@.len(),
    {
        self.cells.len()
    }

    /// The cell at `row`.
    pub fn get(&self, row: usize) -> (cell: Cell)
        requires
            row < self@.len(),
        ensures
            cell@ == self@[row as int],
    {
        self.cells[row].duplicate()
    }

    /// set data
    pub fn set_data(&mut self, row: usize, data: Cell)
        requires
            row < old(self)@.len(),
        ensures
            final(self)@ == old(self)@.update(row as int, data@),
    {
        self.cells.set(row, data);
        assert(self@ =~= old(self)@.update(row as int, data@));
    }

    /// Stores a copy of `str` as the string element at `index`.
    pub fn assign_string_element(&mut self, index: u64, str: &[u8])
        requires
            index < old(self)@.len(),
        ensures
            final(self)@ == old(self)@.update(index as int, CellModel::Bytes(str@)),
    {
        let len = self.cells.len();
        assert(index < len);
        let copy = copy_bytes(str);
        self.set_data(index as usize, Cell::Bytes(copy));
    }
}

/// Mathematical value of a [`DataChunk`]: its columns, each as long as the
/// batch's capacity, and the number of rows declared as occupied.
pub struct ChunkModel {
    pub columns: Seq<Seq<CellModel>>,
    pub size: nat,
}

/// A batch: one buffer per result column, all of the same fixed capacity, and
/// the row count declared for it.
pub struct DataChunk {
    columns: Vec<Vector>,
    capacity: usize,
    size: u64,
}

impl View for DataChunk {
    type V = ChunkModel;

    closed spec fn view(&self) -> ChunkModel {
        ChunkModel {
            columns: Seq::new(self.columns@.len(), |c: int| self.columns@[c]@),
            size: self.size as nat,
        }
    }
}

impl DataChunk {
    /// Every column is as long as the capacity.
    pub closed spec fn wf(&self) -> bool {
        forall|c: int| 0 <= c < self.columns@.len() ==> (#[trigger] self.columns@[c])@.len() == self.capacity
    }

    /// Number of rows that each column can hold.
    pub closed spec fn spec_capacity(&self) -> nat {
        self.capacity as nat
    }

    /// The cell at (`column`, `row`).
    pub open spec fn cell(&self, column: int, row: int) -> CellModel {
        self@.columns[column][row]
    }

    /// A batch of `column_count` columns and `capacity` rows with nothing
    /// written and no row declared.
    pub fn new(column_count: usize, capacity: usize) -> (chunk: DataChunk)
        ensures
            chunk.wf(),
            chunk@.columns.len() == column_count,
            chunk.spec_capacity() == capacity,
            chunk@.size == 0,
            forall|c: int, r: int|
                0 <= c < column_count && 0 <= r < capacity ==> chunk.cell(c, r) == CellModel::Empty,
    {
        let mut columns: Vec<Vector> = Vec::new();
        let mut i: usize = 0;
        while i < column_count
            invariant
                i <= column_count,
                columns@.len() == i,
                forall|c: int| 0 <= c < i ==> (#[trigger] columns@[c])@.len() == capacity,
                forall|c: int, r: int|
                    0 <= c < i && 0 <= r < capacity ==> (#[trigger] columns@[c]@[r]) == CellModel::Empty,
            decreases column_count - i,
        {
            columns.push(Vector::new(capacity));
            i = i + 1;
        }
        DataChunk { columns, capacity, size: 0 }
    }

    /// Number of columns.
    pub fn column_count(&self) -> (n: usize)
        ensures
            n == self@.columns.len(),
    {
        self.columns.len()
    }

    /// Number of rows that each column can hold.
    pub fn capacity(&self) -> (n: usize)
        ensures
            n == self.spec_capacity(),
    {
        self.capacity
    }

    /// Number of rows declared as occupied.
    pub fn size(&self) -> (n: u64)
        ensures
            n == self@.size,
    {
        self.size
    }

    /// The buffer of column `column_index`.
    pub fn get_vector(&self, column_index: u64) -> (vector: &Vector)
        requires
            column_index < self@.columns.len(),
        ensures
            vector@ == self@.columns[column_index as int],
            self.wf() ==> vector@.len() == self.spec_capacity(),
    {
        let count = self.columns.len();
        assert(column_index < count);
        &self.columns[column_index as usize]
    }

    /// Declares the number of occupied rows.
    pub fn set_size(&mut self, size: u64)
        requires
            old(self).wf(),
            size <= old(self).spec_capacity(),
        ensures
            final(self).wf(),
            final(self).spec_capacity() == old(self).spec_capacity(),
            final(self)@.columns == old(self)@.columns,
            final(self)@.size == size,
    {
        self.size = size;
        assert(self@.columns =~= old(self)@.columns);
    }

    /// Writes `data` into the cell at (`column_index`, `row`).
    pub fn set_data(&mut self, column_index: u64, row: usize, data: Cell)
        requires
            old(self).wf(),
            column_index < old(self)@.columns.len(),
            row < old(self).spec_capacity(),
        ensures
            final(self).wf(),
            final(self).spec_capacity() == old(self).spec_capacity(),
            final(self)@ == old(self)@.with_cell(column_index as int, row as int, data@),
    {
        let count = self.columns.len();
        assert(column_index < count);
        let c = column_index as usize;
        self.columns[c].set_data(row, data);
        assert(self@.columns =~= old(self)@.with_cell(column_index as int, row as int, data@).columns);
    }

    /// Stores a copy of `str` as the string element at (`column_index`, `index`).
    pub fn assign_string_element(&mut self, column_index: u64, index: u64, str: &[u8])
        requires
            old(self).wf(),
            column_index < old(self)@.columns.len(),
            index < old(self).spec_capacity(),
        ensures
            final(self).wf(),
            final(self).spec_capacity() == old(self).spec_capacity(),
            final(self)@ == old(self)@.with_cell(
                column_index as int,
                index as int,
                CellModel::Bytes(str@),
            ),
    {
        let capacity = self.capacity;
        assert(index < capacity);
        let copy = copy_bytes(str);
        self.set_data(column_index, index as usize, Cell::Bytes(copy));
    }
}

impl ChunkModel {
    /// This batch with the cell at (`column`, `row`) replaced by `cell`.
    pub open spec fn with_cell(self, column: int, row: int, cell: CellModel) -> ChunkModel {
        ChunkModel { columns: self.columns.update(column, self.columns[column].update(row, cell)), size: self.size }
    }
}

/// The type of a parameter or of a result column.
#[derive(Debug, Clone, Copy, PartialEq, Eq)]
pub struct LogicalType(pub DuckDBTypeEnum);

impl LogicalType {
    pub fn new(typ: DuckDBTypeEnum) -> (ty: Self)
        ensures
            ty.0 == typ,
    {
        Self(typ)
    }
}

impl Default for LogicalType {
    fn default() -> (ty: Self)
        ensures
            ty.0 == DuckDBTypeEnum::Varchar,
    {
        Self::new(DuckDBTypeEnum::Varchar)
    }
}

/// What a table function is registered with: its name and the types of its
/// parameters.
#[derive(Debug, Clone, PartialEq, Eq)]
pub struct TableFunction {
    pub name: String,
    pub parameters: Vec<LogicalType>,
}

impl TableFunction {
    /// A table function without a name and without parameters.
    pub fn new() -> (function: Self)
        ensures
            function.name@.len() == 0,
            function.parameters@.len() == 0,
    {
        TableFunction { name: String::new(), parameters: Vec::new() }
    }

    pub fn set_name(&mut self, name: &str)
        ensures
            final(self).name@ == name@,
            final(self).parameters == old(self).parameters,
    {
        self.name = name.to_owned();
    }

    pub fn add_parameter(&mut self, logical_type: &LogicalType)
        ensures
            final(self).name == old(self).name,
            final(self).parameters@ == old(self).parameters@.push(*logical_type),
    {
        self.parameters.push(*logical_type);
    }
}

} // verus!
