//! From one record to one cell: the four extractors and the coercion of a
//! JSON value to a column's type.

use vstd::prelude::*;
use vstd::utf8::encode_utf8;
use crate::bind::{Cell, CellModel, ChunkModel, DataChunk, DuckDBTypeEnum};
use crate::error::{ConfigError, MapError};
use crate::json::{
    check_path, json_document, json_walk, parse_json, parse_rfc3339, path_class, path_is_served,
    rfc3339_millis, walk_json, FoundModel, JsonFound, PathClass,
};
use crate::record::Record;
use crate::text::{cut, find_char, find_from};

verus! {

/// Whether cells of a column of type `ty` are 64 bits wide integers.
pub open spec fn is_wide(ty: DuckDBTypeEnum) -> bool {
    ty == DuckDBTypeEnum::Bigint || ty == DuckDBTypeEnum::Ubigint
}

/// The cell that holds `offset` in a column of type `ty`: the offset itself
/// where the column is 64 bits wide, else its low 32 bits.
pub open spec fn offset_cell(offset: u64, ty: DuckDBTypeEnum) -> CellModel {
    if is_wide(ty) {
        CellModel::UInt64(offset)
    } else {
        CellModel::UInt32(offset as u32)
    }
}

/// The bytes of the word `null`.
pub open spec fn null_text() -> Seq<u8> {
    seq![0x6eu8, 0x75u8, 0x6cu8, 0x6cu8]
}

/// The cell for a JSON number in a column of type `ty`, where the number is
/// `whole` as a signed integer and `double` as the bits of a double.
pub open spec fn number_cell(whole: Option<i64>, double: Option<u64>, ty: DuckDBTypeEnum) -> Option<
    CellModel,
> {
    match ty {
        DuckDBTypeEnum::Integer => match whole {
            Some(i) => Some(CellModel::Int32(i as i32)),
            None => None,
        },
        DuckDBTypeEnum::Ubigint => match whole {
            Some(i) => Some(CellModel::UInt64(i as u64)),
            None => None,
        },
        DuckDBTypeEnum::Float => match double {
            Some(bits) => Some(CellModel::Float(bits)),
            None => None,
        },
        DuckDBTypeEnum::Double => match double {
            Some(bits) => Some(CellModel::Double(bits)),
            None => None,
        },
        _ => None,
    }
}

/// The cell for JSON `null` in a column of type `ty`.
pub open spec fn null_cell(ty: DuckDBTypeEnum) -> Option<CellModel> {
    match ty {
        DuckDBTypeEnum::Integer => Some(CellModel::Int32(0)),
        DuckDBTypeEnum::Ubigint => Some(CellModel::UInt64(0)),
        DuckDBTypeEnum::Float => Some(CellModel::Float(0)),
        DuckDBTypeEnum::Double => Some(CellModel::Double(0)),
        DuckDBTypeEnum::Varchar => Some(CellModel::Bytes(null_text())),
        _ => None,
    }
}

/// The cell for a JSON string in a column of type `ty`, where `instant` is
/// what the string denotes as a date and time.
pub open spec fn text_cell(text: Seq<char>, ty: DuckDBTypeEnum, instant: Option<i64>) -> Option<
    CellModel,
> {
    if ty == DuckDBTypeEnum::TimestampMs {
        match instant {
            Some(millis) => Some(CellModel::Int64(millis)),
            None => None,
        }
    } else {
        Some(CellModel::Bytes(encode_utf8(text)))
    }
}

/// The cell that `found` gives in a column of type `ty`; `None` where
/// nothing is written and the cell stays as it was. `instant` is what a
/// string denotes as a date and time, and counts only for a string in a
/// column of milliseconds.
pub open spec fn json_cell(found: FoundModel, ty: DuckDBTypeEnum, instant: Option<i64>) -> Option<
    CellModel,
> {
    match found {
        FoundModel::Missing(message) => Some(CellModel::Bytes(encode_utf8(message))),
        FoundModel::Null => null_cell(ty),
        FoundModel::Bool(flag) => Some(CellModel::UInt8(if flag { 1u8 } else { 0u8 })),
        FoundModel::Number(whole, double) => number_cell(whole, double, ty),
        FoundModel::Text(text) => text_cell(text, ty, instant),
        FoundModel::Composite(text) => Some(CellModel::Bytes(encode_utf8(text))),
    }
}

/// What the string of `found` denotes as a date and time, where `found` is a
/// string.
pub open spec fn instant_of(found: FoundModel) -> Option<i64> {
    match found {
        FoundModel::Text(text) => rfc3339_millis(text),
        _ => None,
    }
}

/// Whether `after` is `before` with the cell at (`column`, `row`) written,
/// or left, as `found` asks in a column of type `ty`.
pub open spec fn cell_written(
    before: ChunkModel,
    after: ChunkModel,
    column: int,
    row: int,
    ty: DuckDBTypeEnum,
    found: FoundModel,
) -> bool {
    after == written(before, column, row, json_cell(found, ty, instant_of(found)))
}

/// Whether two batches differ at most in column `column`.
pub open spec fn same_but_column(before: ChunkModel, after: ChunkModel, column: int) -> bool {
    &&& after.size == before.size
    &&& after.columns.len() == before.columns.len()
    &&& forall|c: int|
        0 <= c < before.columns.len() && c != column ==> #[trigger] after.columns[c]
            == before.columns[c]
}

/// Writing one cell, or none, changes at most its column.
pub proof fn lemma_written_same_but_column(
    before: ChunkModel,
    column: int,
    row: int,
    cell: Option<CellModel>,
)
    requires
        0 <= column < before.columns.len(),
    ensures
        same_but_column(before, written(before, column, row, cell), column),
{
}

/// A batch after a cell was, or was not, written at (`column`, `row`).
pub open spec fn written(
    before: ChunkModel,
    column: int,
    row: int,
    cell: Option<CellModel>,
) -> ChunkModel {
    match cell {
        Some(c) => before.with_cell(column, row, c),
        None => before,
    }
}

/// Computes [`json_cell`].
pub fn coerce(found: &JsonFound, ty: &DuckDBTypeEnum, instant: Option<i64>) -> (cell: Option<Cell>)
    ensures
        match cell {
            Some(c) => json_cell(found@, *ty, instant) == Some(c@),
            None => json_cell(found@, *ty, instant).is_none(),
        },
{
    match found {
        JsonFound::Missing(message) => Some(Cell::Bytes(message.as_str().as_bytes_vec())),
        JsonFound::Null => match ty {
            DuckDBTypeEnum::Integer => Some(Cell::Int32(0)),
            DuckDBTypeEnum::Ubigint => Some(Cell::UInt64(0)),
            DuckDBTypeEnum::Float => Some(Cell::Float(0)),
            DuckDBTypeEnum::Double => Some(Cell::Double(0)),
            DuckDBTypeEnum::Varchar => {
                let mut word: Vec<u8> = Vec::new();
                word.push(0x6eu8);
                word.push(0x75u8);
                word.push(0x6cu8);
                word.push(0x6cu8);
                assert(word@ =~= null_text());
                Some(Cell::Bytes(word))
            },
            _ => None,
        },
        JsonFound::Bool(flag) => Some(Cell::UInt8(if *flag { 1u8 } else { 0u8 })),
        JsonFound::Number(whole, double) => match ty {
            DuckDBTypeEnum::Integer => match whole {
                Some(i) => Some(Cell::Int32(#[verifier::truncate] (*i as i32))),
                None => None,
            },
            DuckDBTypeEnum::Ubigint => match whole {
                Some(i) => Some(Cell::UInt64(#[verifier::truncate] (*i as u64))),
                None => None,
            },
            DuckDBTypeEnum::Float => match double {
                Some(bits) => Some(Cell::Float(*bits)),
                None => None,
            },
            DuckDBTypeEnum::Double => match double {
                Some(bits) => Some(Cell::Double(*bits)),
                None => None,
            },
            _ => None,
        },
        JsonFound::Text(text) => match ty {
            DuckDBTypeEnum::TimestampMs => match instant {
                Some(millis) => Some(Cell::Int64(millis)),
                None => None,
            },
            _ => Some(Cell::Bytes(text.as_str().as_bytes_vec())),
        },
        JsonFound::Composite(text) => Some(Cell::Bytes(text.as_str().as_bytes_vec())),
    }
}

/// Writes the record's offset.
#[derive(Debug, Clone, Copy)]
pub struct OffsetMapper();

/// Writes the record's timestamp.
#[derive(Debug, Clone, Copy)]
pub struct TimestampMapper();

/// Writes the record's payload as it is.
#[derive(Debug, Clone, Copy)]
pub struct ValueMapper();

/// Writes what a JSON path selects from the record's payload.
#[derive(Debug)]
pub struct JqlMapper {
    path: String,
    steady: bool,
}

impl Clone for JqlMapper {
    fn clone(&self) -> (copy: Self)
        ensures
            copy.path() == self.path(),
            copy.steady() == self.steady(),
    {
        proof {
            use_type_invariant(self);
        }
        JqlMapper { path: self.path.clone(), steady: self.steady }
    }
}

impl OffsetMapper {
    pub fn map(
        &self,
        record: &Record,
        colum: u64,
        row: usize,
        output: &mut DataChunk,
        ty: &DuckDBTypeEnum,
    ) -> (done: Result<(), MapError>)
        requires
            old(output).wf(),
            colum < old(output)@.columns.len(),
            row < old(output).spec_capacity(),
        ensures
            done.is_ok(),
            final(output).wf(),
            final(output).spec_capacity() == old(output).spec_capacity(),
            final(output)@ == old(output)@.with_cell(
                colum as int,
                row as int,
                offset_cell(record.offset, *ty),
            ),
    {
        let wide = match ty {
            DuckDBTypeEnum::Bigint => true,
            DuckDBTypeEnum::Ubigint => true,
            _ => false,
        };
        if wide {
            output.set_data(colum, row, Cell::UInt64(record.offset()));
        } else {
            output.set_data(colum, row, Cell::UInt32(#[verifier::truncate] (record.offset() as u32)));
        }
        Ok(())
    }
}

impl TimestampMapper {
    pub fn map(
        &self,
        record: &Record,
        colum: u64,
        row: usize,
        output: &mut DataChunk,
        _ty: &DuckDBTypeEnum,
    ) -> (done: Result<(), MapError>)
        requires
            old(output).wf(),
            colum < old(output)@.columns.len(),
            row < old(output).spec_capacity(),
        ensures
            done.is_ok(),
            final(output).wf(),
            final(output).spec_capacity() == old(output).spec_capacity(),
            final(output)@ == old(output)@.with_cell(
                colum as int,
                row as int,
                CellModel::Int64(record.timestamp),
            ),
    {
        output.set_data(colum, row, Cell::Int64(record.timestamp()));
        Ok(())
    }
}

impl ValueMapper {
    pub fn map(
        &self,
        record: &Record,
        colum: u64,
        row: usize,
        output: &mut DataChunk,
        _ty: &DuckDBTypeEnum,
    ) -> (done: Result<(), MapError>)
        requires
            old(output).wf(),
            colum < old(output)@.columns.len(),
            row < old(output).spec_capacity(),
        ensures
            done.is_ok(),
            final(output).wf(),
            final(output).spec_capacity() == old(output).spec_capacity(),
            final(output)@ == old(output)@.with_cell(
                colum as int,
                row as int,
                CellModel::Bytes(record.value@),
            ),
    {
        output.assign_string_element(colum, row as u64, record.value());
        Ok(())
    }
}

impl JqlMapper {
    #[verifier::type_invariant]
    spec fn valid(self) -> bool {
        path_is_served(self.path@) && self.steady == (path_class(self.path@) == PathClass::Steady)
    }

    /// The path.
    pub closed spec fn path(&self) -> Seq<char> {
        self.path@
    }

    /// Whether what the path selects depends on the document and the path
    /// alone.
    pub closed spec fn steady(&self) -> bool {
        self.steady
    }

    /// A mapper for the path `jql`, where the path is served: an error of
    /// its own where the path selects nothing, and where it holds a form
    /// that is not served.
    pub fn new(jql: String) -> (mapper: Result<JqlMapper, ConfigError>)
        ensures
            match path_class(jql@) {
                PathClass::Empty => mapper == Err::<JqlMapper, ConfigError>(
                    ConfigError::InvalidPath(jql),
                ),
                PathClass::Unsupported => mapper == Err::<JqlMapper, ConfigError>(
                    ConfigError::UnsupportedPath(jql),
                ),
                PathClass::Steady => mapper matches Ok(m) && m.path() == jql@ && m.steady(),
                PathClass::Unsteady => mapper matches Ok(m) && m.path() == jql@ && !m.steady(),
            },
    {
        match check_path(jql.as_str()) {
            PathClass::Empty => Err(ConfigError::InvalidPath(jql)),
            PathClass::Unsupported => Err(ConfigError::UnsupportedPath(jql)),
            PathClass::Steady => Ok(JqlMapper { path: jql, steady: true }),
            PathClass::Unsteady => Ok(JqlMapper { path: jql, steady: false }),
        }
    }

    /// The path as text.
    pub fn selectors(&self) -> (path: &str)
        ensures
            path@ == self.path(),
            path_is_served(self.path()),
            self.steady() == (path_class(self.path()) == PathClass::Steady),
    {
        proof {
            use_type_invariant(self);
        }
        self.path.as_str()
    }

    /// Whether what the path selects depends on the document and the path
    /// alone.
    pub fn is_steady(&self) -> (steady: bool)
        ensures
            steady == self.steady(),
    {
        self.steady
    }

    /// Writes what the path selects from the payload. A payload that is no
    /// JSON document gives the parser's message and leaves the batch as it
    /// was. Otherwise the cell is written, or left, as what was found asks;
    /// on a steady path that is what the path selects from the document.
    pub fn map(
        &self,
        record: &Record,
        colum: u64,
        row: usize,
        output: &mut DataChunk,
        ty: &DuckDBTypeEnum,
    ) -> (done: Result<(), MapError>)
        requires
            old(output).wf(),
            colum < old(output)@.columns.len(),
            row < old(output).spec_capacity(),
        ensures
            final(output).wf(),
            final(output).spec_capacity() == old(output).spec_capacity(),
            match json_document(record.value@) {
                Ok(doc) => done.is_ok() && exists|found: FoundModel| #[trigger]
                    cell_written(old(output)@, final(output)@, colum as int, row as int, *ty, found)
                        && (self.steady() ==> found == json_walk(doc, self.path())),
                Err(message) => {
                    &&& done matches Err(error) && error.message@ == message
                    &&& final(output)@ == old(output)@
                },
            },
    {
        let path = self.selectors();
        match parse_json(record.value()) {
            Err(message) => Err(MapError { message }),
            Ok(doc) => {
                let found = walk_json(&doc, path);
                let instant = match &found {
                    JsonFound::Text(text) => parse_rfc3339(text.as_str()),
                    _ => None,
                };
                match coerce(&found, ty, instant) {
                    Some(cell) => {
                        output.set_data(colum, row, cell);
                    },
                    None => {},
                }
                assert(cell_written(old(output)@, output@, colum as int, row as int, *ty, found@));
                Ok(())
            },
        }
    }
}

/// The rule by which a column takes its cell from a record.
#[derive(Debug, Clone)]
pub enum Mapping {
    Offset(OffsetMapper),
    Timestamp(TimestampMapper),
    Value(ValueMapper),
    Jql(JqlMapper),
}

/// What a mapping leaves in the batch for a record. For a JSON path that is
/// not steady this is the batch as it was: what such a path writes is open.
pub open spec fn mapped(
    mapping: Mapping,
    record: Record,
    column: int,
    row: int,
    ty: DuckDBTypeEnum,
    before: ChunkModel,
) -> ChunkModel {
    match mapping {
        Mapping::Offset(_) => before.with_cell(column, row, offset_cell(record.offset, ty)),
        Mapping::Timestamp(_) => before.with_cell(column, row, CellModel::Int64(record.timestamp)),
        Mapping::Value(_) => before.with_cell(column, row, CellModel::Bytes(record.value@)),
        Mapping::Jql(mapper) => match json_document(record.value@) {
            Ok(doc) => if mapper.steady() {
                let found = json_walk(doc, mapper.path());
                written(before, column, row, json_cell(found, ty, instant_of(found)))
            } else {
                before
            },
            Err(_) => before,
        },
    }
}

/// Whether what the mapping writes is open: a JSON path that is not steady.
pub open spec fn is_open(mapping: Mapping) -> bool {
    mapping matches Mapping::Jql(mapper) && !mapper.steady()
}

/// The message with which a mapping fails on a record, if it fails: the
/// parser's, where a JSON path meets a payload that is no JSON document.
pub open spec fn map_failure(mapping: Mapping, record: Record) -> Option<Seq<char>> {
    match mapping {
        Mapping::Jql(_) => match json_document(record.value@) {
            Ok(_) => None,
            Err(message) => Some(message),
        },
        _ => None,
    }
}

/// What an open mapping leaves in the batch: the batch as it was where the
/// payload is no JSON document, else the cell written, or left, as something
/// found asks.
pub open spec fn open_mapped(
    record: Record,
    column: int,
    row: int,
    ty: DuckDBTypeEnum,
    before: ChunkModel,
    after: ChunkModel,
) -> bool {
    match json_document(record.value@) {
        Ok(_) => exists|found: FoundModel| #[trigger]
            cell_written(before, after, column, row, ty, found),
        Err(_) => after == before,
    }
}

impl Mapping {
    /// Writes the cell at (`colum`, `row`) of `output` from `record`.
    pub fn map(
        &self,
        record: &Record,
        colum: u64,
        row: usize,
        output: &mut DataChunk,
        ty: &DuckDBTypeEnum,
    ) -> (done: Result<(), MapError>)
        requires
            old(output).wf(),
            colum < old(output)@.columns.len(),
            row < old(output).spec_capacity(),
        ensures
            final(output).wf(),
            final(output).spec_capacity() == old(output).spec_capacity(),
            !is_open(*self) ==> final(output)@ == mapped(
                *self,
                *record,
                colum as int,
                row as int,
                *ty,
                old(output)@,
            ),
            is_open(*self) ==> open_mapped(
                *record,
                colum as int,
                row as int,
                *ty,
                old(output)@,
                final(output)@,
            ),
            same_but_column(old(output)@, final(output)@, colum as int),
            match map_failure(*self, *record) {
                Some(message) => done matches Err(error) && error.message@ == message,
                None => done.is_ok(),
            },
    {
        match self {
            Mapping::Offset(mapper) => mapper.map(record, colum, row, output, ty),
            Mapping::Timestamp(mapper) => mapper.map(record, colum, row, output, ty),
            Mapping::Value(mapper) => mapper.map(record, colum, row, output, ty),
            Mapping::Jql(mapper) => {
                let done = mapper.map(record, colum, row, output, ty);
                proof {
                    if json_document(record.value@) is Ok {
                        let found = choose|found: FoundModel| #[trigger]
                            cell_written(
                                old(output)@,
                                output@,
                                colum as int,
                                row as int,
                                *ty,
                                found,
                            ) && (mapper.steady() ==> found == json_walk(
                                json_document(record.value@)->Ok_0,
                                mapper.path(),
                            ));
                        lemma_written_same_but_column(
                            old(output)@,
                            colum as int,
                            row as int,
                            json_cell(found, *ty, instant_of(found)),
                        );
                    }
                }
                done
            },
        }
    }
}

/// Mathematical value of a [`Mapping`].
pub enum Extractor {
    Offset,
    Timestamp,
    RawValue,
    JsonPath(Seq<char>),
}

impl View for Mapping {
    type V = Extractor;

    open spec fn view(&self) -> Extractor {
        match *self {
            Mapping::Offset(_) => Extractor::Offset,
            Mapping::Timestamp(_) => Extractor::Timestamp,
            Mapping::Value(_) => Extractor::RawValue,
            Mapping::Jql(mapper) => Extractor::JsonPath(mapper.path()),
        }
    }
}

/// Mathematical value of a [`ColumnMapping`].
pub struct ColumnModel {
    pub name: Seq<char>,
    pub ty: DuckDBTypeEnum,
    pub extractor: Extractor,
}

/// One result column: its name, its type and the rule that fills it.
#[derive(Debug, Clone)]
pub struct ColumnMapping {
    pub name: String,
    pub mapping: Mapping,
    pub ty: DuckDBTypeEnum,
}

impl View for ColumnMapping {
    type V = ColumnModel;

    open spec fn view(&self) -> ColumnModel {
        ColumnModel { name: self.name@, ty: self.ty, extractor: self.mapping@ }
    }
}

/// The type that a type tag stands for; text where the tag is none of the
/// six.
pub open spec fn tag_type(tag: Seq<char>) -> DuckDBTypeEnum {
    if tag =~= seq!['i'] {
        DuckDBTypeEnum::Integer
    } else if tag =~= seq!['l'] {
        DuckDBTypeEnum::Ubigint
    } else if tag =~= seq!['f'] {
        DuckDBTypeEnum::Float
    } else if tag =~= seq!['d'] {
        DuckDBTypeEnum::Double
    } else if tag =~= seq!['s'] {
        DuckDBTypeEnum::Varchar
    } else if tag =~= seq!['t'] {
        DuckDBTypeEnum::TimestampMs
    } else {
        DuckDBTypeEnum::Varchar
    }
}

/// The type of a tag by its only character.
pub open spec fn letter_type(letter: char) -> DuckDBTypeEnum {
    if letter == 'i' {
        DuckDBTypeEnum::Integer
    } else if letter == 'l' {
        DuckDBTypeEnum::Ubigint
    } else if letter == 'f' {
        DuckDBTypeEnum::Float
    } else if letter == 'd' {
        DuckDBTypeEnum::Double
    } else if letter == 't' {
        DuckDBTypeEnum::TimestampMs
    } else {
        DuckDBTypeEnum::Varchar
    }
}

/// A tag of one character has the type of that character; any other tag
/// stands for text.
pub proof fn lemma_tag_type(tag: Seq<char>)
    ensures
        tag.len() == 1 ==> tag_type(tag) == letter_type(tag[0]),
        tag.len() != 1 ==> tag_type(tag) == DuckDBTypeEnum::Varchar,
{
    assert(seq!['i'].len() == 1 && seq!['i'][0] == 'i');
    assert(seq!['l'].len() == 1 && seq!['l'][0] == 'l');
    assert(seq!['f'].len() == 1 && seq!['f'][0] == 'f');
    assert(seq!['d'].len() == 1 && seq!['d'][0] == 'd');
    assert(seq!['s'].len() == 1 && seq!['s'][0] == 's');
    assert(seq!['t'].len() == 1 && seq!['t'][0] == 't');
}

/// The name in `name[:type]`: what stands before the first colon.
pub open spec fn column_name(name_ty: Seq<char>) -> Seq<char> {
    name_ty.subrange(0, find_from(name_ty, ':', 0))
}

/// The type in `name[:type]`: that of the tag between the first colon and
/// the second, text where there is no colon.
pub open spec fn column_type(name_ty: Seq<char>) -> DuckDBTypeEnum {
    let colon = find_from(name_ty, ':', 0);
    if colon == name_ty.len() {
        DuckDBTypeEnum::Varchar
    } else {
        tag_type(name_ty.subrange(colon + 1, find_from(name_ty, ':', colon + 1)))
    }
}

impl ColumnMapping {
    /// create new mapping for column,
    pub fn new(name_ty: String, mapping: Mapping) -> (column: Self)
        ensures
            column.name@ == column_name(name_ty@),
            column.ty == column_type(name_ty@),
            column.mapping == mapping,
    {
        // check if name contains type
        let text = name_ty.as_str();
        let len = text.unicode_len();
        let colon = find_char(text, ':', 0);
        let name = cut(text, 0, colon);
        let ty = if colon < len {
            let end = find_char(text, ':', colon + 1);
            if end - colon == 2 {
                let tag = text.get_char(colon + 1);
                proof {
                    lemma_tag_type(text@.subrange(colon + 1, end as int));
                }
                match tag {
                    'i' => DuckDBTypeEnum::Integer,
                    'l' => DuckDBTypeEnum::Ubigint,
                    'f' => DuckDBTypeEnum::Float,
                    'd' => DuckDBTypeEnum::Double,
                    's' => DuckDBTypeEnum::Varchar,
                    't' => DuckDBTypeEnum::TimestampMs,
                    _ => DuckDBTypeEnum::Varchar,
                }
            } else {
                proof {
                    lemma_tag_type(text@.subrange(colon + 1, end as int));
                }
                DuckDBTypeEnum::Varchar
            }
        } else {
            DuckDBTypeEnum::Varchar
        };

        Self { name, mapping, ty }
    }
}

} // verus!
