//! The options of a scan and what is resolved from them: where reading
//! starts, the result columns, and the configuration of the consumer.

use vstd::prelude::*;
use vstd::utf8::encode_utf8;
use crate::bind::DuckDBTypeEnum;
use crate::error::ConfigError;
use crate::json::{path_class, path_is_served, PathClass};
use crate::mapping::{
    column_name, column_type, ColumnMapping, ColumnModel, Extractor, JqlMapper, Mapping, OffsetMapper,
    TimestampMapper, ValueMapper,
};
use crate::text::{cut, find_char, find_from, owned, same};

verus! {

/// Which records a consumer may see.
#[derive(Debug, Clone, Copy, PartialEq, Eq, Structural)]
pub enum Isolation {
    /// All records that the leader accepted.
    ReadUncommitted,
    /// Committed records only.
    ReadCommitted,
}

/// Where in the partition reading starts.
#[derive(Debug, Clone, Copy, PartialEq, Eq, Structural)]
pub enum Offset {
    /// At this offset.
    Absolute(i64),
    /// So many records behind the first.
    FromBeginning(u32),
    /// So many records before the end.
    FromEnd(u32),
    /// At the end: only records that arrive from now on.
    End,
}

/// The state that a transformation module starts from.
#[derive(Debug, Clone, PartialEq, Eq)]
pub enum SmartModuleContextData {
    Empty,
    Aggregate { accumulator: Vec<u8> },
}

/// One transformation module applied to the stream: its name, its starting
/// state and its parameters. The parameters are kept in the order given;
/// where a key occurs twice the later pair counts.
#[derive(Debug, Clone, PartialEq, Eq)]
pub struct SmartModuleInvocation {
    pub name: String,
    pub kind: SmartModuleContextData,
    pub params: Vec<(String, String)>,
}

/// One step of a transformation specification: the module it uses and the
/// parameters it is given.
#[derive(Debug, Clone, PartialEq, Eq)]
pub struct TransformationStep {
    pub uses: String,
    pub with: Vec<(String, String)>,
}

/// The transformations of a stream: resolved to modules, or still to be read
/// from a file.
#[derive(Debug, Clone, PartialEq, Eq)]
pub enum Transforms {
    Modules(Vec<SmartModuleInvocation>),
    File(String),
}

/// The configuration with which the stream is opened.
#[derive(Debug, Clone, PartialEq, Eq)]
pub struct ConsumerConfig {
    pub max_bytes: Option<i32>,
    pub smartmodule: Transforms,
    pub disable_continuous: bool,
    pub isolation: Option<Isolation>,
}

/// The options of one scan.
#[derive(Debug, Clone)]
pub struct ConsumeOpt {
    /// Topic name
    pub topic: String,
    /// Partition id
    pub partition: u32,
    /// Consume records from all partitions
    pub all_partitions: bool,
    /// Disable continuous processing of messages
    pub enable_continuous: bool,
    /// Consume records from the beginning of the log
    pub beginning: bool,
    /// Consume records starting so many from the beginning of the log
    pub head: Option<u32>,
    /// Consume records starting so many from the end of the log
    pub tail: Option<u32>,
    /// The absolute offset of the first record to begin consuming from
    pub start: Option<u32>,
    /// Largest number of rows that the scan hands out
    pub rows: u32,
    /// Consume records until end offset (inclusive)
    pub end: Option<u32>,
    /// Maximum number of bytes to be retrieved
    pub max_bytes: Option<i32>,
    /// Initial accumulator value of an aggregating module
    pub aggregate_initial: Option<String>,
    /// Extra parameters passed to the module
    pub params: Option<Vec<(String, String)>>,
    /// Isolation level that the consumer must respect
    pub isolation: Option<Isolation>,
    /// Name of the module
    pub smartmodule: Option<String>,
    /// Path to the module
    pub smartmodule_path: Option<String>,
    /// Path to a file with a transformation specification
    pub transforms_file: Option<String>,
    /// Transformation specifications as JSON text
    pub transform: Vec<String>,
    /// Column mapping, `name[:type]` and JSON path; the default columns
    /// where there is none
    pub columns: Vec<(String, String)>,
}

/// Number of starting positions that the options name.
pub open spec fn start_count(opt: ConsumeOpt) -> nat {
    (if opt.beginning { 1nat } else { 0nat }) + (if opt.head.is_some() { 1nat } else { 0nat })
        + (if opt.start.is_some() { 1nat } else { 0nat })
        + (if opt.tail.is_some() { 1nat } else { 0nat })
}

/// The start offset and the end offset where both are given and the end lies
/// before the start.
pub open spec fn crossing(opt: ConsumeOpt) -> Option<(u32, u32)> {
    match (opt.start, opt.end) {
        (Some(start), Some(end)) => if end < start {
            Some((start, end))
        } else {
            None
        },
        _ => None,
    }
}

/// Where reading starts: an error where more than one position is named or
/// the offsets cross, else the one position named, or the end where none is.
pub open spec fn start_offset(opt: ConsumeOpt) -> Result<Offset, ConfigError> {
    if start_count(opt) > 1 {
        Err(ConfigError::ConflictingStart)
    } else if let Some((start, end)) = crossing(opt) {
        Err(ConfigError::CrossingOffsets(start, end))
    } else if opt.beginning {
        Ok(Offset::FromBeginning(0))
    } else if let Some(n) = opt.head {
        Ok(Offset::FromBeginning(n))
    } else if let Some(n) = opt.start {
        Ok(Offset::Absolute(n as i64))
    } else if let Some(n) = opt.tail {
        Ok(Offset::FromEnd(n))
    } else {
        Ok(Offset::End)
    }
}

/// The three columns of a scan without column options.
pub open spec fn default_schema() -> Seq<ColumnModel> {
    seq![
        ColumnModel { name: "offset"@, ty: DuckDBTypeEnum::Ubigint, extractor: Extractor::Offset },
        ColumnModel {
            name: "timestamp"@,
            ty: DuckDBTypeEnum::TimestampMs,
            extractor: Extractor::Timestamp,
        },
        ColumnModel { name: "value"@, ty: DuckDBTypeEnum::Varchar, extractor: Extractor::RawValue },
    ]
}

/// The column that the option `name[:type]=path` declares.
pub open spec fn declared_column(option: (String, String)) -> ColumnModel {
    ColumnModel {
        name: column_name(option.0@),
        ty: column_type(option.0@),
        extractor: Extractor::JsonPath(option.1@),
    }
}

/// The columns that a list of column options asks for: the default columns
/// where the list is empty, else one column per option, in order.
pub open spec fn expected_schema(options: Seq<(String, String)>) -> Seq<ColumnModel> {
    if options.len() == 0 {
        default_schema()
    } else {
        Seq::new(options.len(), |i: int| declared_column(options[i]))
    }
}

/// The mathematical values of a list of columns.
pub open spec fn schema(columns: Seq<ColumnMapping>) -> Seq<ColumnModel> {
    Seq::new(columns.len(), |i: int| columns[i]@)
}

/// Position of the first column option whose path is not served; the number
/// of options where every path is.
pub open spec fn first_refused(options: Seq<(String, String)>, from: int) -> int
    decreases options.len() - from,
{
    if 0 <= from < options.len() {
        if path_is_served(options[from].1@) {
            first_refused(options, from + 1)
        } else {
            from
        }
    } else {
        options.len() as int
    }
}

/// The error for a path that is not served: invalid where it selects
/// nothing, unsupported where it holds a form that is not served.
pub open spec fn path_error(path: String) -> ConfigError {
    if path_class(path@) == PathClass::Empty {
        ConfigError::InvalidPath(path)
    } else {
        ConfigError::UnsupportedPath(path)
    }
}

impl ConsumeOpt {
    /// Options for `topic` with nothing else given: partition 0, a thousand
    /// rows, reading from the end.
    pub fn new(topic: String) -> (opt: ConsumeOpt)
        ensures
            opt.topic == topic,
            opt.partition == 0,
            !opt.all_partitions,
            !opt.enable_continuous,
            !opt.beginning,
            opt.head.is_none(),
            opt.tail.is_none(),
            opt.start.is_none(),
            opt.rows == 1000,
            opt.end.is_none(),
            opt.max_bytes.is_none(),
            opt.aggregate_initial.is_none(),
            opt.params.is_none(),
            opt.isolation.is_none(),
            opt.smartmodule.is_none(),
            opt.smartmodule_path.is_none(),
            opt.transforms_file.is_none(),
            opt.transform@.len() == 0,
            opt.columns@.len() == 0,
    {
        ConsumeOpt {
            topic,
            partition: 0,
            all_partitions: false,
            enable_continuous: false,
            beginning: false,
            head: None,
            tail: None,
            start: None,
            rows: 1000,
            end: None,
            max_bytes: None,
            aggregate_initial: None,
            params: None,
            isolation: None,
            smartmodule: None,
            smartmodule_path: None,
            transforms_file: None,
            transform: Vec::new(),
            columns: Vec::new(),
        }
    }

    /// Where reading starts.
    pub fn calculate_offset(&self) -> (offset: Result<Offset, ConfigError>)
        ensures
            offset == start_offset(*self),
    {
        let mut named: u8 = 0;
        if self.beginning {
            named = named + 1;
        }
        if self.head.is_some() {
            named = named + 1;
        }
        if self.start.is_some() {
            named = named + 1;
        }
        if self.tail.is_some() {
            named = named + 1;
        }
        if named > 1 {
            return Err(ConfigError::ConflictingStart);
        }
        if let Some(end_offset) = self.end {
            if let Some(start_offset) = self.start {
                if end_offset < start_offset {
                    return Err(ConfigError::CrossingOffsets(start_offset, end_offset));
                }
            }
        }

        let offset = if self.beginning {
            Offset::FromBeginning(0)
        } else if let Some(offset) = self.head {
            Offset::FromBeginning(offset)
        } else if let Some(offset) = self.start {
            Offset::Absolute(offset as i64)
        } else if let Some(offset) = self.tail {
            Offset::FromEnd(offset)
        } else {
            Offset::End
        };

        Ok(offset)
    }

    /// The result columns, in order: one per column option, or the three
    /// default columns where there is no option. The first option whose path
    /// is not served gives the error.
    pub fn columns_mappings(&self) -> (columns: Result<Vec<ColumnMapping>, ConfigError>)
        ensures
            match columns {
                Ok(list) => {
                    &&& first_refused(self.columns@, 0) == self.columns@.len()
                    &&& schema(list@) == expected_schema(self.columns@)
                },
                Err(error) => {
                    &&& first_refused(self.columns@, 0) < self.columns@.len()
                    &&& error == path_error(self.columns@[first_refused(self.columns@, 0)].1)
                },
            },
    {
        let mut columns: Vec<ColumnMapping> = Vec::new();
        let mut i: usize = 0;
        while i < self.columns.len()
            invariant
                i <= self.columns@.len(),
                columns@.len() == i,
                first_refused(self.columns@, 0) == first_refused(self.columns@, i as int),
                forall|j: int| 0 <= j < i ==> (#[trigger] columns@[j])@ == declared_column(self.columns@[j]),
            decreases self.columns@.len() - i,
        {
            let name = self.columns[i].0.clone();
            let json_map = self.columns[i].1.clone();
            match JqlMapper::new(json_map) {
                Ok(mapper) => {
                    columns.push(ColumnMapping::new(name, Mapping::Jql(mapper)));
                },
                Err(error) => {
                    return Err(error);
                },
            }
            i = i + 1;
        }

        if columns.len() == 0 {
            let mut defaults: Vec<ColumnMapping> = Vec::new();
            defaults.push(
                ColumnMapping {
                    name: owned("offset"),
                    mapping: Mapping::Offset(OffsetMapper()),
                    ty: DuckDBTypeEnum::Ubigint,
                },
            );
            defaults.push(
                ColumnMapping {
                    name: owned("timestamp"),
                    mapping: Mapping::Timestamp(TimestampMapper()),
                    ty: DuckDBTypeEnum::TimestampMs,
                },
            );
            defaults.push(
                ColumnMapping {
                    name: owned("value"),
                    mapping: Mapping::Value(ValueMapper()),
                    ty: DuckDBTypeEnum::Varchar,
                },
            );
            assert(schema(defaults@) =~= default_schema());
            Ok(defaults)
        } else {
            assert(schema(columns@) =~= Seq::new(
                self.columns@.len(),
                |i: int| declared_column(self.columns@[i]),
            ));
            Ok(columns)
        }
    }
}

/// The characters of a list of pairs.
pub open spec fn pairs_model(pairs: Seq<(String, String)>) -> Seq<(Seq<char>, Seq<char>)> {
    Seq::new(pairs.len(), |i: int| (pairs[i].0@, pairs[i].1@))
}

/// The characters of a list of texts.
pub open spec fn texts(list: Seq<String>) -> Seq<Seq<char>> {
    Seq::new(list.len(), |i: int| list[i]@)
}

/// Mathematical value of a [`TransformationStep`].
pub struct StepModel {
    pub uses: Seq<char>,
    pub with: Seq<(Seq<char>, Seq<char>)>,
}

impl View for TransformationStep {
    type V = StepModel;

    open spec fn view(&self) -> StepModel {
        StepModel { uses: self.uses@, with: pairs_model(self.with@) }
    }
}

/// The mathematical values of a list of steps.
pub open spec fn steps_model(steps: Seq<TransformationStep>) -> Seq<StepModel> {
    Seq::new(steps.len(), |i: int| steps[i]@)
}

/// The steps that a list of transformation specifications, each a JSON
/// text, stands for; the reader's message where one of them cannot be read.
pub uninterp spec fn transformation_steps(specs: Seq<Seq<char>>) -> Result<Seq<StepModel>, Seq<char>>;

/// Reads the specifications with `TransformationConfig::try_from` of
/// `fluvio_smartengine`.
///
/// Trusted: the steps, or the message of the first specification that
/// cannot be read, depend on the texts only. Of each step the module's name
/// and its parameters are handed out.
#[verifier::external_body]
fn read_transformation(specs: &Vec<String>) -> (steps: Result<Vec<TransformationStep>, String>)
    ensures
        match steps {
            Ok(list) => transformation_steps(texts(specs@)) == Ok::<Seq<StepModel>, Seq<char>>(
                steps_model(list@),
            ),
            Err(message) => transformation_steps(texts(specs@)) == Err::<Seq<StepModel>, Seq<char>>(
                message@,
            ),
        },
{
    match fluvio_smartengine::transformation::TransformationConfig::try_from(specs.clone()) {
        Ok(config) => Ok(
            config.transforms.into_iter().map(
                |t| TransformationStep {
                    uses: t.uses,
                    with: t.with.into_iter().map(|(k, v)| (k, v.into())).collect(),
                },
            ).collect(),
        ),
        Err(err) => Err(err.to_string()),
    }
}

/// Mathematical value of a starting state.
pub enum KindModel {
    Empty,
    Aggregate(Seq<u8>),
}

/// Mathematical value of a [`SmartModuleInvocation`].
pub struct ModuleModel {
    pub name: Seq<char>,
    pub kind: KindModel,
    pub params: Seq<(Seq<char>, Seq<char>)>,
}

/// Mathematical value of [`Transforms`].
pub enum TransformsModel {
    Modules(Seq<ModuleModel>),
    File(Seq<char>),
}

/// Mathematical value of a [`ConsumerConfig`].
pub struct ConfigModel {
    pub max_bytes: Option<i32>,
    pub smartmodule: TransformsModel,
    pub disable_continuous: bool,
    pub isolation: Option<Isolation>,
}

impl View for SmartModuleContextData {
    type V = KindModel;

    open spec fn view(&self) -> KindModel {
        match *self {
            SmartModuleContextData::Empty => KindModel::Empty,
            SmartModuleContextData::Aggregate { accumulator } => KindModel::Aggregate(accumulator@),
        }
    }
}

impl View for SmartModuleInvocation {
    type V = ModuleModel;

    open spec fn view(&self) -> ModuleModel {
        ModuleModel { name: self.name@, kind: self.kind@, params: pairs_model(self.params@) }
    }
}

impl View for Transforms {
    type V = TransformsModel;

    open spec fn view(&self) -> TransformsModel {
        match *self {
            Transforms::Modules(list) => TransformsModel::Modules(
                Seq::new(list@.len(), |i: int| list@[i]@),
            ),
            Transforms::File(path) => TransformsModel::File(path@),
        }
    }
}

impl View for ConsumerConfig {
    type V = ConfigModel;

    open spec fn view(&self) -> ConfigModel {
        ConfigModel {
            max_bytes: self.max_bytes,
            smartmodule: self.smartmodule@,
            disable_continuous: self.disable_continuous,
            isolation: self.isolation,
        }
    }
}

/// The module that one step asks for: the module it uses, with no starting
/// state and the step's parameters.
pub open spec fn step_module(step: StepModel) -> ModuleModel {
    ModuleModel { name: step.uses, kind: KindModel::Empty, params: step.with }
}

/// The starting state that the options ask for: the bytes of the initial
/// accumulator, where one is given.
pub open spec fn module_context(opt: ConsumeOpt) -> KindModel {
    match opt.aggregate_initial {
        Some(initial) => KindModel::Aggregate(encode_utf8(initial@)),
        None => KindModel::Empty,
    }
}

/// The parameters that the options give, none where there are none.
pub open spec fn module_params(opt: ConsumeOpt) -> Seq<(Seq<char>, Seq<char>)> {
    match opt.params {
        Some(params) => pairs_model(params@),
        None => pairs_model(Seq::empty()),
    }
}

/// The transformations of the stream, given what the inline specifications
/// read as: the named module alone; else the modules of the inline
/// specifications, or the message where they cannot be read; else the file;
/// else none.
pub open spec fn resolved_transforms(
    opt: ConsumeOpt,
    inline: Result<Seq<StepModel>, Seq<char>>,
) -> Result<TransformsModel, Seq<char>> {
    if let Some(name) = opt.smartmodule {
        Ok(
            TransformsModel::Modules(
                seq![
                    ModuleModel {
                        name: name@,
                        kind: module_context(opt),
                        params: module_params(opt),
                    },
                ],
            ),
        )
    } else if opt.transform@.len() > 0 {
        match inline {
            Ok(steps) => Ok(
                TransformsModel::Modules(Seq::new(steps.len(), |i: int| step_module(steps[i]))),
            ),
            Err(message) => Err("unable to parse `transform` argument: "@ + message),
        }
    } else if let Some(path) = opt.transforms_file {
        Ok(TransformsModel::File(path@))
    } else {
        Ok(TransformsModel::Modules(Seq::empty()))
    }
}

/// The consumer's configuration, given what the inline specifications read
/// as.
pub open spec fn resolved_config(
    opt: ConsumeOpt,
    inline: Result<Seq<StepModel>, Seq<char>>,
) -> Result<ConfigModel, Seq<char>> {
    match resolved_transforms(opt, inline) {
        Ok(smartmodule) => Ok(
            ConfigModel {
                max_bytes: opt.max_bytes,
                smartmodule,
                disable_continuous: !opt.enable_continuous,
                isolation: opt.isolation,
            },
        ),
        Err(message) => Err(message),
    }
}

/// The isolation level that `s` names.
pub open spec fn isolation_named(s: Seq<char>) -> Option<Isolation> {
    if s == "read_committed"@ || s == "ReadCommitted"@ || s == "readCommitted"@ || s
        == "readcommitted"@ {
        Some(Isolation::ReadCommitted)
    } else if s == "read_uncommitted"@ || s == "ReadUncommitted"@ || s == "readUncommitted"@ || s
        == "readuncommitted"@ {
        Some(Isolation::ReadUncommitted)
    } else {
        None
    }
}

/// A copy of a list of pairs.
pub fn copy_pairs(pairs: &Vec<(String, String)>) -> (copy: Vec<(String, String)>)
    ensures
        copy@ == pairs@,
{
    let mut copy: Vec<(String, String)> = Vec::new();
    let mut i: usize = 0;
    while i < pairs.len()
        invariant
            i <= pairs@.len(),
            copy@ == pairs@.subrange(0, i as int),
        decreases pairs@.len() - i,
    {
        copy.push((pairs[i].0.clone(), pairs[i].1.clone()));
        assert(pairs@.subrange(0, i + 1) =~= pairs@.subrange(0, i as int).push(pairs@[i as int]));
        i = i + 1;
    }
    assert(pairs@.subrange(0, i as int) =~= pairs@);
    copy
}

impl ConsumeOpt {
    /// The consumer's configuration. Inline transformation specifications
    /// are read here; a transformation file is named, not read.
    pub fn generate_config(&self) -> (config: Result<ConsumerConfig, ConfigError>)
        ensures
            match config {
                Ok(c) => resolved_config(*self, transformation_steps(texts(self.transform@))) == Ok::<
                    ConfigModel,
                    Seq<char>,
                >(c@),
                Err(error) => error matches ConfigError::Transform(message) && resolved_config(
                    *self,
                    transformation_steps(texts(self.transform@)),
                ) == Err::<ConfigModel, Seq<char>>(message@),
            },
    {
        let initial_param = match &self.params {
            None => Vec::new(),
            Some(params) => copy_pairs(params),
        };
        assert(pairs_model(initial_param@) =~= module_params(*self));

        let smart_module = if let Some(smart_module_name) = &self.smartmodule {
            let mut list: Vec<SmartModuleInvocation> = Vec::new();
            list.push(create_smartmodule(smart_module_name.as_str(), self.smart_module_ctx(), initial_param));
            assert(Transforms::Modules(list)@ =~= resolved_transforms(
                *self,
                transformation_steps(texts(self.transform@)),
            )->Ok_0) by {
                assert(Seq::new(list@.len(), |i: int| list@[i]@) =~= seq![list@[0]@]);
            }
            Transforms::Modules(list)
        } else if self.transform.len() > 0 {
            match read_transformation(&self.transform) {
                Ok(steps) => {
                    let ghost given = steps@;
                    match create_smartmodule_list(steps) {
                        Ok(list) => {
                            assert(Seq::new(given.len(), |i: int| step_module(given[i]@)) =~= Seq::new(
                                steps_model(given).len(),
                                |i: int| step_module(steps_model(given)[i]),
                            ));
                            Transforms::Modules(list)
                        },
                        Err(error) => {
                            return Err(error);
                        },
                    }
                },
                Err(err) => {
                    let message = owned("unable to parse `transform` argument: ").concat(err.as_str());
                    return Err(ConfigError::Transform(message));
                },
            }
        } else if let Some(transforms_file) = &self.transforms_file {
            Transforms::File(transforms_file.clone())
        } else {
            let list: Vec<SmartModuleInvocation> = Vec::new();
            assert(Transforms::Modules(list)@ =~= TransformsModel::Modules(Seq::empty())) by {
                assert(Seq::new(list@.len(), |i: int| list@[i]@) =~= Seq::<ModuleModel>::empty());
            }
            Transforms::Modules(list)
        };

        Ok(
            ConsumerConfig {
                max_bytes: self.max_bytes,
                smartmodule: smart_module,
                disable_continuous: !self.enable_continuous,
                isolation: self.isolation,
            },
        )
    }

    /// The starting state of the named module.
    pub fn smart_module_ctx(&self) -> (ctx: SmartModuleContextData)
        ensures
            ctx@ == module_context(*self),
    {
        if let Some(agg_initial) = &self.aggregate_initial {
            SmartModuleContextData::Aggregate { accumulator: agg_initial.as_str().as_bytes_vec() }
        } else {
            SmartModuleContextData::Empty
        }
    }
}

/// Splits `KEY=value` at its first `=`.
pub fn parse_key_val(s: &str) -> (pair: Result<(String, String), ConfigError>)
    ensures
        match pair {
            Ok((key, value)) => {
                &&& find_from(s@, '=', 0) < s@.len()
                &&& key@ == s@.subrange(0, find_from(s@, '=', 0))
                &&& value@ == s@.subrange(find_from(s@, '=', 0) + 1, s@.len() as int)
            },
            Err(error) => {
                &&& find_from(s@, '=', 0) == s@.len()
                &&& error matches ConfigError::MissingEquals(argument)
                &&& argument@ == s@
            },
        },
{
    let len = s.unicode_len();
    let pos = find_char(s, '=', 0);
    if pos == len {
        return Err(ConfigError::MissingEquals(owned(s)));
    }
    Ok((cut(s, 0, pos), cut(s, pos + 1, len)))
}

/// The isolation level that `s` names, or a message that lists the names.
pub fn parse_isolation(s: &str) -> (level: Result<Isolation, String>)
    ensures
        match level {
            Ok(isolation) => isolation_named(s@) == Some(isolation),
            Err(message) => isolation_named(s@).is_none() && message@ == "unrecognized isolation: "@
                + s@
                + ". Supported: read_committed (ReadCommitted), read_uncommitted (ReadUncommitted)"@,
        },
{
    if same(s, "read_committed") || same(s, "ReadCommitted") || same(s, "readCommitted") || same(
        s,
        "readcommitted",
    ) {
        Ok(Isolation::ReadCommitted)
    } else if same(s, "read_uncommitted") || same(s, "ReadUncommitted") || same(s, "readUncommitted")
        || same(s, "readuncommitted") {
        Ok(Isolation::ReadUncommitted)
    } else {
        Err(
            owned("unrecognized isolation: ").concat(s).concat(
                ". Supported: read_committed (ReadCommitted), read_uncommitted (ReadUncommitted)",
            ),
        )
    }
}

/// The invocation of the module `name` with the starting state `ctx` and the
/// parameters `params`.
pub fn create_smartmodule(
    name: &str,
    ctx: SmartModuleContextData,
    params: Vec<(String, String)>,
) -> (module: SmartModuleInvocation)
    ensures
        module.name@ == name@,
        module.kind == ctx,
        module.params == params,
{
    SmartModuleInvocation { name: owned(name), kind: ctx, params }
}

/// create list of smartmodules from a list of transformations
pub fn create_smartmodule_list(config: Vec<TransformationStep>) -> (modules: Result<
    Vec<SmartModuleInvocation>,
    ConfigError,
>)
    ensures
        modules matches Ok(list) && Transforms::Modules(list)@ == TransformsModel::Modules(
            Seq::new(config@.len(), |i: int| step_module(config@[i]@)),
        ),
{
    let mut list: Vec<SmartModuleInvocation> = Vec::new();
    let mut i: usize = 0;
    while i < config.len()
        invariant
            i <= config@.len(),
            list@.len() == i,
            forall|j: int| 0 <= j < i ==> (#[trigger] list@[j])@ == step_module(config@[j]@),
        decreases config@.len() - i,
    {
        let step = &config[i];
        list.push(
            SmartModuleInvocation {
                name: step.uses.clone(),
                kind: SmartModuleContextData::Empty,
                params: copy_pairs(&step.with),
            },
        );
        i = i + 1;
    }
    assert(Seq::new(list@.len(), |i: int| list@[i]@) =~= Seq::new(
        config@.len(),
        |i: int| step_module(config@[i]@),
    ));
    Ok(list)
}

} // verus!
