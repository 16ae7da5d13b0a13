//! JSON documents and the paths that select from them.
//!
//! Parsing the payload is the work of `serde_json`, parsing a path and
//! walking a document along it the work of `jql`, reading a timestamp the
//! work of `chrono`. This module holds the calls, the plain values that come
//! back from them, and the decision which paths a column may use.
//!
//! A path is refused where the path engine can end in a panic: square
//! brackets that hold a blank, start with a comma or hold a number too long
//! for the machine, which the engine cannot read as indexes; a range that
//! counts down, that starts behind the first element and runs to the end,
//! or that is the first of several selectors; and a property selector with an
//! index, a range or the whole array in it. Every
//! other path that selects something is served. Where a path has several
//! groups, or a selector with several indexes or properties, and more than
//! one of them fails, the engine reports whichever failure a worker thread
//! finds first; such a path is served, and of what it gives only this is
//! said: the cell is written as some selection asks.

use vstd::prelude::*;
use jql::{selectors_parser, Filter, Selector};

verus! {

/// How far a path has been read.
pub struct PathScan {
    /// Inside a quoted name.
    pub quoted: bool,
    /// Inside a quoted name, directly behind a backslash.
    pub escaped: bool,
    /// Inside curly brackets.
    pub braced: bool,
    /// Inside square brackets.
    pub bracketed: bool,
    /// Directly behind an opening square bracket.
    pub opened: bool,
    /// Length of the run of digits that ends here, inside square brackets.
    pub digits: nat,
}

/// Longest run of digits that an index may have; a number of so many
/// digits fits the machine's index type everywhere.
pub const MAX_INDEX_DIGITS: usize = 9;

pub open spec fn is_digit(c: char) -> bool {
    '0' <= c && c <= '9'
}

/// The state before the first character.
pub open spec fn scan_start() -> PathScan {
    PathScan {
        quoted: false,
        escaped: false,
        braced: false,
        bracketed: false,
        opened: false,
        digits: 0,
    }
}

/// Whether `c` may follow in state `at`. Outside quoted names these may
/// not: a square bracket inside curly brackets; inside square brackets a
/// blank, a comma directly behind the opening bracket, and a tenth digit in
/// a row.
pub open spec fn scan_accepts(at: PathScan, c: char) -> bool {
    at.quoted || {
        &&& !(at.braced && c == '[')
        &&& !(at.bracketed && c == ' ')
        &&& !(at.opened && c == ',')
        &&& at.bracketed && is_digit(c) ==> at.digits < MAX_INDEX_DIGITS
    }
}

/// The state behind `c`, read in state `at`.
pub open spec fn scan_next(at: PathScan, c: char) -> PathScan {
    if at.quoted {
        if at.escaped {
            PathScan { escaped: false, ..at }
        } else if c == '\\' {
            PathScan { escaped: true, ..at }
        } else {
            PathScan { quoted: c != '"', ..at }
        }
    } else if c == '"' {
        PathScan { quoted: true, escaped: false, opened: false, digits: 0, ..at }
    } else if c == '[' {
        PathScan { bracketed: true, opened: true, digits: 0, ..at }
    } else if c == ']' {
        PathScan { bracketed: false, opened: false, digits: 0, ..at }
    } else if c == '{' {
        PathScan { braced: true, opened: false, ..at }
    } else if c == '}' {
        PathScan { braced: false, opened: false, ..at }
    } else if at.bracketed && is_digit(c) {
        PathScan { opened: false, digits: at.digits + 1, ..at }
    } else {
        PathScan { opened: false, digits: 0, ..at }
    }
}

/// Whether every character of `path` from position `from` on is accepted,
/// reading on from state `at`.
pub open spec fn scan_from(path: Seq<char>, from: int, at: PathScan) -> bool
    decreases path.len() - from,
{
    if 0 <= from < path.len() {
        scan_accepts(at, path[from]) && scan_from(path, from + 1, scan_next(at, path[from]))
    } else {
        true
    }
}

/// A path is readable when, outside quoted names, no square bracket holds a
/// blank, starts with a comma or holds more than nine digits in a row, and
/// no curly bracket holds a square one. The path engine takes such a path
/// apart without a panic, and finds no property selector with an index, a
/// range or the whole array in it.
pub open spec fn path_is_readable(path: Seq<char>) -> bool {
    scan_from(path, 0, scan_start())
}

/// Decides [`path_is_readable`].
pub fn check_path_readable(path: &str) -> (readable: bool)
    ensures
        readable == path_is_readable(path@),
{
    let len = path.unicode_len();
    let mut quoted = false;
    let mut escaped = false;
    let mut braced = false;
    let mut bracketed = false;
    let mut opened = false;
    let mut digits: usize = 0;
    let mut i: usize = 0;
    while i < len
        invariant
            len == path@.len(),
            i <= len,
            digits <= MAX_INDEX_DIGITS,
            path_is_readable(path@) == scan_from(
                path@,
                i as int,
                PathScan { quoted, escaped, braced, bracketed, opened, digits: digits as nat },
            ),
        decreases len - i,
    {
        let c = path.get_char(i);
        let digit = '0' <= c && c <= '9';
        if quoted {
            if escaped {
                escaped = false;
            } else if c == '\\' {
                escaped = true;
            } else if c == '"' {
                quoted = false;
            }
        } else {
            if (braced && c == '[') || (bracketed && c == ' ') || (opened && c == ',') {
                return false;
            }
            if bracketed && digit && digits >= MAX_INDEX_DIGITS {
                return false;
            }
            opened = false;
            if c == '"' {
                quoted = true;
                escaped = false;
                digits = 0;
            } else if c == '[' {
                bracketed = true;
                opened = true;
                digits = 0;
            } else if c == ']' {
                bracketed = false;
                digits = 0;
            } else if c == '{' {
                braced = true;
            } else if c == '}' {
                braced = false;
            } else if bracketed && digit {
                digits = digits + 1;
            } else {
                digits = 0;
            }
        }
        i = i + 1;
    }
    true
}

/// The kind of one selector or filter of a path.
#[derive(Debug, Clone, Copy, PartialEq, Eq, Structural)]
pub enum Step {
    /// A property by its quoted name.
    Name,
    /// Elements of an array by so many indexes.
    Index(usize),
    /// The whole array.
    Array,
    /// A range of an array, from its start to its end where they are given.
    Range(Option<usize>, Option<usize>),
    /// So many properties of an object.
    Object(usize),
    /// A lens, which keeps the elements that have a property.
    Lens,
}

/// One comma-separated group of a parsed path: whether it starts at the
/// root marker, its selectors and its filters.
#[derive(Debug, Clone, PartialEq, Eq)]
pub struct PathGroup {
    pub rooted: bool,
    pub selectors: Vec<Step>,
    pub filters: Vec<Step>,
}

/// Mathematical value of a [`PathGroup`].
pub struct GroupModel {
    pub rooted: bool,
    pub selectors: Seq<Step>,
    pub filters: Seq<Step>,
}

impl View for PathGroup {
    type V = GroupModel;

    open spec fn view(&self) -> GroupModel {
        GroupModel { rooted: self.rooted, selectors: self.selectors@, filters: self.filters@ }
    }
}

/// The mathematical values of a list of groups.
pub open spec fn groups_model(groups: Seq<PathGroup>) -> Seq<GroupModel> {
    Seq::new(groups.len(), |i: int| groups[i]@)
}

/// The groups that the path grammar finds in `path`, or the grammar's message.
pub uninterp spec fn path_groups(path: Seq<char>) -> Result<Seq<GroupModel>, Seq<char>>;

/// Parses `path` with `jql::selectors_parser`.
///
/// Trusted: on a readable path the call returns, and the groups or the
/// message depend on the path only. Of each selector and filter its kind is
/// handed out, with the number of its indexes or properties or the bounds
/// of its range.
#[verifier::external_body]
fn parse_selectors(path: &str) -> (groups: Result<Vec<PathGroup>, String>)
    requires
        path_is_readable(path@),
    ensures
        match groups {
            Ok(list) => path_groups(path@) == Ok::<Seq<GroupModel>, Seq<char>>(groups_model(list@)),
            Err(message) => path_groups(path@) == Err::<Seq<GroupModel>, Seq<char>>(message@),
        },
{
    let step = |s: &Selector| match s {
        Selector::Default(_) => Step::Name,
        Selector::Index(list) => Step::Index(list.len()),
        Selector::Array => Step::Array,
        Selector::Range(r) => Step::Range(r.0, r.1),
        Selector::Object(list) => Step::Object(list.len()),
    };
    let sift = |f: &Filter| match f {
        Filter::Default(s) => step(s),
        Filter::Lens(_) => Step::Lens,
    };
    Ok(selectors_parser(path)?.iter().map(|g| PathGroup { rooted: g.root.is_some(), selectors: g.selectors.iter().map(step).collect(), filters: g.filters.iter().map(sift).collect() }).collect())
}

/// What the library makes of a path.
#[derive(Debug, Clone, Copy, PartialEq, Eq, Structural)]
pub enum PathClass {
    /// The path selects nothing: the grammar finds no group in it, or a
    /// group without a selector that does not start at the root.
    Empty,
    /// The path holds a form on which the path engine can end in a panic.
    Unsupported,
    /// What the path selects depends on the document and the path alone.
    Steady,
    /// The path is served; where more than one of its groups, indexes or
    /// properties fails, which message it gives is open.
    Unsteady,
}

/// Whether the path engine walks a step without a panic on every document.
/// A range does not where it counts down, or starts behind the first
/// element and runs to the end: the engine then fails on an array that is as
/// long as the start. Nor does it as the first of several selectors, where the
/// engine fails on an array that the range does not fit.
pub open spec fn step_is_safe(step: Step, first_of_several: bool) -> bool {
    match step {
        Step::Range(start, end) => !first_of_several && match (start, end) {
            (None, _) => true,
            (Some(from), Some(to)) => from <= to,
            (Some(from), None) => from == 0,
        },
        _ => true,
    }
}

/// Whether every selector of a group is safe.
pub open spec fn selectors_are_safe(steps: Seq<Step>) -> bool {
    forall|i: int|
        0 <= i < steps.len() ==> step_is_safe(#[trigger] steps[i], i == 0 && steps.len() > 1)
}

/// Whether every filter of a group is safe.
pub open spec fn filters_are_safe(steps: Seq<Step>) -> bool {
    forall|i: int| 0 <= i < steps.len() ==> step_is_safe(#[trigger] steps[i], false)
}

/// Whether a step names one thing: one index, one property.
pub open spec fn step_is_single(step: Step) -> bool {
    match step {
        Step::Index(count) => count == 1,
        Step::Object(count) => count == 1,
        _ => true,
    }
}

/// Whether every step names one thing.
pub open spec fn all_single(steps: Seq<Step>) -> bool {
    forall|i: int| 0 <= i < steps.len() ==> step_is_single(#[trigger] steps[i])
}

/// A group selects something when it has a selector or starts at the root.
pub open spec fn group_selects(group: GroupModel) -> bool {
    group.selectors.len() > 0 || group.rooted
}

/// Whether there is a group and every group selects something.
pub open spec fn groups_select(groups: Seq<GroupModel>) -> bool {
    groups.len() > 0 && forall|i: int| 0 <= i < groups.len() ==> group_selects(#[trigger] groups[i])
}

/// Whether every selector and filter of every group is safe.
pub open spec fn groups_are_safe(groups: Seq<GroupModel>) -> bool {
    forall|i: int|
        0 <= i < groups.len() ==> selectors_are_safe((#[trigger] groups[i]).selectors)
            && filters_are_safe(groups[i].filters)
}

/// Whether there is one group whose every selector and filter names one
/// thing.
pub open spec fn groups_are_steady(groups: Seq<GroupModel>) -> bool {
    groups.len() == 1 && all_single(groups[0].selectors) && all_single(groups[0].filters)
}

/// What the library makes of parsed groups: nothing selected, a range that
/// is not safe, or served, steadily or not.
pub open spec fn groups_class(groups: Seq<GroupModel>) -> PathClass {
    if !groups_select(groups) {
        PathClass::Empty
    } else if !groups_are_safe(groups) {
        PathClass::Unsupported
    } else if groups_are_steady(groups) {
        PathClass::Steady
    } else {
        PathClass::Unsteady
    }
}

/// What the library makes of a path: unsupported where it is not readable,
/// empty where the grammar refuses it, else what its groups say.
pub open spec fn path_class(path: Seq<char>) -> PathClass {
    if !path_is_readable(path) {
        PathClass::Unsupported
    } else {
        match path_groups(path) {
            Ok(groups) => groups_class(groups),
            Err(_) => PathClass::Empty,
        }
    }
}

/// Whether a column may use the path.
pub open spec fn path_is_served(path: Seq<char>) -> bool {
    path_class(path) == PathClass::Steady || path_class(path) == PathClass::Unsteady
}

/// Computes [`selectors_are_safe`] where `selectors` is set, else
/// [`filters_are_safe`].
pub fn steps_are_safe(steps: &Vec<Step>, selectors: bool) -> (safe: bool)
    ensures
        safe == (if selectors {
            selectors_are_safe(steps@)
        } else {
            filters_are_safe(steps@)
        }),
{
    let several = selectors && steps.len() > 1;
    let mut i: usize = 0;
    while i < steps.len()
        invariant
            i <= steps@.len(),
            several == (selectors && steps@.len() > 1),
            forall|j: int| 0 <= j < i ==> step_is_safe(#[trigger] steps@[j], j == 0 && several),
        decreases steps@.len() - i,
    {
        let safe = match steps[i] {
            Step::Range(start, end) => !(i == 0 && several) && match (start, end) {
                (None, _) => true,
                (Some(from), Some(to)) => from <= to,
                (Some(from), None) => from == 0,
            },
            _ => true,
        };
        if !safe {
            assert(!step_is_safe(steps@[i as int], i == 0 && several));
            return false;
        }
        i = i + 1;
    }
    true
}

/// Computes [`all_single`].
pub fn steps_are_single(steps: &Vec<Step>) -> (single: bool)
    ensures
        single == all_single(steps@),
{
    let mut i: usize = 0;
    while i < steps.len()
        invariant
            i <= steps@.len(),
            forall|j: int| 0 <= j < i ==> step_is_single(#[trigger] steps@[j]),
        decreases steps@.len() - i,
    {
        let single = match steps[i] {
            Step::Index(count) => count == 1,
            Step::Object(count) => count == 1,
            _ => true,
        };
        if !single {
            assert(!step_is_single(steps@[i as int]));
            return false;
        }
        i = i + 1;
    }
    true
}

/// Computes [`groups_class`].
pub fn classify(groups: &Vec<PathGroup>) -> (class: PathClass)
    ensures
        class == groups_class(groups_model(groups@)),
{
    let ghost model = groups_model(groups@);
    if groups.len() == 0 {
        return PathClass::Empty;
    }
    let mut safe = true;
    let mut i: usize = 0;
    while i < groups.len()
        invariant
            i <= groups@.len(),
            model == groups_model(groups@),
            forall|j: int| 0 <= j < i ==> group_selects(#[trigger] model[j]),
            safe == (forall|j: int|
                0 <= j < i ==> selectors_are_safe((#[trigger] model[j]).selectors)
                    && filters_are_safe(model[j].filters)),
        decreases groups@.len() - i,
    {
        let group = &groups[i];
        assert(model[i as int] == group@);
        if group.selectors.len() == 0 && !group.rooted {
            assert(!group_selects(model[i as int]));
            return PathClass::Empty;
        }
        if !steps_are_safe(&group.selectors, true) || !steps_are_safe(&group.filters, false) {
            safe = false;
        }
        i = i + 1;
    }
    if !safe {
        return PathClass::Unsupported;
    }
    assert(model[0] == groups@[0]@);
    if groups.len() == 1 && steps_are_single(&groups[0].selectors) && steps_are_single(
        &groups[0].filters,
    ) {
        PathClass::Steady
    } else {
        PathClass::Unsteady
    }
}

/// Decides [`path_class`].
pub fn check_path(path: &str) -> (class: PathClass)
    ensures
        class == path_class(path@),
{
    if !check_path_readable(path) {
        return PathClass::Unsupported;
    }
    match parse_selectors(path) {
        Err(_) => PathClass::Empty,
        Ok(groups) => classify(&groups),
    }
}

/// A JSON document, as `serde_json` holds it.
#[verifier::external_type_specification]
#[verifier::external_body]
pub struct ExJsonValue(serde_json::Value);

/// The document that `payload` reads as, or the parser's message where it is
/// no JSON document.
pub uninterp spec fn json_document(payload: Seq<u8>) -> Result<serde_json::Value, Seq<char>>;

/// Parses `payload` with `serde_json::from_slice`.
///
/// Trusted: the document or the message depends on the payload only.
#[verifier::external_body]
pub(crate) fn parse_json(payload: &[u8]) -> (doc: Result<serde_json::Value, String>)
    ensures
        match doc {
            Ok(value) => json_document(payload@) == Ok::<serde_json::Value, Seq<char>>(value),
            Err(message) => json_document(payload@) == Err::<serde_json::Value, Seq<char>>(message@),
        },
{
    serde_json::from_slice(payload).map_err(|err| err.to_string())
}

/// What a path selects from a JSON document.
#[derive(Debug, Clone, PartialEq, Eq)]
pub enum JsonFound {
    /// Nothing: the message with which the walk failed.
    Missing(String),
    Null,
    Bool(bool),
    /// A number: as a signed 64-bit integer where it is one, and as the bit
    /// pattern of a double-precision number where it has one.
    Number(Option<i64>, Option<u64>),
    Text(String),
    /// An array or an object, as compact JSON text.
    Composite(String),
}

/// Mathematical value of a [`JsonFound`].
pub enum FoundModel {
    Missing(Seq<char>),
    Null,
    Bool(bool),
    Number(Option<i64>, Option<u64>),
    Text(Seq<char>),
    Composite(Seq<char>),
}

impl View for JsonFound {
    type V = FoundModel;

    open spec fn view(&self) -> FoundModel {
        match *self {
            JsonFound::Missing(message) => FoundModel::Missing(message@),
            JsonFound::Null => FoundModel::Null,
            JsonFound::Bool(flag) => FoundModel::Bool(flag),
            JsonFound::Number(whole, double) => FoundModel::Number(whole, double),
            JsonFound::Text(text) => FoundModel::Text(text@),
            JsonFound::Composite(text) => FoundModel::Composite(text@),
        }
    }
}

/// What the steady path `path` selects from the document `doc`.
pub uninterp spec fn json_walk(doc: serde_json::Value, path: Seq<char>) -> FoundModel;

/// Walks the document with `jql::walker`.
///
/// Trusted: on a served path the call returns; on a steady path what it
/// returns depends on the document and the path only. Of other served
/// paths nothing is said. A number is handed out through
/// `serde_json::Number::as_i64` and `as_f64`, an array or object through its
/// `Display` text.
#[verifier::external_body]
pub(crate) fn walk_json(doc: &serde_json::Value, path: &str) -> (found: JsonFound)
    requires
        path_is_served(path@),
    ensures
        path_class(path@) == PathClass::Steady ==> found@ == json_walk(*doc, path@),
{
    match jql::walker(doc, path) {
        Err(message) => JsonFound::Missing(message),
        Ok(serde_json::Value::Null) => JsonFound::Null,
        Ok(serde_json::Value::Bool(flag)) => JsonFound::Bool(flag),
        Ok(serde_json::Value::String(text)) => JsonFound::Text(text),
        Ok(serde_json::Value::Number(n)) => JsonFound::Number(n.as_i64(), n.as_f64().map(|x| x.to_bits())),
        Ok(other) => JsonFound::Composite(other.to_string()),
    }
}

/// Whether `found` can be what the served path `path` selects from the
/// document that `payload` reads as: on a steady path it is what the path
/// selects.
pub open spec fn can_select(payload: Seq<u8>, path: Seq<char>, found: FoundModel) -> bool {
    json_document(payload) matches Ok(doc) && (path_class(path) == PathClass::Steady ==> found
        == json_walk(doc, path))
}

/// Selects from the JSON document `payload` along `path`: `None` where the
/// path is not served, the parser's message where the payload is no JSON
/// document, else what the path selects.
pub fn select(payload: &[u8], path: &str) -> (found: Option<Result<JsonFound, String>>)
    ensures
        match found {
            None => !path_is_served(path@),
            Some(Err(message)) => path_is_served(path@) && json_document(payload@) == Err::<
                serde_json::Value,
                Seq<char>,
            >(message@),
            Some(Ok(value)) => path_is_served(path@) && can_select(payload@, path@, value@),
        },
{
    match check_path(path) {
        PathClass::Steady => {},
        PathClass::Unsteady => {},
        _ => {
            return None;
        },
    }
    match parse_json(payload) {
        Err(message) => Some(Err(message)),
        Ok(doc) => Some(Ok(walk_json(&doc, path))),
    }
}

/// The instant that `text` denotes as an RFC 3339 date and time, in
/// milliseconds since the Unix epoch; `None` where it denotes none.
pub uninterp spec fn rfc3339_millis(text: Seq<char>) -> Option<i64>;

/// Reads `text` with `chrono::DateTime::parse_from_rfc3339` and converts the
/// instant with `timestamp_millis`.
///
/// Trusted: the outcome depends on the text only; `None` stands for the
/// parser's error.
#[verifier::external_body]
pub(crate) fn parse_rfc3339(text: &str) -> (millis: Option<i64>)
    ensures
        millis == rfc3339_millis(text@),
{
    chrono::DateTime::parse_from_rfc3339(text).ok().map(|instant| instant.timestamp_millis())
}

} // verus!
