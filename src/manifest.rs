//! The tool manifest: a YAML list of tool records, decoded with serde_yaml
//! and checked against the schema field by field.

use vstd::prelude::*;
use serde_yaml::value::TaggedValue;
use serde_yaml::{Mapping, Number, Value};

verus! {

/// serde_yaml's YAML number, carried through unread.
#[verifier::external_type_specification]
#[verifier::external_body]
pub struct ExNumber(Number);

/// serde_yaml's YAML mapping; it is read only through `value_under`.
#[verifier::external_type_specification]
#[verifier::external_body]
pub struct ExMapping(Mapping);

/// serde_yaml's tagged YAML value, carried through unread.
#[verifier::external_type_specification]
#[verifier::external_body]
pub struct ExTaggedValue(TaggedValue);

/// serde_yaml's tree of a YAML value (null, flag, number, string, list,
/// mapping, tagged value). Its variants are visible here, so that the schema
/// check can tell a string from a flag or a mapping.
#[verifier::external_type_specification]
pub struct ExValue(Value);

/// The tree of the one YAML document that `text` holds; `None` where the
/// decoder refuses `text` (it is not a single well-formed YAML document, or
/// it goes past the decoder's nesting limit).
pub uninterp spec fn yaml_document(text: Seq<char>) -> Option<Value>;

/// What a YAML mapping holds under its string keys (keys of other kinds are
/// left out).
pub uninterp spec fn string_entries(m: Mapping) -> Map<Seq<char>, Value>;

/// Relies on serde_yaml::from_str, read as a serde_yaml::Value: the tree of
/// the document that `text` holds, a function of the text alone, or the
/// decoder's message where it refuses the text.
#[verifier::external_body]
fn read_yaml(text: &str) -> (r: Result<Value, String>)
    ensures
        match r {
            Ok(v) => yaml_document(text@) == Some(v),
            Err(_) => yaml_document(text@) is None,
        },
{
    serde_yaml::from_str::<Value>(text).map_err(|e| e.to_string())
}

/// Relies on serde_yaml::Mapping::get with a `&str` index: it looks up the
/// key `Value::String` equal to `key` and gives the value stored under it,
/// if there is one.
#[verifier::external_body]
fn value_under<'a>(m: &'a Mapping, key: &str) -> (r: Option<&'a Value>)
    ensures
        match r {
            Some(v) => string_entries(*m).contains_key(key@) && string_entries(*m)[key@] == *v,
            None => !string_entries(*m).contains_key(key@),
        },
{
    m.get(key)
}

/// One tool of the manifest.
#[derive(Clone, Debug, PartialEq, Eq)]
pub struct Tool {
    /// Display name; its slug names the tool's install script.
    pub title: String,
    /// Free text; an escaped `\n` in it stands for a line break.
    pub description: String,
    /// Address of the tool's own repository, for information.
    pub repo: String,
    /// Whether installing needs the privilege-escalation preamble.
    pub needs_root: bool,
    /// A caveat, where the manifest gives one.
    pub note: Option<String>,
}

/// The content of a `Tool`.
pub struct ToolRecord {
    pub title: Seq<char>,
    pub description: Seq<char>,
    pub repo: Seq<char>,
    pub needs_root: bool,
    pub note: Option<Seq<char>>,
}

impl View for Tool {
    type V = ToolRecord;

    open spec fn view(&self) -> ToolRecord {
        ToolRecord {
            title: self.title@,
            description: self.description@,
            repo: self.repo@,
            needs_root: self.needs_root,
            note: match self.note {
                Some(n) => Some(n@),
                None => None,
            },
        }
    }
}

/// The contents of a sequence of tools.
pub open spec fn records(tools: Seq<Tool>) -> Seq<ToolRecord> {
    tools.map_values(|t: Tool| t@)
}

/// A field of a tool record in the manifest.
#[derive(Clone, Copy, Debug, PartialEq, Eq, Structural)]
pub enum Field {
    Title,
    Description,
    Repo,
    NeedsRoot,
    Note,
}

/// The key of a field in a manifest entry.
pub open spec fn key_of(f: Field) -> Seq<char> {
    match f {
        Field::Title => "title"@,
        Field::Description => "description"@,
        Field::Repo => "repo"@,
        Field::NeedsRoot => "needs_root"@,
        Field::Note => "note"@,
    }
}

/// The key of the field `f` in a manifest entry.
pub fn field_key(f: Field) -> (r: &'static str)
    ensures
        r@ == key_of(f),
{
    match f {
        Field::Title => "title",
        Field::Description => "description",
        Field::Repo => "repo",
        Field::NeedsRoot => "needs_root",
        Field::Note => "note",
    }
}

/// The first thing found wrong with a manifest. Entries are counted from 0.
#[derive(Clone, Debug, PartialEq, Eq)]
pub enum Problem {
    /// The text is not a well-formed YAML document; the decoder's message.
    Syntax(String),
    /// The document is not a list.
    NotAList,
    /// An entry of the list is not a mapping.
    NotAMapping { entry: usize },
    /// An entry lacks a required field.
    MissingField { entry: usize, field: Field },
    /// A field of an entry holds a value of the wrong kind.
    WrongType { entry: usize, field: Field },
}

/// Why a manifest could not be read.
#[derive(Clone, Debug, PartialEq, Eq)]
pub enum ParseError {
    Malformed(Problem),
}

/// A required text field of entry `i`, whose string-keyed values are `m`.
pub open spec fn text_field(m: Map<Seq<char>, Value>, i: int, f: Field) -> Result<Seq<char>, Problem> {
    if !m.contains_key(key_of(f)) {
        Err(Problem::MissingField { entry: i as usize, field: f })
    } else {
        match m[key_of(f)] {
            Value::String(s) => Ok(s@),
            _ => Err(Problem::WrongType { entry: i as usize, field: f }),
        }
    }
}

/// A required flag field of entry `i`.
pub open spec fn flag_field(m: Map<Seq<char>, Value>, i: int, f: Field) -> Result<bool, Problem> {
    if !m.contains_key(key_of(f)) {
        Err(Problem::MissingField { entry: i as usize, field: f })
    } else {
        match m[key_of(f)] {
            Value::Bool(b) => Ok(b),
            _ => Err(Problem::WrongType { entry: i as usize, field: f }),
        }
    }
}

/// An optional text field of entry `i`: absent or null is `None`.
pub open spec fn optional_text_field(m: Map<Seq<char>, Value>, i: int, f: Field) -> Result<
    Option<Seq<char>>,
    Problem,
> {
    if !m.contains_key(key_of(f)) {
        Ok(None)
    } else {
        match m[key_of(f)] {
            Value::Null => Ok(None),
            Value::String(s) => Ok(Some(s@)),
            _ => Err(Problem::WrongType { entry: i as usize, field: f }),
        }
    }
}

/// Entry `i` of the manifest read as a tool: a mapping whose fields are
/// checked in the order title, description, repo, needs_root, note. Other
/// keys are ignored.
pub open spec fn entry_of(i: int, v: Value) -> Result<ToolRecord, Problem> {
    match v {
        Value::Mapping(m) => {
            let fields = string_entries(m);
            let title = text_field(fields, i, Field::Title);
            let description = text_field(fields, i, Field::Description);
            let repo = text_field(fields, i, Field::Repo);
            let needs_root = flag_field(fields, i, Field::NeedsRoot);
            let note = optional_text_field(fields, i, Field::Note);
            if title is Err {
                Err(title->Err_0)
            } else if description is Err {
                Err(description->Err_0)
            } else if repo is Err {
                Err(repo->Err_0)
            } else if needs_root is Err {
                Err(needs_root->Err_0)
            } else if note is Err {
                Err(note->Err_0)
            } else {
                Ok(
                    ToolRecord {
                        title: title->Ok_0,
                        description: description->Ok_0,
                        repo: repo->Ok_0,
                        needs_root: needs_root->Ok_0,
                        note: note->Ok_0,
                    },
                )
            }
        },
        _ => Err(Problem::NotAMapping { entry: i as usize }),
    }
}

/// The entries of a list read as tools, in order, up to the first problem.
pub open spec fn entries_of(items: Seq<Value>) -> Result<Seq<ToolRecord>, Problem>
    decreases items.len(),
{
    if items.len() == 0 {
        Ok(Seq::empty())
    } else {
        match entries_of(items.drop_last()) {
            Err(p) => Err(p),
            Ok(done) => match entry_of(items.len() - 1, items.last()) {
                Err(p) => Err(p),
                Ok(t) => Ok(done.push(t)),
            },
        }
    }
}

/// A decoded manifest document read as tools: it must be a list.
pub open spec fn manifest_of(doc: Value) -> Result<Seq<ToolRecord>, Problem> {
    match doc {
        Value::Sequence(items) => entries_of(items@),
        _ => Err(Problem::NotAList),
    }
}

fn text_value(m: &Mapping, i: usize, f: Field) -> (r: Result<String, Problem>)
    ensures
        match r {
            Ok(s) => text_field(string_entries(*m), i as int, f) == Ok::<Seq<char>, Problem>(s@),
            Err(p) => text_field(string_entries(*m), i as int, f) == Err::<Seq<char>, Problem>(p),
        },
{
    match value_under(m, field_key(f)) {
        None => Err(Problem::MissingField { entry: i, field: f }),
        Some(Value::String(s)) => Ok(s.clone()),
        Some(_) => Err(Problem::WrongType { entry: i, field: f }),
    }
}

fn flag_value(m: &Mapping, i: usize, f: Field) -> (r: Result<bool, Problem>)
    ensures
        r == flag_field(string_entries(*m), i as int, f),
{
    match value_under(m, field_key(f)) {
        None => Err(Problem::MissingField { entry: i, field: f }),
        Some(Value::Bool(b)) => Ok(*b),
        Some(_) => Err(Problem::WrongType { entry: i, field: f }),
    }
}

fn optional_text_value(m: &Mapping, i: usize, f: Field) -> (r: Result<Option<String>, Problem>)
    ensures
        match r {
            Ok(Some(s)) => optional_text_field(string_entries(*m), i as int, f) == Ok::<
                Option<Seq<char>>,
                Problem,
            >(Some(s@)),
            Ok(None) => optional_text_field(string_entries(*m), i as int, f) == Ok::<
                Option<Seq<char>>,
                Problem,
            >(None),
            Err(p) => optional_text_field(string_entries(*m), i as int, f) == Err::<
                Option<Seq<char>>,
                Problem,
            >(p),
        },
{
    match value_under(m, field_key(f)) {
        None => Ok(None),
        Some(Value::Null) => Ok(None),
        Some(Value::String(s)) => Ok(Some(s.clone())),
        Some(_) => Err(Problem::WrongType { entry: i, field: f }),
    }
}

/// Reads entry `i` of a manifest list as a tool.
pub fn tool_from_entry(i: usize, v: &Value) -> (r: Result<Tool, Problem>)
    ensures
        match r {
            Ok(t) => entry_of(i as int, *v) == Ok::<ToolRecord, Problem>(t@),
            Err(p) => entry_of(i as int, *v) == Err::<ToolRecord, Problem>(p) && !(p is Syntax),
        },
{
    match v {
        Value::Mapping(m) => {
            let title = text_value(m, i, Field::Title)?;
            let description = text_value(m, i, Field::Description)?;
            let repo = text_value(m, i, Field::Repo)?;
            let needs_root = flag_value(m, i, Field::NeedsRoot)?;
            let note = optional_text_value(m, i, Field::Note)?;
            Ok(Tool { title, description, repo, needs_root, note })
        },
        _ => Err(Problem::NotAMapping { entry: i }),
    }
}

/// Once a prefix of a list fails, the whole list fails with the same problem.
proof fn lemma_failure_persists(items: Seq<Value>, k: int)
    requires
        0 <= k <= items.len(),
        entries_of(items.take(k)) is Err,
    ensures
        entries_of(items) == entries_of(items.take(k)),
    decreases items.len() - k,
{
    if k < items.len() {
        assert(items.take(k + 1).drop_last() == items.take(k));
        lemma_failure_persists(items, k + 1);
    } else {
        assert(items.take(k) == items);
    }
}

/// Reads a decoded manifest document as tools: the document must be a list
/// whose entries are all well-formed tool mappings; they are kept in order.
pub fn tools_from_yaml(doc: &Value) -> (r: Result<Vec<Tool>, ParseError>)
    ensures
        match r {
            Ok(tools) => manifest_of(*doc) == Ok::<Seq<ToolRecord>, Problem>(records(tools@)),
            Err(ParseError::Malformed(p)) => manifest_of(*doc) == Err::<Seq<ToolRecord>, Problem>(p)
                && !(p is Syntax),
        },
{
    let items = match doc {
        Value::Sequence(items) => items,
        _ => return Err(ParseError::Malformed(Problem::NotAList)),
    };
    let mut tools: Vec<Tool> = Vec::new();
    let mut i: usize = 0;
    assert(items@.take(0) == Seq::<Value>::empty());
    assert(records(tools@) == Seq::<ToolRecord>::empty());
    while i < items.len()
        invariant
            manifest_of(*doc) == entries_of(items@),
            i <= items@.len(),
            entries_of(items@.take(i as int)) == Ok::<Seq<ToolRecord>, Problem>(records(tools@)),
        decreases items.len() - i,
    {
        assert(items@.take(i + 1).drop_last() == items@.take(i as int));
        assert(items@.take(i + 1).last() == items@[i as int]);
        match tool_from_entry(i, &items[i]) {
            Ok(t) => {
                let ghost before = tools@;
                tools.push(t);
                assert(records(tools@) =~= records(before).push(t@));
            },
            Err(p) => {
                assert(entries_of(items@.take(i + 1)) == Err::<Seq<ToolRecord>, Problem>(p));
                proof {
                    lemma_failure_persists(items@, i + 1);
                }
                return Err(ParseError::Malformed(p));
            },
        }
        i = i + 1;
    }
    assert(items@.take(items@.len() as int) == items@);
    Ok(tools)
}

/// The manifest that `text` holds: `None` when it is not a well-formed YAML
/// document, else the document read as tools.
pub open spec fn manifest_text_of(text: Seq<char>) -> Option<Result<Seq<ToolRecord>, Problem>> {
    match yaml_document(text) {
        Some(doc) => Some(manifest_of(doc)),
        None => None,
    }
}

/// Parses the text of a manifest: a YAML list of tool mappings, with the
/// required fields title, description, repo (strings) and needs_root (a
/// flag), and an optional string note. Unknown fields are ignored; an empty
/// list gives no tools.
pub fn parse(text: &str) -> (r: Result<Vec<Tool>, ParseError>)
    ensures
        match r {
            Ok(tools) => manifest_text_of(text@) == Some(
                Ok::<Seq<ToolRecord>, Problem>(records(tools@)),
            ),
            Err(ParseError::Malformed(Problem::Syntax(_))) => manifest_text_of(text@) is None,
            Err(ParseError::Malformed(p)) => manifest_text_of(text@) == Some(
                Err::<Seq<ToolRecord>, Problem>(p),
            ),
        },
{
    match read_yaml(text) {
        Ok(doc) => tools_from_yaml(&doc),
        Err(message) => Err(ParseError::Malformed(Problem::Syntax(message))),
    }
}

/// The entries of a list; nothing for any other value.
pub open spec fn list_items(v: Value) -> Seq<Value> {
    match v {
        Value::Sequence(items) => items@,
        _ => Seq::empty(),
    }
}

/// The string-keyed values of a mapping; nothing for any other value.
pub open spec fn mapping_fields(v: Value) -> Map<Seq<char>, Value> {
    match v {
        Value::Mapping(m) => string_entries(m),
        _ => Map::empty(),
    }
}

/// The text of a string value.
pub open spec fn text_of(v: Value) -> Seq<char> {
    match v {
        Value::String(s) => s@,
        _ => Seq::empty(),
    }
}

/// True when `v` is a string.
pub open spec fn is_text(v: Value) -> bool {
    v matches Value::String(_)
}

/// True when `v` is a flag.
pub open spec fn is_flag(v: Value) -> bool {
    v matches Value::Bool(_)
}

/// True when `v` is null.
pub open spec fn is_null(v: Value) -> bool {
    v matches Value::Null
}

/// True when `v` is a mapping.
pub open spec fn is_mapping(v: Value) -> bool {
    v matches Value::Mapping(_)
}

/// True when `v` is a mapping that holds a tool as the manifest describes
/// it: strings under title, description and repo, a flag under needs_root,
/// and under note nothing, null or a string.
pub open spec fn is_tool_mapping(v: Value) -> bool {
    let f = mapping_fields(v);
    &&& is_mapping(v)
    &&& f.contains_key(key_of(Field::Title)) && is_text(f[key_of(Field::Title)])
    &&& f.contains_key(key_of(Field::Description)) && is_text(f[key_of(Field::Description)])
    &&& f.contains_key(key_of(Field::Repo)) && is_text(f[key_of(Field::Repo)])
    &&& f.contains_key(key_of(Field::NeedsRoot)) && is_flag(f[key_of(Field::NeedsRoot)])
    &&& f.contains_key(key_of(Field::Note)) ==> (is_null(f[key_of(Field::Note)]) || is_text(f[key_of(Field::Note)]))
}

/// The tool that a mapping of the manifest's shape holds, field for field.
pub open spec fn record_of(v: Value) -> ToolRecord
    recommends
        is_tool_mapping(v),
{
    let f = mapping_fields(v);
    ToolRecord {
        title: text_of(f[key_of(Field::Title)]),
        description: text_of(f[key_of(Field::Description)]),
        repo: text_of(f[key_of(Field::Repo)]),
        needs_root: f[key_of(Field::NeedsRoot)] matches Value::Bool(true),
        note: if f.contains_key(key_of(Field::Note)) && is_text(f[key_of(Field::Note)]) {
            Some(text_of(f[key_of(Field::Note)]))
        } else {
            None
        },
    }
}

/// A text whose document is a list of entries of the manifest's shape
/// parses to one tool per entry, in the list's order, each field copied
/// unchanged from its entry.
pub proof fn lemma_schema_documents_parse(text: Seq<char>, doc: Value)
    requires
        yaml_document(text) == Some(doc),
        doc matches Value::Sequence(_),
        forall|i: int|
            0 <= i < list_items(doc).len() ==> is_tool_mapping(#[trigger] list_items(doc)[i]),
    ensures
        manifest_text_of(text) == Some(
            Ok::<Seq<ToolRecord>, Problem>(list_items(doc).map_values(|v: Value| record_of(v))),
        ),
{
    let items = list_items(doc);
    lemma_schema_prefix_parses(items, items.len() as int);
    assert(items.take(items.len() as int) == items);
    assert(entries_of(items)->Ok_0 =~= items.map_values(|v: Value| record_of(v)));
}

proof fn lemma_schema_prefix_parses(items: Seq<Value>, k: int)
    requires
        0 <= k <= items.len(),
        forall|i: int| 0 <= i < items.len() ==> is_tool_mapping(#[trigger] items[i]),
    ensures
        entries_of(items.take(k)) is Ok,
        entries_of(items.take(k))->Ok_0.len() == k,
        forall|i: int|
            0 <= i < k ==> #[trigger] entries_of(items.take(k))->Ok_0[i] == record_of(items[i]),
    decreases k,
{
    if k == 0 {
        assert(items.take(0).len() == 0);
    } else {
        lemma_schema_prefix_parses(items, k - 1);
        let prefix = items.take(k);
        assert(prefix.drop_last() == items.take(k - 1));
        assert(prefix.last() == items[k - 1]);
        let v = items[k - 1];
        assert(is_tool_mapping(v));
        assert(entry_of(k - 1, v) == Ok::<ToolRecord, Problem>(record_of(v)));
    }
}

/// A text whose document is a list in which some entry is a mapping that
/// lacks a required field (title, description, repo or needs_root) does not
/// parse: it is malformed.
pub proof fn lemma_missing_field_is_malformed(text: Seq<char>, doc: Value, i: int, f: Field)
    requires
        yaml_document(text) == Some(doc),
        doc matches Value::Sequence(_),
        0 <= i < list_items(doc).len(),
        f != Field::Note,
        is_mapping(list_items(doc)[i]),
        !mapping_fields(list_items(doc)[i]).contains_key(key_of(f)),
    ensures
        manifest_text_of(text) matches Some(Err(p)) && !(p is Syntax),
{
    let items = list_items(doc);
    assert(entry_of(i, items[i]) is Err);
    let prefix = items.take(i + 1);
    assert(prefix.drop_last() == items.take(i));
    assert(prefix.last() == items[i]);
    assert(entries_of(prefix) is Err);
    lemma_failure_persists(items, i + 1);
    lemma_no_syntax_problem(items);
}

proof fn lemma_no_syntax_problem(items: Seq<Value>)
    ensures
        entries_of(items) matches Err(p) ==> !(p is Syntax),
    decreases items.len(),
{
    if items.len() > 0 {
        lemma_no_syntax_problem(items.drop_last());
    }
}

} // verus!
