//! Loading configuration tables from text, and binding a named sub-table to a
//! typed argument record.

use vstd::prelude::*;

verus! {

/// `toml::map::Map`, the table type of the `toml` crate. Its entries are
/// spoken of through `table_entries`.
#[verifier::external_type_specification]
#[verifier::external_body]
#[verifier::reject_recursive_types(K)]
#[verifier::reject_recursive_types(V)]
pub struct ExTomlMap<K, V>(toml::map::Map<K, V>);

/// `toml::Value`, one value of a table. What it holds is spoken of through
/// `value_model`.
#[verifier::external_type_specification]
#[verifier::external_body]
pub struct ExTomlValue(toml::Value);

/// `toml::de::Error`, the parser's error.
#[verifier::external_type_specification]
#[verifier::external_body]
pub struct ExTomlError(toml::de::Error);

/// Mathematical model of a configuration value: a scalar, a sequence of
/// values, or a nested table with unique keys.
pub enum ValueModel {
    Text(Seq<char>),
    Integer(int),
    /// A binary floating-point number, by its IEEE 754 bit pattern.
    Real(u64),
    Boolean(bool),
    /// A date or time, by its canonical text.
    Datetime(Seq<char>),
    Sequence(Seq<ValueModel>),
    Table(Map<Seq<char>, ValueModel>),
}

/// Mathematical model of a table: its values by key.
pub type TableModel = Map<Seq<char>, ValueModel>;

/// The entries that a table holds: what the value under each key holds.
pub uninterp spec fn table_entries(table: toml::map::Map<String, toml::Value>) -> Map<
    Seq<char>,
    ValueModel,
>;

/// What a value holds: a `String` as `Text`, an `Integer`, a `Float` as
/// `Real`, a `Boolean`, a `Datetime`, an `Array` as the `Sequence` of what its
/// items hold, and a `Table` as the `Table` of its entries.
pub uninterp spec fn value_model(value: toml::Value) -> ValueModel;

/// What `toml`'s parser makes of a text: what the value of the document
/// holds, or nothing where the text is no document.
pub uninterp spec fn parsed_document(text: Seq<char>) -> Option<ValueModel>;

/// Model of a `ConfigError`.
pub enum ConfigErrorView {
    SourceUnreadable { path: Seq<char> },
    MalformedConfig { message: Seq<char> },
    MissingSection { section: Seq<char> },
    WrongShape { section: Seq<char> },
    FieldMismatch { section: Seq<char>, message: Seq<char> },
    SemanticInvalid { message: Seq<char> },
}

/// Why a configuration could not be turned into a value.
#[derive(Debug, Clone, PartialEq, Eq)]
pub enum ConfigError {
    /// The text of the source at `path` could not be obtained.
    SourceUnreadable { path: String },
    /// The text is no document, or its top level is no table.
    MalformedConfig { message: String },
    /// The table has no entry named `section`.
    MissingSection { section: String },
    /// The entry named `section` is not a table.
    WrongShape { section: String },
    /// The entries of `section` do not satisfy the fields of the record.
    FieldMismatch { section: String, message: String },
    /// The record was read, but its fields do not go together.
    SemanticInvalid { message: String },
}

impl View for ConfigError {
    type V = ConfigErrorView;

    open spec fn view(&self) -> ConfigErrorView {
        match *self {
            ConfigError::SourceUnreadable { path } => ConfigErrorView::SourceUnreadable {
                path: path@,
            },
            ConfigError::MalformedConfig { message } => ConfigErrorView::MalformedConfig {
                message: message@,
            },
            ConfigError::MissingSection { section } => ConfigErrorView::MissingSection {
                section: section@,
            },
            ConfigError::WrongShape { section } => ConfigErrorView::WrongShape {
                section: section@,
            },
            ConfigError::FieldMismatch { section, message } => ConfigErrorView::FieldMismatch {
                section: section@,
                message: message@,
            },
            ConfigError::SemanticInvalid { message } => ConfigErrorView::SemanticInvalid {
                message: message@,
            },
        }
    }
}

/// The table at the top of a parsed document, if the text is a document and
/// its top level is a table.
pub open spec fn document_table(text: Seq<char>) -> Option<TableModel> {
    match parsed_document(text) {
        Some(ValueModel::Table(entries)) => Some(entries),
        _ => None,
    }
}

/// The sub-table that `name` selects among `entries`, or the reason why it
/// selects none.
pub open spec fn section_of(entries: TableModel, name: Seq<char>) -> Result<
    TableModel,
    ConfigErrorView,
> {
    if !entries.contains_key(name) {
        Err(ConfigErrorView::MissingSection { section: name })
    } else {
        match entries[name] {
            ValueModel::Table(inner) => Ok(inner),
            _ => Err(ConfigErrorView::WrongShape { section: name }),
        }
    }
}

/// The result is an error with the given model.
pub open spec fn failed_as<A>(r: Result<A, ConfigError>, reason: ConfigErrorView) -> bool {
    r matches Err(e) && e@ == reason
}

/// The result is a field mismatch that names `section`.
pub open spec fn field_mismatch_in<A>(r: Result<A, ConfigError>, section: Seq<char>) -> bool {
    r matches Err(e) && e@ is FieldMismatch && e@->FieldMismatch_section == section
}

/// `<toml::Value as FromStr>::from_str`, reached by `str::parse`: parses a
/// whole document. The outcome depends on the text alone: a value where the
/// text is a document, an error where it is not.
#[verifier::external_body]
fn parse_value(text: &str) -> (r: Result<toml::Value, toml::de::Error>)
    ensures
        match r {
            Ok(value) => parsed_document(text@) == Some(value_model(value)),
            Err(_) => parsed_document(text@) is None,
        },
{
    text.parse::<toml::Value>()
}

/// `toml::de::Error::message`: what went wrong, in the parser's words.
#[verifier::external_body]
fn error_message(error: &toml::de::Error) -> String {
    error.message().to_owned()
}

/// `toml::map::Map::get`: the value stored under `key`, if there is one.
#[verifier::external_body]
fn table_get<'a>(table: &'a toml::map::Map<String, toml::Value>, key: &str) -> (r: Option<
    &'a toml::Value,
>)
    ensures
        match r {
            Some(value) => table_entries(*table).contains_key(key@) && table_entries(
                *table,
            )[key@] == value_model(*value),
            None => !table_entries(*table).contains_key(key@),
        },
{
    table.get(key)
}

/// `toml::Value::as_table`: the table inside a value, if the value is one.
#[verifier::external_body]
fn value_as_table<'a>(value: &'a toml::Value) -> (r: Option<
    &'a toml::map::Map<String, toml::Value>,
>)
    ensures
        match r {
            Some(table) => value_model(*value) == ValueModel::Table(table_entries(*table)),
            None => !(value_model(*value) is Table),
        },
{
    value.as_table()
}

/// `<toml::map::Map<String, toml::Value> as Clone>::clone`: a table with the
/// same entries.
#[verifier::external_body]
fn table_clone(table: &toml::map::Map<String, toml::Value>) -> (r: toml::map::Map<
    String,
    toml::Value,
>)
    ensures
        table_entries(r) == table_entries(*table),
{
    table.clone()
}

/// Parses the text of a configuration source into its table.
pub fn load_toml(source_text: &str) -> (r: Result<
    toml::map::Map<String, toml::Value>,
    ConfigError,
>)
    ensures
        match document_table(source_text@) {
            Some(entries) => r matches Ok(table) && table_entries(table) == entries,
            None => r matches Err(e) && e@ is MalformedConfig,
        },
{
    match parse_value(source_text) {
        Err(error) => Err(ConfigError::MalformedConfig { message: error_message(&error) }),
        Ok(value) => top_table(&value),
    }
}

/// The table that a parsed document consists of.
pub fn top_table(value: &toml::Value) -> (r: Result<
    toml::map::Map<String, toml::Value>,
    ConfigError,
>)
    ensures
        match value_model(*value) {
            ValueModel::Table(entries) => r matches Ok(table) && table_entries(table) == entries,
            _ => r matches Err(e) && e@ is MalformedConfig,
        },
{
    match value_as_table(value) {
        Some(table) => Ok(table_clone(table)),
        None => Err(
            ConfigError::MalformedConfig {
                message: "the top level of the document is not a table".to_owned(),
            },
        ),
    }
}

/// What loading makes of a source that was read, or could not be read, by
/// the caller: `contents` is the text of the source at `path`, if it could be
/// obtained.
pub fn load_source(path: &str, contents: Option<String>) -> (r: Result<
    toml::map::Map<String, toml::Value>,
    ConfigError,
>)
    ensures
        match contents {
            None => r matches Err(e) && e@ == (ConfigErrorView::SourceUnreadable { path: path@ }),
            Some(text) => match document_table(text@) {
                Some(entries) => r matches Ok(table) && table_entries(table) == entries,
                None => r matches Err(e) && e@ is MalformedConfig,
            },
        },
{
    match contents {
        None => Err(ConfigError::SourceUnreadable { path: path.to_owned() }),
        Some(text) => load_toml(text.as_str()),
    }
}

/// A copy of the sub-table that `name` selects in `config`.
pub fn section(config: &toml::map::Map<String, toml::Value>, name: &str) -> (r: Result<
    toml::map::Map<String, toml::Value>,
    ConfigError,
>)
    ensures
        match section_of(table_entries(*config), name@) {
            Ok(entries) => r matches Ok(table) && table_entries(table) == entries,
            Err(reason) => r matches Err(e) && e@ == reason,
        },
{
    match table_get(config, name) {
        None => Err(ConfigError::MissingSection { section: name.to_owned() }),
        Some(value) => match value_as_table(value) {
            None => Err(ConfigError::WrongShape { section: name.to_owned() }),
            Some(table) => Ok(table_clone(table)),
        },
    }
}

/// What binding returns once the record's own reading of the sub-table named
/// `section` is known: the record, or a field mismatch that names the section
/// and carries the reader's message.
pub fn bound<A>(section: &str, outcome: Result<A, String>) -> (r: Result<A, ConfigError>)
    ensures
        match outcome {
            Ok(record) => r == Ok::<A, ConfigError>(record),
            Err(message) => r matches Err(e) && e@ == (ConfigErrorView::FieldMismatch {
                section: section@,
                message: message@,
            }),
        },
{
    match outcome {
        Ok(record) => Ok(record),
        Err(message) => Err(ConfigError::FieldMismatch { section: section.to_owned(), message }),
    }
}

/// The record that the sub-table `name` of `entries` determines, if `name`
/// selects a sub-table and its entries satisfy the record's fields.
pub open spec fn bound_record<A: FromConfig>(
    entries: TableModel,
    name: Seq<char>,
) -> Option<A> {
    match section_of(entries, name) {
        Ok(inner) => A::record_of(inner),
        Err(_) => None,
    }
}

/// Argument records that can be populated from a sub-table of a
/// configuration.
pub trait FromConfig: Sized {
    /// The record that the entries of a sub-table determine, field by field;
    /// nothing where an entry that a field needs is missing, or is of the
    /// wrong type or arity.
    spec fn record_of(entries: TableModel) -> Option<Self>;

    /// Reads the record's fields from the entries of its sub-table. Where the
    /// entries do not satisfy a field, the message names it.
    fn from_table(table: toml::map::Map<String, toml::Value>) -> (r: Result<Self, String>)
        ensures
            match Self::record_of(table_entries(table)) {
                Some(record) => r == Ok::<Self, String>(record),
                None => r is Err,
            },
    ;

    /// Populates the record from the sub-table `table_name` of `config`.
    fn from_config(config: &toml::map::Map<String, toml::Value>, table_name: &str) -> (r: Result<
        Self,
        ConfigError,
    >)
        ensures
            !table_entries(*config).contains_key(table_name@) ==> failed_as(
                r,
                ConfigErrorView::MissingSection { section: table_name@ },
            ),
            match section_of(table_entries(*config), table_name@) {
                Err(reason) => failed_as(r, reason),
                Ok(inner) => match Self::record_of(inner) {
                    Some(record) => r == Ok::<Self, ConfigError>(record),
                    None => field_mismatch_in(r, table_name@),
                },
            },
    {
        match section(config, table_name) {
            Err(e) => Err(e),
            Ok(table) => bound(table_name, Self::from_table(table)),
        }
    }
}

/// Binding succeeds on every sub-table whose entries satisfy the record's
/// fields, and gives the record that those entries determine.
pub proof fn lemma_binding_round_trip<A: FromConfig>(
    entries: TableModel,
    name: Seq<char>,
    inner: TableModel,
    record: A,
)
    requires
        entries.contains_key(name),
        entries[name] == ValueModel::Table(inner),
        A::record_of(inner) == Some(record),
    ensures
        section_of(entries, name) == Ok::<TableModel, ConfigErrorView>(inner),
        bound_record::<A>(entries, name) == Some(record),
{
}

/// A table without the requested key binds nothing, whatever else it holds:
/// the section is reported as missing, by its name.
pub proof fn lemma_missing_section<A: FromConfig>(entries: TableModel, name: Seq<char>)
    requires
        !entries.contains_key(name),
    ensures
        section_of(entries, name) == Err::<TableModel, ConfigErrorView>(
            ConfigErrorView::MissingSection { section: name },
        ),
        bound_record::<A>(entries, name) == None::<A>,
{
}

} // verus!
