//! Reads the dependency table of a manifest with `toml_edit`, and hands each
//! entry over as plain text and flags.

use crate::dependency::{
    DependencyEntry, DependencyEntryView, DependencyValue, DependencyValueView, VersionField,
    VersionFieldView,
};
use toml_edit::{
    Array, Decor, DocumentMut, InlineTable, Item, Key, RawString, TomlError, Value,
};
use vstd::prelude::*;

verus! {

/// `toml_edit::DocumentMut`, a parsed manifest.
#[verifier::external_type_specification]
#[verifier::external_body]
pub struct ExDocumentMut(DocumentMut);

/// `toml_edit::TomlError`, why a text is no TOML.
#[verifier::external_type_specification]
#[verifier::external_body]
pub struct ExTomlError(TomlError);

/// `toml_edit::Item`, what a table holds under one key.
#[verifier::external_type_specification]
#[verifier::external_body]
pub struct ExItem(Item);

/// `toml_edit::Table`, a table with a header of its own.
#[verifier::external_type_specification]
#[verifier::external_body]
pub struct ExTable(toml_edit::Table);

/// `toml_edit::Key`, a key with what is written around it.
#[verifier::external_type_specification]
#[verifier::external_body]
pub struct ExKey(Key);

/// `toml_edit::Value`, what stands to the right of a key.
#[verifier::external_type_specification]
#[verifier::external_body]
pub struct ExValue(Value);

/// `toml_edit::InlineTable`, a table written between braces.
#[verifier::external_type_specification]
#[verifier::external_body]
pub struct ExInlineTable(InlineTable);

/// `toml_edit::Array`, a list written between brackets.
#[verifier::external_type_specification]
#[verifier::external_body]
pub struct ExArray(Array);

/// `toml_edit::Decor`, what is written before and after a key or a value.
#[verifier::external_type_specification]
#[verifier::external_body]
pub struct ExDecor(Decor);

/// `toml_edit::RawString`, a piece of the manifest as it was written.
#[verifier::external_type_specification]
#[verifier::external_body]
pub struct ExRawString(RawString);

/// What a reference that may be missing points to.
pub open spec fn owned<T>(found: Option<&T>) -> Option<T> {
    match found {
        Some(found) => Some(*found),
        None => None,
    }
}

/// What `DocumentMut::from_str` returns for a text: the document that it
/// spells, or why it spells none.
pub uninterp spec fn toml_document(text: Seq<char>) -> Result<DocumentMut, TomlError>;

/// What `DocumentMut::as_item` hands out: the root of a document.
pub uninterp spec fn document_root(document: DocumentMut) -> Item;

/// What `Item::as_table` hands out: the table that an item is, if it is one.
pub uninterp spec fn item_table(item: Item) -> Option<toml_edit::Table>;

/// What `Item::is_value` says: whether an item is a value.
pub uninterp spec fn item_is_value(item: Item) -> bool;

/// What `Item::is_array_of_tables` says: whether an item is an array of
/// tables.
pub uninterp spec fn item_is_array_of_tables(item: Item) -> bool;

/// What `Table::get` hands out: what a table holds under a key.
pub uninterp spec fn table_item(table: toml_edit::Table, key: Seq<char>) -> Option<Item>;

/// What `Table::get_values` lists: the values that a table holds, in its
/// order, each with the path of keys that leads to it.
pub uninterp spec fn table_values(table: toml_edit::Table) -> Seq<(Seq<Key>, Value)>;

/// What the `Display` of `Key` writes: a key as the manifest spells it,
/// without what is written around it.
pub uninterp spec fn key_name(key: Key) -> Seq<char>;

/// What `Key::leaf_decor` hands out: what is written around a key on its
/// line.
pub uninterp spec fn key_decor(key: Key) -> Decor;

/// What `Decor::prefix` hands out: what is written before, if anything was
/// recorded.
pub uninterp spec fn decor_prefix(decor: Decor) -> Option<RawString>;

/// What `Decor::suffix` hands out: what is written after, if anything was
/// recorded.
pub uninterp spec fn decor_suffix(decor: Decor) -> Option<RawString>;

/// What `RawString::as_str` hands out: the text of a piece of the manifest, if
/// it is at hand.
pub uninterp spec fn raw_str(raw: RawString) -> Option<Seq<char>>;

/// What `Value::is_str` says: whether a value is a string.
pub uninterp spec fn value_is_string(value: Value) -> bool;

/// What `Value::as_inline_table` hands out: the inline table that a value is,
/// if it is one.
pub uninterp spec fn value_table(value: Value) -> Option<InlineTable>;

/// What `Value::as_array` hands out: the list that a value is, if it is one.
pub uninterp spec fn value_array(value: Value) -> Option<Array>;

/// What the `Display` of `Value` writes: a value as the manifest spells it,
/// with what is written around it.
pub uninterp spec fn value_display(value: Value) -> Seq<char>;

/// What `InlineTable::contains_key` says: whether an inline table holds a
/// value under a key.
pub uninterp spec fn inline_has(table: InlineTable, key: Seq<char>) -> bool;

/// What `InlineTable::get` hands out: the value that an inline table holds
/// under a key.
pub uninterp spec fn inline_value(table: InlineTable, key: Seq<char>) -> Option<Value>;

/// What `Array::len` counts: the members of a list.
pub uninterp spec fn array_len(array: Array) -> nat;

/// What `Array::get` hands out: the member of a list at a position, if it is
/// a value.
pub uninterp spec fn array_member(array: Array, index: int) -> Option<Value>;

/// The pairs that `Table::get_values` hands out, without their references.
pub open spec fn listed(values: Seq<(Vec<&Key>, &Value)>) -> Seq<(Seq<Key>, Value)> {
    values.map_values(
        |pair: (Vec<&Key>, &Value)| (pair.0@.map_values(|key: &Key| *key), *pair.1),
    )
}

/// `DocumentMut::from_str`, reached through `str::parse`: the document that
/// the text spells, or why it spells none. Both depend on the text alone.
#[verifier::external_body]
fn parse_document(text: &str) -> (document: Result<DocumentMut, TomlError>)
    ensures
        document == toml_document(text@),
{
    text.parse::<DocumentMut>()
}

/// `DocumentMut::as_item` hands out the root of the document.
pub assume_specification[ DocumentMut::as_item ](document: &DocumentMut) -> (item: &Item)
    ensures
        *item == document_root(*document),
;

/// `Item::as_table` hands out the table that an item is, if it is one.
pub assume_specification[ Item::as_table ](item: &Item) -> (table: Option<&toml_edit::Table>)
    ensures
        owned(table) == item_table(*item),
;

/// `Item::is_value` says whether an item is a value.
pub assume_specification[ Item::is_value ](item: &Item) -> (yes: bool)
    ensures
        yes == item_is_value(*item),
;

/// `Item::is_array_of_tables` says whether an item is an array of tables.
pub assume_specification[ Item::is_array_of_tables ](item: &Item) -> (yes: bool)
    ensures
        yes == item_is_array_of_tables(*item),
;

/// `Table::get` hands out what the table holds under a key.
pub assume_specification<'a>[ toml_edit::Table::get ](
    table: &'a toml_edit::Table,
    key: &str,
) -> (item: Option<&'a Item>)
    ensures
        owned(item) == table_item(*table, key@),
;

/// `Table::get_values` lists the values of the table, each with the path of
/// keys that leads to it. It puts a key on the path before it lists a value, so
/// no path is empty.
pub assume_specification[ toml_edit::Table::get_values ](table: &toml_edit::Table) -> (values:
    Vec<(Vec<&Key>, &Value)>)
    ensures
        listed(values@) == table_values(*table),
        forall|i: int| 0 <= i < values.len() ==> (#[trigger] values[i]).0.len() > 0,
;

/// The `Display` of `Key`: the key as the manifest spells it, without what is
/// written around it.
#[verifier::external_body]
fn key_text(key: &Key) -> (text: String)
    ensures
        text@ == key_name(*key),
{
    key.to_string()
}

/// `Key::leaf_decor` hands out what is written around the key on its line.
pub assume_specification[ Key::leaf_decor ](key: &Key) -> (decor: &Decor)
    ensures
        *decor == key_decor(*key),
;

/// `Decor::prefix` hands out what is written before, if anything was recorded.
pub assume_specification[ Decor::prefix ](decor: &Decor) -> (prefix: Option<&RawString>)
    ensures
        owned(prefix) == decor_prefix(*decor),
;

/// `Decor::suffix` hands out what is written after, if anything was recorded.
pub assume_specification[ Decor::suffix ](decor: &Decor) -> (suffix: Option<&RawString>)
    ensures
        owned(suffix) == decor_suffix(*decor),
;

/// `RawString::as_str` hands out the text, unless the piece only points into a
/// document that is not at hand.
pub assume_specification[ RawString::as_str ](raw: &RawString) -> (text: Option<&str>)
    ensures
        text.deep_view() == raw_str(*raw),
;

/// `Value::is_str` says whether a value is a string.
pub assume_specification[ Value::is_str ](value: &Value) -> (yes: bool)
    ensures
        yes == value_is_string(*value),
;

/// `Value::as_inline_table` hands out the inline table that a value is, if it
/// is one.
pub assume_specification[ Value::as_inline_table ](value: &Value) -> (table: Option<&InlineTable>)
    ensures
        owned(table) == value_table(*value),
;

/// `Value::as_array` hands out the list that a value is, if it is one.
pub assume_specification[ Value::as_array ](value: &Value) -> (array: Option<&Array>)
    ensures
        owned(array) == value_array(*value),
;

/// The `Display` of `Value`: the value as the manifest spells it, with what is
/// written around it.
#[verifier::external_body]
fn value_text(value: &Value) -> (text: String)
    ensures
        text@ == value_display(*value),
{
    value.to_string()
}

/// `InlineTable::contains_key` says whether the table holds a value under a
/// key.
pub assume_specification[ InlineTable::contains_key ](table: &InlineTable, key: &str) -> (yes:
    bool)
    ensures
        yes == inline_has(*table, key@),
;

/// `InlineTable::get` hands out the value that the table holds under a key.
pub assume_specification<'a>[ InlineTable::get ](
    table: &'a InlineTable,
    key: &str,
) -> (value: Option<&'a Value>)
    ensures
        owned(value) == inline_value(*table, key@),
;

/// `Array::len` counts the members of a list.
pub assume_specification[ Array::len ](array: &Array) -> (len: usize)
    ensures
        len == array_len(*array),
;

/// `Array::get` hands out the member at a position, if it is a value.
pub assume_specification[ Array::get ](array: &Array, index: usize) -> (value: Option<&Value>)
    ensures
        owned(value) == array_member(*array, index as int),
;

/// Why a manifest gives no dependencies.
#[derive(Debug)]
pub enum ManifestError {
    /// The text is no TOML.
    Syntax(TomlError),
    /// The manifest has no `dependencies`.
    NoDependencies,
    /// What it holds under `dependencies` is nothing.
    DependenciesIsNone,
    /// What it holds under `dependencies` is a value.
    DependenciesIsValue,
    /// What it holds under `dependencies` is an array of tables.
    DependenciesIsArrayOfTables,
    /// The text around the name of a dependency is not at hand.
    AnnotationMissing,
}

impl ManifestError {
    /// The message of the error; that of a syntax error is left to
    /// `toml_edit`.
    pub open spec fn text(self) -> Seq<char> {
        match self {
            ManifestError::Syntax(_) => "Could not parse the manifest"@,
            ManifestError::NoDependencies => "No dependencies section"@,
            ManifestError::DependenciesIsNone => "Dependencies section has \"None\" type"@,
            ManifestError::DependenciesIsValue => "Dependencies section has \"Value\" type"@,
            ManifestError::DependenciesIsArrayOfTables =>
                "Dependencies section has \"ArrayOfTable\" type"@,
            ManifestError::AnnotationMissing => "Dependency annotation is not at hand"@,
        }
    }

    /// The message of the error.
    pub fn message(&self) -> (message: String)
        ensures
            message@ == self.text(),
    {
        match self {
            ManifestError::Syntax(_) => "Could not parse the manifest".to_owned(),
            ManifestError::NoDependencies => "No dependencies section".to_owned(),
            ManifestError::DependenciesIsNone =>
                "Dependencies section has \"None\" type".to_owned(),
            ManifestError::DependenciesIsValue =>
                "Dependencies section has \"Value\" type".to_owned(),
            ManifestError::DependenciesIsArrayOfTables =>
                "Dependencies section has \"ArrayOfTable\" type".to_owned(),
            ManifestError::AnnotationMissing => "Dependency annotation is not at hand".to_owned(),
        }
    }
}

/// What a text that was read, or the error of reading it, is to the
/// contracts.
pub open spec fn text_read(text: Result<Option<String>, ManifestError>) -> Result<
    Option<Seq<char>>,
    ManifestError,
> {
    match text {
        Ok(text) => Ok(text.deep_view()),
        Err(error) => Err(error),
    }
}

/// What an entry that was read, or the error of reading it, is to the
/// contracts.
pub open spec fn entry_read(entry: Result<DependencyEntry, ManifestError>) -> Result<
    DependencyEntryView,
    ManifestError,
> {
    match entry {
        Ok(entry) => Ok(entry@),
        Err(error) => Err(error),
    }
}

/// What the entries that were read, or the error of reading them, are to the
/// contracts.
pub open spec fn entries_read(entries: Result<Vec<DependencyEntry>, ManifestError>) -> Result<
    Seq<DependencyEntryView>,
    ManifestError,
> {
    match entries {
        Ok(entries) => Ok(entries@.map_values(|entry: DependencyEntry| entry@)),
        Err(error) => Err(error),
    }
}

/// The text around a name, from what was recorded of it: nothing (`None`), a
/// piece whose text is not at hand (`Some(None)`), or a piece with its text.
/// Only the second is an error.
pub open spec fn annotation_of(recorded: Option<Option<Seq<char>>>) -> Result<
    Option<Seq<char>>,
    ManifestError,
> {
    match recorded {
        None => Ok(None),
        Some(None) => Err(ManifestError::AnnotationMissing),
        Some(Some(piece)) => Ok(Some(piece)),
    }
}

/// The text around a name, from what was recorded of it: nothing (`None`), a
/// piece whose text is not at hand (`Some(None)`), or a piece with its text.
pub fn annotation_text(recorded: Option<Option<&str>>) -> (text: Result<
    Option<String>,
    ManifestError,
>)
    ensures
        text_read(text) == annotation_of(recorded.deep_view()),
{
    match recorded {
        None => Ok(None),
        Some(None) => Err(ManifestError::AnnotationMissing),
        Some(Some(piece)) => Ok(Some(piece.to_owned())),
    }
}

/// What was recorded of a piece of the manifest that may be missing.
pub open spec fn recorded(piece: Option<RawString>) -> Option<Option<Seq<char>>> {
    match piece {
        Some(raw) => Some(raw_str(raw)),
        None => None,
    }
}

/// The text of a piece of the manifest that may be missing. The error is that
/// of a piece whose text is not at hand.
fn raw_text(raw: Option<&RawString>) -> (text: Result<Option<String>, ManifestError>)
    ensures
        text_read(text) == annotation_of(recorded(owned(raw))),
{
    match raw {
        None => annotation_text(None),
        Some(raw) => annotation_text(Some(raw.as_str())),
    }
}

/// The `version` field, from what stands under that key: nothing, or a value,
/// of which it is known whether it is a string and how the manifest spells it.
pub open spec fn version_of(found: Option<(bool, Seq<char>)>) -> VersionFieldView {
    match found {
        None => VersionFieldView::Absent,
        Some((true, text)) => VersionFieldView::Text(text),
        Some((false, _)) => VersionFieldView::Other,
    }
}

/// The `version` field, from what stands under that key: nothing, or a value,
/// given by whether it is a string and by how the manifest spells it.
pub fn version_field(found: Option<(bool, String)>) -> (field: VersionField)
    ensures
        field@ == version_of(found.deep_view()),
{
    match found {
        None => VersionField::Absent,
        Some((true, text)) => VersionField::Text(text),
        Some((false, _)) => VersionField::Other,
    }
}

/// What an inline table holds under `version`: nothing, or a value, told by
/// whether it is a string and by how the manifest spells it.
pub open spec fn found_version(table: InlineTable) -> Option<(bool, Seq<char>)> {
    match inline_value(table, "version"@) {
        Some(value) => Some((value_is_string(value), value_display(value))),
        None => None,
    }
}

/// The `version` field of a dependency that is written as a table.
fn read_version(table: &InlineTable) -> (version: VersionField)
    ensures
        version@ == version_of(found_version(*table)),
{
    match table.get("version") {
        None => version_field(None),
        Some(value) => version_field(Some((value.is_str(), value_text(value)))),
    }
}

/// The members of a list that are values, in their order.
pub open spec fn present(members: Seq<Option<Seq<char>>>) -> Seq<Seq<char>>
    decreases members.len(),
{
    if members.len() == 0 {
        Seq::empty()
    } else {
        match members.last() {
            Some(member) => present(members.drop_last()).push(member),
            None => present(members.drop_last()),
        }
    }
}

/// The features, from what stands under that key: nothing (`None`), something
/// that is no list (`Some(None)`), or a list, each member of which is given by
/// how the manifest spells it, or is no value. Only a list gives features.
pub open spec fn features_of(found: Option<Option<Seq<Option<Seq<char>>>>>) -> Option<
    Seq<Seq<char>>,
> {
    match found {
        Some(Some(members)) => Some(present(members)),
        _ => None,
    }
}

/// The features, from what stands under that key: nothing (`None`), something
/// that is no list (`Some(None)`), or the members of a list.
pub fn features_field(found: Option<Option<Vec<Option<String>>>>) -> (features: Option<
    Vec<String>,
>)
    ensures
        features.deep_view() == features_of(found.deep_view()),
{
    match found {
        Some(Some(members)) => {
            let ghost given = members.deep_view();
            let mut features: Vec<String> = Vec::new();
            for member in it: members
                invariant
                    given == it.seq().map_values(|m: Option<String>| m.deep_view()),
                    features.deep_view() == present(given.take(it.index() as int)),
            {
                let ghost before = features.deep_view();
                assert(given.take(it.index() + 1).drop_last() =~= given.take(it.index() as int));
                if let Some(feature) = member {
                    features.push(feature);
                    assert(features.deep_view() =~= before.push(feature@));
                }
            }
            assert(given.take(given.len() as int) =~= given);
            Some(features)
        },
        _ => None,
    }
}

/// The members of a list, each as the manifest spells it; `None` for a member
/// that is no value.
pub open spec fn members_of(array: Array) -> Seq<Option<Seq<char>>> {
    Seq::new(
        array_len(array),
        |i: int|
            match array_member(array, i) {
                Some(member) => Some(value_display(member)),
                None => None,
            },
    )
}

/// What an inline table holds under `features`: nothing (`None`), something
/// that is no list (`Some(None)`), or the members of a list.
pub open spec fn found_features(table: InlineTable) -> Option<Option<Seq<Option<Seq<char>>>>> {
    match inline_value(table, "features"@) {
        None => None,
        Some(value) => match value_array(value) {
            None => Some(None),
            Some(array) => Some(Some(members_of(array))),
        },
    }
}

/// The members of the `features` field of a dependency that is written as a
/// table.
fn read_features(table: &InlineTable) -> (features: Option<Vec<String>>)
    ensures
        features.deep_view() == features_of(found_features(*table)),
{
    match table.get("features") {
        None => features_field(None),
        Some(value) => match value.as_array() {
            None => features_field(Some(None)),
            Some(array) => {
                let mut members: Vec<Option<String>> = Vec::new();
                let len = array.len();
                let mut i: usize = 0;
                while i < len
                    invariant
                        i <= len == array_len(*array),
                        members.deep_view() == members_of(*array).take(i as int),
                    decreases len - i,
                {
                    let ghost before = members.deep_view();
                    let member = match array.get(i) {
                        Some(member) => Some(value_text(member)),
                        None => None,
                    };
                    let ghost added = member.deep_view();
                    members.push(member);
                    assert(members.deep_view() =~= before.push(added));
                    assert(members.deep_view() =~= members_of(*array).take(i + 1));
                    i += 1;
                }
                assert(members.deep_view() =~= members_of(*array));
                features_field(Some(Some(members)))
            },
        },
    }
}

/// A value that is no table: a string is the version as the manifest spells
/// it, and anything else is of no use.
pub open spec fn scalar_of(is_string: bool, text: Seq<char>) -> DependencyValueView {
    if is_string {
        DependencyValueView::Text(text)
    } else {
        DependencyValueView::Other
    }
}

/// A value that is no table: a string is the version as the manifest spells
/// it, and anything else is of no use.
pub fn scalar_value(is_string: bool, text: String) -> (value: DependencyValue)
    ensures
        value@ == scalar_of(is_string, text@),
{
    if is_string {
        DependencyValue::Text(text)
    } else {
        DependencyValue::Other
    }
}

/// What stands to the right of a dependency's name. An inline table gives its
/// `version`, whether it has a `path`, and its `features`; any other value is
/// a string or of no use.
pub open spec fn value_of(value: Value) -> DependencyValueView {
    match value_table(value) {
        Some(table) => DependencyValueView::Table {
            version: version_of(found_version(table)),
            path: inline_has(table, "path"@),
            features: features_of(found_features(table)),
        },
        None => scalar_of(value_is_string(value), value_display(value)),
    }
}

/// What stands to the right of a dependency's name.
fn read_value(value: &Value) -> (read: DependencyValue)
    ensures
        read@ == value_of(*value),
{
    match value.as_inline_table() {
        Some(table) => DependencyValue::Table {
            version: read_version(table),
            path: table.contains_key("path"),
            features: read_features(table),
        },
        None => scalar_value(value.is_str(), value_text(value)),
    }
}

/// One entry of the dependency table, from its name, what is written before
/// and after the name, and its value. Where the text before the name is not at
/// hand, that is the error; else where the text after it is not, that is.
pub open spec fn entry_made(
    name: Seq<char>,
    prefix: Result<Option<Seq<char>>, ManifestError>,
    suffix: Result<Option<Seq<char>>, ManifestError>,
    value: DependencyValueView,
) -> Result<DependencyEntryView, ManifestError> {
    match (prefix, suffix) {
        (Ok(before), Ok(after)) => Ok(
            DependencyEntryView { name, prefix: before, suffix: after, value },
        ),
        (Err(error), _) => Err(error),
        (Ok(_), Err(error)) => Err(error),
    }
}

/// One entry of the dependency table, from its name, what is written before
/// and after the name, and its value.
pub fn dependency_entry(
    name: String,
    prefix: Result<Option<String>, ManifestError>,
    suffix: Result<Option<String>, ManifestError>,
    value: DependencyValue,
) -> (entry: Result<DependencyEntry, ManifestError>)
    ensures
        entry_read(entry) == entry_made(name@, text_read(prefix), text_read(suffix), value@),
{
    match prefix {
        Err(error) => Err(error),
        Ok(before) => match suffix {
            Err(error) => Err(error),
            Ok(after) => Ok(DependencyEntry { name, prefix: before, suffix: after, value }),
        },
    }
}

/// The entry that a key and a value give: the key names the dependency, what
/// is written around the key is its annotation, and the value is its value.
pub open spec fn entry_of(key: Key, value: Value) -> Result<DependencyEntryView, ManifestError> {
    entry_made(
        key_name(key),
        annotation_of(recorded(decor_prefix(key_decor(key)))),
        annotation_of(recorded(decor_suffix(key_decor(key)))),
        value_of(value),
    )
}

/// One entry of the dependency table: the first key of the path names the
/// dependency, and what is written around that key is its annotation.
fn read_dependency(keys: &Vec<&Key>, value: &Value) -> (dependency: Result<
    DependencyEntry,
    ManifestError,
>)
    requires
        keys.len() > 0,
    ensures
        entry_read(dependency) == entry_of(*keys[0], *value),
{
    let key = keys[0];
    let decor = key.leaf_decor();
    dependency_entry(
        key_text(key),
        raw_text(decor.prefix()),
        raw_text(decor.suffix()),
        read_value(value),
    )
}

/// Why what stands under `dependencies` is of no use, from whether it is a
/// value and whether it is an array of tables; if it is neither, it is nothing.
pub open spec fn section_problem(is_value: bool, is_array_of_tables: bool) -> ManifestError {
    if is_value {
        ManifestError::DependenciesIsValue
    } else if is_array_of_tables {
        ManifestError::DependenciesIsArrayOfTables
    } else {
        ManifestError::DependenciesIsNone
    }
}

/// Why what stands under `dependencies` is of no use, from whether it is a
/// value and whether it is an array of tables.
pub fn section_error(is_value: bool, is_array_of_tables: bool) -> (error: ManifestError)
    ensures
        error == section_problem(is_value, is_array_of_tables),
{
    if is_value {
        ManifestError::DependenciesIsValue
    } else if is_array_of_tables {
        ManifestError::DependenciesIsArrayOfTables
    } else {
        ManifestError::DependenciesIsNone
    }
}

/// The entries in their order, where every one was read; else the error of the
/// first that was not.
pub open spec fn collected(read: Seq<Result<DependencyEntryView, ManifestError>>) -> Result<
    Seq<DependencyEntryView>,
    ManifestError,
>
    decreases read.len(),
{
    if read.len() == 0 {
        Ok(Seq::empty())
    } else {
        match collected(read.drop_last()) {
            Err(error) => Err(error),
            Ok(entries) => match read.last() {
                Ok(entry) => Ok(entries.push(entry)),
                Err(error) => Err(error),
            },
        }
    }
}

/// Once the first `upto` entries give an error, all of them give that error.
proof fn lemma_first_error_stays(
    read: Seq<Result<DependencyEntryView, ManifestError>>,
    upto: int,
)
    requires
        0 <= upto <= read.len(),
        collected(read.take(upto)) is Err,
    ensures
        collected(read) == collected(read.take(upto)),
    decreases read.len() - upto,
{
    if upto < read.len() {
        assert(read.take(upto + 1).drop_last() =~= read.take(upto));
        lemma_first_error_stays(read, upto + 1);
    } else {
        assert(read.take(upto) =~= read);
    }
}

/// What entries that were read one by one are to the contracts.
pub open spec fn each_read(read: Seq<Result<DependencyEntry, ManifestError>>) -> Seq<
    Result<DependencyEntryView, ManifestError>,
> {
    read.map_values(|entry: Result<DependencyEntry, ManifestError>| entry_read(entry))
}

/// The entries in their order, where every one was read; else the error of the
/// first that was not.
pub fn collect_entries(read: Vec<Result<DependencyEntry, ManifestError>>) -> (entries: Result<
    Vec<DependencyEntry>,
    ManifestError,
>)
    ensures
        entries_read(entries) == collected(each_read(read@)),
{
    let ghost given = each_read(read@);
    let mut list: Vec<DependencyEntry> = Vec::new();
    assert(given.take(0) =~= Seq::empty());
    assert(list@.map_values(|entry: DependencyEntry| entry@) =~= Seq::empty());
    for entry in it: read
        invariant
            given == each_read(it.seq()),
            collected(given.take(it.index() as int)) == Ok::<
                Seq<DependencyEntryView>,
                ManifestError,
            >(list@.map_values(|entry: DependencyEntry| entry@)),
    {
        let ghost before = list@.map_values(|entry: DependencyEntry| entry@);
        assert(given.take(it.index() + 1).drop_last() =~= given.take(it.index() as int));
        assert(given[it.index() as int] == entry_read(entry));
        match entry {
            Ok(entry) => {
                list.push(entry);
                assert(list@.map_values(|entry: DependencyEntry| entry@) =~= before.push(entry@));
            },
            Err(error) => {
                proof {
                    lemma_first_error_stays(given, it.index() + 1);
                }
                return Err(error);
            },
        }
    }
    assert(given.take(given.len() as int) =~= given);
    Ok(list)
}

/// The entries that the listed values give: for each, the first key of its
/// path and the value.
pub open spec fn entries_of(values: Seq<(Seq<Key>, Value)>) -> Result<
    Seq<DependencyEntryView>,
    ManifestError,
> {
    collected(values.map_values(|pair: (Seq<Key>, Value)| entry_of(pair.0[0], pair.1)))
}

/// The dependencies of a document. Where its root holds nothing under
/// `dependencies`, there is no such section; where what it holds is no table,
/// that is the error; else the entries are those of the values that the table
/// lists, in its order.
pub open spec fn dependencies_of(document: DocumentMut) -> Result<
    Seq<DependencyEntryView>,
    ManifestError,
> {
    match item_table(document_root(document)) {
        None => Err(ManifestError::NoDependencies),
        Some(root) => match table_item(root, "dependencies"@) {
            None => Err(ManifestError::NoDependencies),
            Some(item) => match item_table(item) {
                Some(table) => entries_of(table_values(table)),
                None => Err(
                    section_problem(item_is_value(item), item_is_array_of_tables(item)),
                ),
            },
        },
    }
}

/// The dependencies of a manifest: a text that is no TOML is a syntax error;
/// any other gives the dependencies of the document that it spells.
pub open spec fn manifest_dependencies(text: Seq<char>) -> Result<
    Seq<DependencyEntryView>,
    ManifestError,
> {
    match toml_document(text) {
        Ok(document) => dependencies_of(document),
        Err(error) => Err(ManifestError::Syntax(error)),
    }
}

/// The dependencies of a manifest, in the order in which it lists them.
pub fn read_dependencies(manifest: &str) -> (dependencies: Result<
    Vec<DependencyEntry>,
    ManifestError,
>)
    ensures
        entries_read(dependencies) == manifest_dependencies(manifest@),
{
    let document = match parse_document(manifest) {
        Ok(document) => document,
        Err(error) => {
            return Err(ManifestError::Syntax(error));
        },
    };
    let root = match document.as_item().as_table() {
        Some(root) => root,
        None => {
            return Err(ManifestError::NoDependencies);
        },
    };
    let table = match root.get("dependencies") {
        None => {
            return Err(ManifestError::NoDependencies);
        },
        Some(item) => match item.as_table() {
            Some(table) => table,
            None => {
                return Err(section_error(item.is_value(), item.is_array_of_tables()));
            },
        },
    };
    let values = table.get_values();
    let ghost named = table_values(*table);
    let ghost wanted = named.map_values(|pair: (Seq<Key>, Value)| entry_of(pair.0[0], pair.1));
    let mut read: Vec<Result<DependencyEntry, ManifestError>> = Vec::new();
    let mut i: usize = 0;
    while i < values.len()
        invariant
            i <= values.len(),
            listed(values@) == named,
            wanted == named.map_values(|pair: (Seq<Key>, Value)| entry_of(pair.0[0], pair.1)),
            forall|j: int| 0 <= j < values.len() ==> (#[trigger] values[j]).0.len() > 0,
            each_read(read@) == wanted.take(i as int),
        decreases values.len() - i,
    {
        let ghost before = each_read(read@);
        let entry = read_dependency(&values[i].0, values[i].1);
        proof {
            assert(listed(values@)[i as int] == named[i as int]);
            assert(named[i as int].0[0] == *values[i as int].0[0]);
            assert(wanted[i as int] == entry_read(entry));
        }
        read.push(entry);
        assert(each_read(read@) =~= before.push(entry_read(entry)));
        assert(each_read(read@) =~= wanted.take(i + 1));
        i += 1;
    }
    assert(each_read(read@) =~= wanted);
    collect_entries(read)
}

} // verus!
