//! From one dependency of the manifest to its rows in the table: the comments
//! around its name give a section heading and a comment, and the columns that
//! were asked for give the cells.

use crate::args::Column;
use crate::dependency::{
    DependencyEntry, DependencyError, DependencyValue, DependencyValueView, DependencyEntryView,
    RegistryMetadata, RegistryMetadataView, VersionField, VersionFieldView,
};
use crate::text::{
    join, joined, lemma_trimmed_stays_trimmed, lines, remove_char, split_lines, starts_with, trim,
    trimmed, without,
};
use vstd::prelude::*;

verus! {

/// The text of an annotation that may be missing: trimmed, and empty where
/// there is none.
pub open spec fn trimmed_or_empty(text: Option<Seq<char>>) -> Seq<char> {
    match text {
        Some(text) => trimmed(text),
        None => Seq::empty(),
    }
}

/// The annotation of a dependency, from what is written before and after its
/// name. Both sides are trimmed. Where only one side is left, it is the
/// annotation; where neither is, there is none. Where both are, the annotation
/// is the leading text twice, on two lines: the trailing text is not part of
/// it.
pub open spec fn annotation(prefix: Option<Seq<char>>, suffix: Option<Seq<char>>) -> Option<
    Seq<char>,
> {
    let before = trimmed_or_empty(prefix);
    let after = trimmed_or_empty(suffix);
    if before.len() == 0 && after.len() == 0 {
        None
    } else if before.len() == 0 {
        Some(after)
    } else if after.len() == 0 {
        Some(before)
    } else {
        Some(before + "\n"@ + before)
    }
}

/// Whether a line names a section: trimmed, it begins with `#` and a space.
pub open spec fn is_section_line(line: Seq<char>) -> bool {
    "# "@.is_prefix_of(trimmed(line))
}

/// The section that a section line names: what follows the `#` and the space,
/// trimmed.
pub open spec fn section_label(line: Seq<char>) -> Seq<char> {
    trimmed(trimmed(line).skip(2))
}

/// Whether a line is kept out of the comment: without its `#` characters it
/// begins with `!`.
pub open spec fn is_escaped(line: Seq<char>) -> bool {
    "!"@.is_prefix_of(without(line, '#'))
}

/// Whether a line is part of the comment.
pub open spec fn is_comment_line(line: Seq<char>) -> bool {
    !is_section_line(line) && !is_escaped(line)
}

/// What a line gives to the comment: the line without its `#` characters,
/// trimmed.
pub open spec fn comment_part(line: Seq<char>) -> Seq<char> {
    trimmed(without(line, '#'))
}

/// The section that the lines name: the label of the first section line.
pub open spec fn section_of(lines: Seq<Seq<char>>) -> Option<Seq<char>>
    decreases lines.len(),
{
    if lines.len() == 0 {
        None
    } else if is_section_line(lines[0]) {
        Some(section_label(lines[0]))
    } else {
        section_of(lines.drop_first())
    }
}

/// What the lines give to the comment, line by line.
pub open spec fn comment_parts(lines: Seq<Seq<char>>) -> Seq<Seq<char>>
    decreases lines.len(),
{
    if lines.len() == 0 {
        Seq::empty()
    } else if is_comment_line(lines.last()) {
        comment_parts(lines.drop_last()).push(comment_part(lines.last()))
    } else {
        comment_parts(lines.drop_last())
    }
}

/// The comment that the lines hold: their parts, joined by one space; none
/// where no line is part of the comment.
pub open spec fn comment_of(lines: Seq<Seq<char>>) -> Option<Seq<char>> {
    let parts = comment_parts(lines);
    if parts.len() == 0 {
        None
    } else {
        Some(joined(parts, " "@))
    }
}

/// The section and the comment that an annotation holds.
pub open spec fn parsed_comments(decors: Option<Seq<char>>) -> (
    Option<Seq<char>>,
    Option<Seq<char>>,
) {
    match decors {
        Some(text) => (section_of(split_lines(text)), comment_of(split_lines(text))),
        None => (None, None),
    }
}

/// An annotation that may be missing, trimmed.
fn trim_or_empty(text: &Option<String>) -> (r: String)
    ensures
        r@ == trimmed_or_empty(text.deep_view()),
{
    match text {
        Some(text) => trim(text.as_str()),
        None => String::new(),
    }
}

/// The annotation of a dependency, from what is written before (`prefix`) and
/// after (`suffix`) its name.
pub fn get_decors(prefix: &Option<String>, suffix: &Option<String>) -> (decors: Option<String>)
    ensures
        decors.deep_view() == annotation(prefix.deep_view(), suffix.deep_view()),
{
    let before = trim_or_empty(prefix);
    let after = trim_or_empty(suffix);
    match (before.as_str().is_empty(), after.as_str().is_empty()) {
        (true, true) => None,
        (true, false) => Some(after),
        (false, true) => Some(before),
        (false, false) => {
            let mut twice = before.clone();
            twice.append("\n");
            twice.append(before.as_str());
            Some(twice)
        },
    }
}

/// The section and the comment that an annotation holds, in this order.
pub fn parse_comments(decors: Option<String>) -> (parsed: (Option<String>, Option<String>))
    ensures
        parsed.deep_view() == parsed_comments(decors.deep_view()),
{
    let mut section: Option<String> = None;
    let mut parts: Vec<String> = Vec::new();
    if let Some(decors) = decors {
        let lines = lines(decors.as_str());
        let mut i: usize = 0;
        assert(lines.deep_view().skip(0) =~= lines.deep_view());
        while i < lines.len()
            invariant
                i <= lines.len(),
                section is None ==> section_of(lines.deep_view()) == section_of(
                    lines.deep_view().skip(i as int),
                ),
                section is Some ==> section.deep_view() == section_of(lines.deep_view()),
                parts.deep_view() == comment_parts(lines.deep_view().take(i as int)),
            decreases lines.len() - i,
        {
            let line = lines[i].as_str();
            proof {
                reveal_strlit("# ");
                assert(lines.deep_view().skip(i as int).drop_first() =~= lines.deep_view().skip(
                    i + 1,
                ));
                assert(lines.deep_view().take(i + 1).drop_last() =~= lines.deep_view().take(
                    i as int,
                ));
            }
            let heading = trim(line);
            if starts_with(heading.as_str(), "# ") {
                if section.is_none() {
                    let end = heading.as_str().unicode_len();
                    section = Some(trim(heading.as_str().substring_char(2, end)));
                }
            } else {
                let bare = remove_char(line, '#');
                if !starts_with(bare.as_str(), "!") {
                    let part = trim(bare.as_str());
                    parts.push(part);
                }
            }
            i += 1;
        }
    }
    let comment = if parts.len() == 0 {
        None
    } else {
        Some(join(&parts, " "))
    };
    (section, comment)
}

/// The section and the comment of one dependency.
#[derive(Clone, Debug)]
pub struct ParsedComment {
    /// The heading of the group that the dependency opens.
    pub section: Option<String>,
    /// Why the dependency is there.
    pub comment: Option<String>,
}

/// What a `ParsedComment` is to the contracts.
pub struct ParsedCommentView {
    pub section: Option<Seq<char>>,
    pub comment: Option<Seq<char>>,
}

impl View for ParsedComment {
    type V = ParsedCommentView;

    open spec fn view(&self) -> ParsedCommentView {
        ParsedCommentView {
            section: self.section.deep_view(),
            comment: self.comment.deep_view(),
        }
    }
}

/// The section and the comment that stand in what is written before and after
/// a dependency's name.
pub open spec fn extracted(
    prefix: Option<Seq<char>>,
    suffix: Option<Seq<char>>,
) -> ParsedCommentView {
    let parsed = parsed_comments(annotation(prefix, suffix));
    ParsedCommentView { section: parsed.0, comment: parsed.1 }
}

/// The section and the comment that stand in what is written before
/// (`prefix`) and after (`suffix`) a dependency's name.
pub fn extract(prefix: &Option<String>, suffix: &Option<String>) -> (parsed: ParsedComment)
    ensures
        parsed@ == extracted(prefix.deep_view(), suffix.deep_view()),
{
    let (section, comment) = parse_comments(get_decors(prefix, suffix));
    ParsedComment { section, comment }
}

/// The version of a dependency as the manifest spells it, trimmed. A local
/// dependency without a version has the text `local path`.
pub open spec fn version_text(value: DependencyValueView, local: bool) -> Result<
    Seq<char>,
    DependencyError,
> {
    match value {
        DependencyValueView::Table { version, .. } => match version {
            VersionFieldView::Absent => if local {
                Ok("local path"@)
            } else {
                Err(DependencyError::MissingVersion)
            },
            VersionFieldView::Text(text) => Ok(trimmed(text)),
            VersionFieldView::Other => Err(DependencyError::VersionNotString),
        },
        DependencyValueView::Text(text) => Ok(trimmed(text)),
        DependencyValueView::Other => Err(DependencyError::NotInlineTable),
    }
}

/// Why a dependency has no version to show; `None` where it has one. `local`
/// says whether the dependency is a local one.
pub fn version_error(dependency: &DependencyValue, local: bool) -> (error: Option<
    DependencyError,
>)
    ensures
        match error {
            Some(error) => version_text(dependency@, local) == Err::<Seq<char>, DependencyError>(
                error,
            ),
            None => version_text(dependency@, local) is Ok,
        },
{
    match dependency {
        DependencyValue::Table { version, .. } => match version {
            VersionField::Absent => if local {
                None
            } else {
                Some(DependencyError::MissingVersion)
            },
            VersionField::Text(_) => None,
            VersionField::Other => Some(DependencyError::VersionNotString),
        },
        DependencyValue::Text(_) => None,
        DependencyValue::Other => Some(DependencyError::NotInlineTable),
    }
}

/// The version of a dependency as the manifest spells it, trimmed; `local`
/// says whether the dependency is a local one. The dependency has to have a
/// version to show: it is a string, or a table whose version is a string, or
/// a local dependency without a version.
pub fn get_version(dependency: &DependencyValue, local: bool) -> (version: String)
    requires
        version_text(dependency@, local) is Ok,
    ensures
        version_text(dependency@, local) == Ok::<Seq<char>, DependencyError>(version@),
        trimmed(version@) == version@,
{
    proof {
        lemma_version_is_trimmed(dependency@, local);
    }
    match dependency {
        DependencyValue::Table { version, .. } => match version {
            VersionField::Absent => "local path".to_owned(),
            VersionField::Text(text) => trim(text.as_str()),
            VersionField::Other => unreached(),
        },
        DependencyValue::Text(text) => trim(text.as_str()),
        DependencyValue::Other => unreached(),
    }
}

/// The version that a dependency shows neither begins nor ends with white
/// space.
pub proof fn lemma_version_is_trimmed(value: DependencyValueView, local: bool)
    ensures
        version_text(value, local) matches Ok(version) ==> trimmed(version) == version,
{
    match value {
        DependencyValueView::Table { version: VersionFieldView::Text(text), .. } => {
            lemma_trimmed_stays_trimmed(text);
        },
        DependencyValueView::Text(text) => {
            lemma_trimmed_stays_trimmed(text);
        },
        _ => {
            reveal_strlit("local path");
        },
    }
}

/// The names of the features: each member of the list as the manifest spells
/// it, trimmed and without its quotation marks.
pub open spec fn feature_names(features: Seq<Seq<char>>) -> Seq<Seq<char>> {
    features.map_values(|feature: Seq<char>| without(trimmed(feature), '"'))
}

/// The names of the features of a dependency, joined by a comma and one
/// space; empty where it names none.
pub open spec fn features_text(value: DependencyValueView) -> Seq<char> {
    match value {
        DependencyValueView::Table { features: Some(features), .. } => joined(
            feature_names(features),
            ", "@,
        ),
        _ => Seq::empty(),
    }
}

/// The features of a dependency, joined by a comma and a space.
pub fn get_features(dependency: &DependencyValue) -> (features: String)
    ensures
        features@ == features_text(dependency@),
{
    match dependency {
        DependencyValue::Table { features: Some(features), .. } => {
            let mut names: Vec<String> = Vec::new();
            let mut i: usize = 0;
            while i < features.len()
                invariant
                    i <= features.len(),
                    names.deep_view() == feature_names(features.deep_view().take(i as int)),
                decreases features.len() - i,
            {
                let ghost before = names.deep_view();
                let name = remove_char(trim(features[i].as_str()).as_str(), '"');
                names.push(name);
                assert(names.deep_view() =~= before.push(name@));
                i += 1;
            }
            assert(features.deep_view().take(i as int) =~= features.deep_view());
            join(&names, ", ")
        },
        _ => String::new(),
    }
}

/// Whether one of the columns shows a link.
pub open spec fn wants_links(columns: Seq<Column>) -> bool {
    exists|i: int| 0 <= i < columns.len() && #[trigger] columns[i].has_link()
}

/// Whether one of the columns shows the version.
pub open spec fn wants_version(columns: Seq<Column>) -> bool {
    exists|i: int| 0 <= i < columns.len() && #[trigger] columns[i].has_version()
}

/// Whether the registry has to be asked about a dependency: it is no local
/// one, and one of the columns shows a link.
pub fn needs_registry(dependency: &DependencyEntry, columns: &Vec<Column>) -> (needed: bool)
    ensures
        needed == (!dependency@.value.is_local() && wants_links(columns@)),
{
    if dependency.value.is_local() {
        return false;
    }
    let mut i: usize = 0;
    while i < columns.len()
        invariant
            i <= columns.len(),
            !dependency@.value.is_local(),
            forall|j: int| 0 <= j < i ==> !(#[trigger] columns@[j]).has_link(),
        decreases columns.len() - i,
    {
        if columns[i].needs_link() {
            return true;
        }
        i += 1;
    }
    false
}

/// The links of a registry record that may be missing.
pub open spec fn links_of(registry: Option<&RegistryMetadata>) -> Option<RegistryMetadataView> {
    match registry {
        Some(links) => Some(links@),
        None => None,
    }
}

/// The row that announces a section: its first cell holds the section between
/// two pairs of asterisks, the others are empty.
pub open spec fn section_row(section: Seq<char>, width: nat) -> Seq<Seq<char>> {
    Seq::new(
        width,
        |i: int|
            if i == 0 {
                "**"@ + section + "**"@
            } else {
                Seq::empty()
            },
    )
}

/// A Markdown link that shows `name` and leads to `url`.
pub open spec fn link(name: Seq<char>, url: Seq<char>) -> Seq<char> {
    "["@ + name + "]("@ + url + ")"@
}

/// The name of a dependency, as a link to `url` where there is one and the
/// dependency is no local one.
pub open spec fn linked_name(name: Seq<char>, local: bool, url: Option<Seq<char>>) -> Seq<char> {
    match url {
        Some(url) if !local => link(name, url),
        _ => name,
    }
}

/// The version without quotation marks and without the operators `=` and `~`.
pub open spec fn plain_version(raw: Seq<char>) -> Seq<char> {
    without(without(without(raw, '"'), '='), '~')
}

/// The version as the manifest spells it; without its quotation marks where
/// it is a field of a table.
pub open spec fn exact_version(value: DependencyValueView, raw: Seq<char>) -> Seq<char> {
    if value.is_table() {
        without(raw, '"')
    } else {
        raw
    }
}

/// The link that a column shows, where the registry's record holds it: for a
/// column that shows any link, the first of repository, homepage and
/// documentation.
pub open spec fn shown_link(column: Column, links: Option<RegistryMetadataView>) -> Option<
    Seq<char>,
> {
    match links {
        Some(links) => match column {
            Column::NameWithRepository => links.repository,
            Column::NameWithDocumentation => links.documentation,
            Column::NameWithHomepage => links.homepage,
            Column::NameWithAnyLink => links.any(),
            _ => None,
        },
        None => None,
    }
}

/// The cell of one column in the row of a dependency.
pub open spec fn cell(
    column: Column,
    dependency: DependencyEntryView,
    links: Option<RegistryMetadataView>,
    comment: Option<Seq<char>>,
) -> Seq<char> {
    let local = dependency.value.is_local();
    match column {
        Column::Name => dependency.name,
        Column::NameWithRepository
        | Column::NameWithDocumentation
        | Column::NameWithHomepage
        | Column::NameWithAnyLink => linked_name(
            dependency.name,
            local,
            shown_link(column, links),
        ),
        Column::Version => match version_text(dependency.value, local) {
            Ok(raw) => plain_version(raw),
            Err(_) => Seq::empty(),
        },
        Column::ExactVersion => match version_text(dependency.value, local) {
            Ok(raw) => exact_version(dependency.value, raw),
            Err(_) => Seq::empty(),
        },
        Column::Features => features_text(dependency.value),
        Column::Comment => match comment {
            Some(comment) => without(comment, '\n'),
            None => Seq::empty(),
        },
    }
}

/// The row of a dependency: one cell for each column, in their order.
pub open spec fn data_row(
    columns: Seq<Column>,
    dependency: DependencyEntryView,
    links: Option<RegistryMetadataView>,
    comment: Option<Seq<char>>,
) -> Seq<Seq<char>> {
    Seq::new(columns.len(), |i: int| cell(columns[i], dependency, links, comment))
}

/// The rows that a section heading gives: one where there is a heading.
pub open spec fn section_rows(section: Option<Seq<char>>, width: nat) -> Seq<Seq<Seq<char>>> {
    match section {
        Some(section) => seq![section_row(section, width)],
        None => Seq::empty(),
    }
}

/// The rows of one dependency. A section heading gives a row of its own in any
/// case. The dependency's own row follows, unless it has no comment and
/// `skip_uncommented` is set. That row cannot be made, and neither can any
/// other, where a column shows the version and the dependency has none to
/// show.
pub open spec fn projected(
    dependency: DependencyEntryView,
    parsed: ParsedCommentView,
    links: Option<RegistryMetadataView>,
    columns: Seq<Column>,
    skip_uncommented: bool,
) -> Result<Seq<Seq<Seq<char>>>, DependencyError> {
    let head = section_rows(parsed.section, columns.len());
    if parsed.comment is None && skip_uncommented {
        Ok(head)
    } else {
        match version_text(dependency.value, dependency.value.is_local()) {
            Err(e) if wants_version(columns) => Err(e),
            _ => Ok(head.push(data_row(columns, dependency, links, parsed.comment))),
        }
    }
}

/// The rows of a result that holds rows.
pub open spec fn rows_of(r: Result<Vec<Vec<String>>, DependencyError>) -> Result<
    Seq<Seq<Seq<char>>>,
    DependencyError,
> {
    match r {
        Ok(rows) => Ok(rows.deep_view()),
        Err(e) => Err(e),
    }
}

/// `before`, `middle` and `after` put together.
fn enclose(before: &str, middle: &str, after: &str) -> (r: String)
    ensures
        r@ == before@ + middle@ + after@,
{
    let mut r = before.to_owned();
    r.append(middle);
    r.append(after);
    r
}

/// The row that announces `section`, `width` cells wide.
fn make_section_row(section: &str, width: usize) -> (row: Vec<String>)
    ensures
        row.deep_view() == section_row(section@, width as nat),
{
    let mut row: Vec<String> = Vec::new();
    let mut i: usize = 0;
    while i < width
        invariant
            i <= width,
            row.deep_view() == section_row(section@, i as nat),
        decreases width - i,
    {
        let ghost before = row.deep_view();
        let text = if i == 0 {
            enclose("**", section, "**")
        } else {
            String::new()
        };
        row.push(text);
        assert(row.deep_view() =~= before.push(text@));
        i += 1;
    }
    row
}

/// The name of a dependency, as a link to `url` where there is one and the
/// dependency is no local one.
fn make_linked_name(name: &str, local: bool, url: Option<&String>) -> (r: String)
    ensures
        r@ == linked_name(name@, local, url.deep_view()),
{
    match url {
        Some(url) if !local => {
            let mut r = enclose("[", name, "](");
            r.append(url.as_str());
            r.append(")");
            r
        },
        _ => name.to_owned(),
    }
}

/// The link that a column shows, where the registry's record holds it.
fn find_link<'a>(column: Column, registry: Option<&'a RegistryMetadata>) -> (url: Option<
    &'a String,
>)
    ensures
        url.deep_view() == shown_link(column, links_of(registry)),
{
    match registry {
        Some(links) => match column {
            Column::NameWithRepository => links.repository.as_ref(),
            Column::NameWithDocumentation => links.documentation.as_ref(),
            Column::NameWithHomepage => links.homepage.as_ref(),
            Column::NameWithAnyLink => if links.repository.is_some() {
                links.repository.as_ref()
            } else if links.homepage.is_some() {
                links.homepage.as_ref()
            } else {
                links.documentation.as_ref()
            },
            _ => None,
        },
        None => None,
    }
}

/// The rows of one dependency in the table, from its section and comment, the
/// registry's record and the columns that were asked for.
///
/// Where the dependency is no local one and a column shows a link, the
/// registry's record has to be there.
pub fn project(
    dependency: &DependencyEntry,
    parsed: &ParsedComment,
    registry: Option<&RegistryMetadata>,
    columns: &Vec<Column>,
    skip_uncommented: bool,
) -> (rows: Result<Vec<Vec<String>>, DependencyError>)
    requires
        !dependency@.value.is_local() && wants_links(columns@) ==> registry is Some,
    ensures
        rows_of(rows) == projected(
            dependency@,
            parsed@,
            links_of(registry),
            columns@,
            skip_uncommented,
        ),
{
    let mut rows: Vec<Vec<String>> = Vec::new();
    if let Some(section) = &parsed.section {
        let row = make_section_row(section.as_str(), columns.len());
        rows.push(row);
    }
    assert(rows.deep_view() =~= section_rows(parsed@.section, columns@.len()));
    if parsed.comment.is_none() && skip_uncommented {
        return Ok(rows);
    }
    let local = dependency.value.is_local();
    let name = dependency.name.as_str();
    let mut row: Vec<String> = Vec::new();
    let mut i: usize = 0;
    while i < columns.len()
        invariant
            i <= columns.len(),
            local == dependency@.value.is_local(),
            name@ == dependency@.name,
            !(parsed@.comment is None && skip_uncommented),
            forall|j: int|
                0 <= j < i && (#[trigger] columns@[j]).has_version() ==> version_text(
                    dependency@.value,
                    local,
                ) is Ok,
            row.deep_view() == data_row(
                columns@.take(i as int),
                dependency@,
                links_of(registry),
                parsed@.comment,
            ),
        decreases columns.len() - i,
    {
        let column = columns[i];
        let text = match column {
            Column::Name => name.to_owned(),
            Column::NameWithRepository
            | Column::NameWithDocumentation
            | Column::NameWithHomepage
            | Column::NameWithAnyLink => make_linked_name(
                name,
                local,
                find_link(column, registry),
            ),
            Column::Version => match version_error(&dependency.value, local) {
                Some(error) => {
                    assert(columns@[i as int].has_version());
                    return Err(error);
                },
                None => {
                    let raw = get_version(&dependency.value, local);
                    remove_char(
                        remove_char(remove_char(raw.as_str(), '"').as_str(), '=').as_str(),
                        '~',
                    )
                },
            },
            Column::ExactVersion => match version_error(&dependency.value, local) {
                Some(error) => {
                    assert(columns@[i as int].has_version());
                    return Err(error);
                },
                None => {
                    let raw = get_version(&dependency.value, local);
                    match &dependency.value {
                        DependencyValue::Table { .. } => remove_char(raw.as_str(), '"'),
                        _ => raw,
                    }
                },
            },
            Column::Features => get_features(&dependency.value),
            Column::Comment => match &parsed.comment {
                Some(comment) => remove_char(comment.as_str(), '\n'),
                None => String::new(),
            },
        };
        let ghost before = row.deep_view();
        row.push(text);
        assert(row.deep_view() =~= before.push(text@));
        i += 1;
    }
    assert(columns@.take(i as int) =~= columns@);
    let ghost head = rows.deep_view();
    rows.push(row);
    assert(rows.deep_view() =~= head.push(row.deep_view()));
    Ok(rows)
}

/// The rows of one dependency in the table: the section and the comment are
/// read from what is written around its name, and the cells follow the columns
/// that were asked for.
///
/// Where the dependency is no local one and a column shows a link, the
/// registry's record has to be there.
pub fn parse_dependency(
    dependency: &DependencyEntry,
    registry: Option<&RegistryMetadata>,
    columns: &Vec<Column>,
    skip_uncommented: bool,
) -> (rows: Result<Vec<Vec<String>>, DependencyError>)
    requires
        !dependency@.value.is_local() && wants_links(columns@) ==> registry is Some,
    ensures
        rows_of(rows) == projected(
            dependency@,
            extracted(dependency@.prefix, dependency@.suffix),
            links_of(registry),
            columns@,
            skip_uncommented,
        ),
{
    let parsed = extract(&dependency.prefix, &dependency.suffix);
    project(dependency, &parsed, registry, columns, skip_uncommented)
}

/// Which dependency has no rows, and why.
#[derive(Clone, Copy, Debug, PartialEq, Eq, Structural)]
pub struct EntryError {
    /// The position of the dependency in the manifest, counted from 0.
    pub entry: usize,
    /// Why it has no version to show.
    pub error: DependencyError,
}

/// What a registry record that may be missing is to the contracts.
pub open spec fn record_view(record: Option<RegistryMetadata>) -> Option<RegistryMetadataView> {
    match record {
        Some(links) => Some(links@),
        None => None,
    }
}

/// What dependencies with their registry records are to the contracts.
pub open spec fn entries_view(entries: Seq<(DependencyEntry, Option<RegistryMetadata>)>) -> Seq<
    (DependencyEntryView, Option<RegistryMetadataView>),
> {
    entries.map_values(
        |entry: (DependencyEntry, Option<RegistryMetadata>)| (entry.0@, record_view(entry.1)),
    )
}

/// Whether each dependency that needs a registry record has one.
pub open spec fn records_present(
    entries: Seq<(DependencyEntryView, Option<RegistryMetadataView>)>,
    columns: Seq<Column>,
) -> bool {
    forall|i: int|
        0 <= i < entries.len() && !(#[trigger] entries[i]).0.value.is_local() && wants_links(
            columns,
        ) ==> entries[i].1 is Some
}

/// The rows of all the dependencies, in the order of the manifest: the rows of
/// the first, then those of the second, and so on. Where a dependency has no
/// rows for want of a version, the first such dependency is the error.
pub open spec fn projected_all(
    entries: Seq<(DependencyEntryView, Option<RegistryMetadataView>)>,
    columns: Seq<Column>,
    skip_uncommented: bool,
) -> Result<Seq<Seq<Seq<char>>>, EntryError>
    decreases entries.len(),
{
    if entries.len() == 0 {
        Ok(Seq::empty())
    } else {
        let last = entries.last();
        match projected_all(entries.drop_last(), columns, skip_uncommented) {
            Err(e) => Err(e),
            Ok(rows) => match projected(
                last.0,
                extracted(last.0.prefix, last.0.suffix),
                last.1,
                columns,
                skip_uncommented,
            ) {
                Ok(more) => Ok(rows + more),
                Err(error) => Err(EntryError { entry: (entries.len() - 1) as usize, error }),
            },
        }
    }
}

/// The rows of a result that holds the rows of all the dependencies.
pub open spec fn all_rows_of(r: Result<Vec<Vec<String>>, EntryError>) -> Result<
    Seq<Seq<Seq<char>>>,
    EntryError,
> {
    match r {
        Ok(rows) => Ok(rows.deep_view()),
        Err(e) => Err(e),
    }
}

/// The rows of all the dependencies, each given with the registry's record of
/// it, in the order of the manifest.
///
/// Where a dependency is no local one and a column shows a link, its record
/// has to be there.
pub fn parse_dependencies(
    entries: &Vec<(DependencyEntry, Option<RegistryMetadata>)>,
    columns: &Vec<Column>,
    skip_uncommented: bool,
) -> (rows: Result<Vec<Vec<String>>, EntryError>)
    requires
        records_present(entries_view(entries@), columns@),
    ensures
        all_rows_of(rows) == projected_all(entries_view(entries@), columns@, skip_uncommented),
{
    let ghost given = entries_view(entries@);
    let mut rows: Vec<Vec<String>> = Vec::new();
    let mut i: usize = 0;
    assert(rows.deep_view() =~= Seq::<Seq<Seq<char>>>::empty());
    while i < entries.len()
        invariant
            i <= entries.len(),
            given == entries_view(entries@),
            records_present(given, columns@),
            projected_all(given.take(i as int), columns@, skip_uncommented) == Ok::<
                Seq<Seq<Seq<char>>>,
                EntryError,
            >(rows.deep_view()),
        decreases entries.len() - i,
    {
        let ghost before = rows.deep_view();
        proof {
            assert(given.take(i + 1).drop_last() =~= given.take(i as int));
            assert(given[i as int] == (entries@[i as int].0@, record_view(entries@[i as int].1)));
        }
        match parse_dependency(&entries[i].0, entries[i].1.as_ref(), columns, skip_uncommented) {
            Ok(mut more) => {
                let ghost added = more.deep_view();
                rows.append(&mut more);
                assert(rows.deep_view() =~= before + added);
            },
            Err(error) => {
                proof {
                    lemma_first_error_stays(given, i + 1, columns@, skip_uncommented);
                }
                return Err(EntryError { entry: i, error });
            },
        }
        i += 1;
    }
    assert(given.take(i as int) =~= given);
    Ok(rows)
}

/// Once the rows of the first `upto` dependencies are an error, so are those
/// of all of them, and it is the same error.
proof fn lemma_first_error_stays(
    entries: Seq<(DependencyEntryView, Option<RegistryMetadataView>)>,
    upto: int,
    columns: Seq<Column>,
    skip_uncommented: bool,
)
    requires
        0 <= upto <= entries.len(),
        projected_all(entries.take(upto), columns, skip_uncommented) is Err,
    ensures
        projected_all(entries, columns, skip_uncommented) == projected_all(
            entries.take(upto),
            columns,
            skip_uncommented,
        ),
    decreases entries.len() - upto,
{
    if upto < entries.len() {
        assert(entries.take(upto + 1).drop_last() =~= entries.take(upto));
        lemma_first_error_stays(entries, upto + 1, columns, skip_uncommented);
    } else {
        assert(entries.take(upto) =~= entries);
    }
}

/// A line that is kept out of the comment by a leading `!` gives nothing to
/// it, wherever in the annotation it stands: the comment is that of the other
/// lines.
pub proof fn lemma_escaped_line_gives_nothing(
    before: Seq<Seq<char>>,
    line: Seq<char>,
    after: Seq<Seq<char>>,
)
    requires
        is_escaped(line),
    ensures
        comment_parts(before + seq![line] + after) == comment_parts(before + after),
        comment_of(before + seq![line] + after) == comment_of(before + after),
    decreases after.len(),
{
    let with = before + seq![line] + after;
    if after.len() == 0 {
        assert(with.drop_last() =~= before);
    } else {
        lemma_escaped_line_gives_nothing(before, line, after.drop_last());
        assert(with.drop_last() =~= before + seq![line] + after.drop_last());
        assert((before + after).drop_last() =~= before + after.drop_last());
    }
}

/// Where dependencies without a comment are not skipped, a dependency without
/// one still has its row, after the row of its section if it opens one, and the
/// cell of each comment column in it is empty. This holds of every dependency
/// that has a version to show, and of every other as long as no column shows
/// the version.
pub proof fn lemma_uncommented_row_is_kept(
    dependency: DependencyEntryView,
    section: Option<Seq<char>>,
    links: Option<RegistryMetadataView>,
    columns: Seq<Column>,
)
    requires
        version_text(dependency.value, dependency.value.is_local()) is Ok || !wants_version(
            columns,
        ),
    ensures
        ({
            let parsed = ParsedCommentView { section, comment: None };
            let row = data_row(columns, dependency, links, None);
            &&& projected(dependency, parsed, links, columns, false) matches Ok(rows)
            &&& rows == section_rows(section, columns.len()).push(row)
            &&& row.len() == columns.len()
            &&& forall|i: int|
                0 <= i < columns.len() && columns[i] == Column::Comment ==> (
                #[trigger] row[i]).len() == 0
        }),
{
}

/// Where dependencies without a comment are skipped, a dependency without one
/// has no row of its own, whatever its version is; the row of the section that
/// it opens is still there.
pub proof fn lemma_uncommented_row_is_skipped(
    dependency: DependencyEntryView,
    section: Option<Seq<char>>,
    links: Option<RegistryMetadataView>,
    columns: Seq<Column>,
)
    ensures
        ({
            let parsed = ParsedCommentView { section, comment: None };
            &&& projected(dependency, parsed, links, columns, true) matches Ok(rows)
            &&& rows == section_rows(section, columns.len())
            &&& section is None ==> rows.len() == 0
            &&& section matches Some(heading) ==> rows == seq![
                section_row(heading, columns.len()),
            ]
        }),
{
}

/// The rows of a dependency are an error in one case only: its own row is
/// due, a column shows the version, and the dependency has none to show. The
/// error is then the reason why it has none. A missing comment, missing
/// features or a local dependency without a version are never an error.
pub proof fn lemma_rows_fail_for_want_of_a_version_only(
    dependency: DependencyEntryView,
    parsed: ParsedCommentView,
    links: Option<RegistryMetadataView>,
    columns: Seq<Column>,
    skip_uncommented: bool,
)
    ensures
        ({
            let rows = projected(dependency, parsed, links, columns, skip_uncommented);
            let version = version_text(dependency.value, dependency.value.is_local());
            let due = parsed.comment is Some || !skip_uncommented;
            &&& rows is Err <==> due && wants_version(columns) && version is Err
            &&& rows is Err ==> rows->Err_0 == version->Err_0
            &&& version is Err <==> match dependency.value {
                DependencyValueView::Text(_) => false,
                DependencyValueView::Table { version, path, .. } => version is Other || (version
                    is Absent && !path),
                DependencyValueView::Other => true,
            }
        }),
{
}

/// The rows depend on nothing but the dependency, its section and comment, the
/// registry's record, the columns and the flag: whatever `project` returns for
/// the same of these, at any two times, holds the same rows or the same error.
pub proof fn lemma_rows_are_determined(
    first: Result<Vec<Vec<String>>, DependencyError>,
    second: Result<Vec<Vec<String>>, DependencyError>,
    dependency: DependencyEntryView,
    parsed: ParsedCommentView,
    links: Option<RegistryMetadataView>,
    columns: Seq<Column>,
    skip_uncommented: bool,
)
    requires
        rows_of(first) == projected(dependency, parsed, links, columns, skip_uncommented),
        rows_of(second) == projected(dependency, parsed, links, columns, skip_uncommented),
    ensures
        rows_of(first) == rows_of(second),
{
}

} // verus!
