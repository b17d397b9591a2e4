//! What the command line selects: the manifest to read, the columns of the
//! table, and whether dependencies without a comment are listed.

use std::path::PathBuf;
use vstd::prelude::*;

verus! {

/// `std::path::PathBuf`, an owned file-system path. Nothing is stated of its
/// contents: the library only carries a path from the command line to whoever
/// opens the file.
#[verifier::external_type_specification]
#[verifier::external_body]
pub struct ExPathBuf(PathBuf);

/// One column of the table.
#[derive(Clone, Copy, Debug, PartialEq, Eq, Structural)]
pub enum Column {
    Name,
    NameWithRepository,
    NameWithDocumentation,
    NameWithHomepage,
    NameWithAnyLink,
    Version,
    ExactVersion,
    Features,
    Comment,
}

impl Column {
    /// The heading under which the column is shown.
    pub open spec fn title(self) -> Seq<char> {
        match self {
            Column::Name
            | Column::NameWithRepository
            | Column::NameWithDocumentation
            | Column::NameWithHomepage
            | Column::NameWithAnyLink => "Library"@,
            Column::Version | Column::ExactVersion => "Version"@,
            Column::Features => "Features"@,
            Column::Comment => "Comment"@,
        }
    }

    /// Whether the column shows a link, which only the registry knows.
    pub open spec fn has_link(self) -> bool {
        self == Column::NameWithRepository || self == Column::NameWithDocumentation || self
            == Column::NameWithHomepage || self == Column::NameWithAnyLink
    }

    /// Whether the column shows the version of the dependency.
    pub open spec fn has_version(self) -> bool {
        self == Column::Version || self == Column::ExactVersion
    }

    /// The heading under which the column is shown.
    pub fn to_string(&self) -> (s: String)
        ensures
            s@ == self.title(),
    {
        let title = match self {
            Column::Name
            | Column::NameWithRepository
            | Column::NameWithDocumentation
            | Column::NameWithHomepage
            | Column::NameWithAnyLink => "Library",
            Column::Version => "Version",
            Column::ExactVersion => "Version",
            Column::Features => "Features",
            Column::Comment => "Comment",
        };
        title.to_owned()
    }

    /// Whether the column shows a link, which only the registry knows.
    pub fn needs_link(&self) -> (b: bool)
        ensures
            b == self.has_link(),
    {
        match self {
            Column::NameWithRepository
            | Column::NameWithDocumentation
            | Column::NameWithHomepage
            | Column::NameWithAnyLink => true,
            _ => false,
        }
    }
}

/// The columns shown when the command line names none.
pub open spec fn default_columns() -> Seq<Column> {
    seq![Column::Name, Column::Version, Column::Comment]
}

/// The options of the `depcription` subcommand.
#[derive(Clone)]
pub struct Depcription {
    /// Cargo manifest to use; none stands for the manifest of the current
    /// directory.
    pub manifest_path: Option<PathBuf>,
    /// Do not list the dependencies that are not commented.
    pub skip_uncommented: bool,
    /// Columns to use instead of the default ones.
    pub column: Option<Vec<Column>>,
}

impl Depcription {
    /// The columns that the options select, in the order in which they were
    /// given.
    pub open spec fn selected(self) -> Seq<Column> {
        match self.column {
            Some(columns) => columns@,
            None => default_columns(),
        }
    }

    /// The columns of the table: those given, or name, version and comment.
    pub fn columns(&self) -> (columns: Vec<Column>)
        ensures
            columns@ == self.selected(),
    {
        match &self.column {
            Some(columns) => columns.clone(),
            None => vec![Column::Name, Column::Version, Column::Comment],
        }
    }
}

/// The command line of `cargo`, as far as this tool answers to it.
pub enum CargoCli {
    /// Transforms the dependencies of a project into a Markdown table that
    /// explains why each was chosen.
    Depcription(Depcription),
}

impl CargoCli {
    /// The options of the subcommand that was called.
    pub fn as_depcription(&self) -> (options: &Depcription)
        ensures
            *self == CargoCli::Depcription(*options),
    {
        match self {
            CargoCli::Depcription(depcription) => depcription,
        }
    }
}

} // verus!
