//! A dependency as the manifest declares it, and what the registry knows of it.

use vstd::prelude::*;

verus! {

/// The `version` field of a dependency that is written as a table.
#[derive(Clone, Debug)]
pub enum VersionField {
    /// The table has no such field.
    Absent,
    /// The field holds a string: its text as the manifest spells it.
    Text(String),
    /// The field holds something that is no string.
    Other,
}

/// What a `VersionField` is to the contracts.
pub enum VersionFieldView {
    Absent,
    Text(Seq<char>),
    Other,
}

impl View for VersionField {
    type V = VersionFieldView;

    open spec fn view(&self) -> VersionFieldView {
        match self {
            VersionField::Absent => VersionFieldView::Absent,
            VersionField::Text(text) => VersionFieldView::Text(text@),
            VersionField::Other => VersionFieldView::Other,
        }
    }
}

/// What stands to the right of a dependency's name.
#[derive(Clone, Debug)]
pub enum DependencyValue {
    /// A string: the version, as the manifest spells it.
    Text(String),
    /// A table of fields.
    Table {
        /// Its `version` field.
        version: VersionField,
        /// Whether it has a `path` field: the dependency is then a local one.
        path: bool,
        /// The members of its `features` field, each as the manifest spells
        /// it; none where the field is missing or no list.
        features: Option<Vec<String>>,
    },
    /// Anything else.
    Other,
}

/// What a `DependencyValue` is to the contracts.
pub enum DependencyValueView {
    Text(Seq<char>),
    Table { version: VersionFieldView, path: bool, features: Option<Seq<Seq<char>>> },
    Other,
}

impl View for DependencyValue {
    type V = DependencyValueView;

    open spec fn view(&self) -> DependencyValueView {
        match self {
            DependencyValue::Text(text) => DependencyValueView::Text(text@),
            DependencyValue::Table { version, path, features } => DependencyValueView::Table {
                version: version@,
                path: *path,
                features: features.deep_view(),
            },
            DependencyValue::Other => DependencyValueView::Other,
        }
    }
}

impl DependencyValueView {
    /// Whether the dependency is found on the file system and not in the
    /// registry.
    pub open spec fn is_local(self) -> bool {
        self matches DependencyValueView::Table { path, .. } && path
    }

    /// Whether the value is a table of fields.
    pub open spec fn is_table(self) -> bool {
        self is Table
    }
}

impl DependencyValue {
    /// Whether the dependency is found on the file system and not in the
    /// registry.
    pub fn is_local(&self) -> (local: bool)
        ensures
            local == self@.is_local(),
    {
        match self {
            DependencyValue::Table { path, .. } => *path,
            _ => false,
        }
    }
}

/// One entry of the manifest's dependency table.
#[derive(Clone, Debug)]
pub struct DependencyEntry {
    /// The name of the dependency.
    pub name: String,
    /// What is written before the name, comments included.
    pub prefix: Option<String>,
    /// What is written between the name and the equals sign.
    pub suffix: Option<String>,
    /// What stands to the right of the name.
    pub value: DependencyValue,
}

/// What a `DependencyEntry` is to the contracts.
pub struct DependencyEntryView {
    pub name: Seq<char>,
    pub prefix: Option<Seq<char>>,
    pub suffix: Option<Seq<char>>,
    pub value: DependencyValueView,
}

impl View for DependencyEntry {
    type V = DependencyEntryView;

    open spec fn view(&self) -> DependencyEntryView {
        DependencyEntryView {
            name: self.name@,
            prefix: self.prefix.deep_view(),
            suffix: self.suffix.deep_view(),
            value: self.value@,
        }
    }
}

/// The links that the registry records for a crate.
#[derive(Clone, Debug)]
pub struct RegistryMetadata {
    pub repository: Option<String>,
    pub homepage: Option<String>,
    pub documentation: Option<String>,
}

/// What `RegistryMetadata` is to the contracts.
pub struct RegistryMetadataView {
    pub repository: Option<Seq<char>>,
    pub homepage: Option<Seq<char>>,
    pub documentation: Option<Seq<char>>,
}

impl View for RegistryMetadata {
    type V = RegistryMetadataView;

    open spec fn view(&self) -> RegistryMetadataView {
        RegistryMetadataView {
            repository: self.repository.deep_view(),
            homepage: self.homepage.deep_view(),
            documentation: self.documentation.deep_view(),
        }
    }
}

impl RegistryMetadataView {
    /// The first link that is recorded, of repository, homepage and
    /// documentation, in this order.
    pub open spec fn any(self) -> Option<Seq<char>> {
        if self.repository is Some {
            self.repository
        } else if self.homepage is Some {
            self.homepage
        } else {
            self.documentation
        }
    }
}

/// Why a dependency has no version to show.
#[derive(Clone, Copy, Debug, PartialEq, Eq, Structural)]
pub enum DependencyError {
    /// It is a table without a `version` field, and no local dependency.
    MissingVersion,
    /// Its `version` field is no string.
    VersionNotString,
    /// It is neither a string nor a table.
    NotInlineTable,
}

impl DependencyError {
    /// The message for a dependency called `name`.
    pub open spec fn text(self, name: Seq<char>) -> Seq<char> {
        match self {
            DependencyError::MissingVersion => "Dependency "@ + name + " has no \"version\" value"@,
            DependencyError::VersionNotString => "Dependency "@ + name
                + " version is not \"String\" type"@,
            DependencyError::NotInlineTable => "Dependency "@ + name
                + " value is not \"InlineTable\" type"@,
        }
    }

    /// The message for a dependency called `name`.
    pub fn message(&self, name: &str) -> (message: String)
        ensures
            message@ == self.text(name@),
    {
        let mut message = "Dependency ".to_owned();
        message.append(name);
        match self {
            DependencyError::MissingVersion => message.append(" has no \"version\" value"),
            DependencyError::VersionNotString => message.append(" version is not \"String\" type"),
            DependencyError::NotInlineTable => message.append(
                " value is not \"InlineTable\" type",
            ),
        }
        message
    }
}

} // verus!
