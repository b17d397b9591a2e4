use cargo_depcription::args::{CargoCli, Column, Depcription};
use std::path::PathBuf;

const ALL: [Column; 9] = [
    Column::Name,
    Column::NameWithRepository,
    Column::NameWithDocumentation,
    Column::NameWithHomepage,
    Column::NameWithAnyLink,
    Column::Version,
    Column::ExactVersion,
    Column::Features,
    Column::Comment,
];

#[test]
fn each_column_has_its_heading() {
    let expected = [
        "Library", "Library", "Library", "Library", "Library", "Version", "Version", "Features",
        "Comment",
    ];
    for (column, heading) in ALL.iter().zip(expected) {
        assert_eq!(column.to_string(), heading);
    }
}

#[test]
fn only_the_link_columns_need_a_link() {
    let expected = [false, true, true, true, true, false, false, false, false];
    for (column, needed) in ALL.iter().zip(expected) {
        assert_eq!(column.needs_link(), needed);
    }
}

#[test]
fn columns_default_to_name_version_comment() {
    let options = Depcription { manifest_path: None, skip_uncommented: false, column: None };
    assert_eq!(options.columns(), vec![Column::Name, Column::Version, Column::Comment]);
}

#[test]
fn given_columns_are_kept_in_order() {
    let given = vec![Column::Comment, Column::Name, Column::Comment];
    let options = Depcription {
        manifest_path: Some(PathBuf::from("Cargo.toml")),
        skip_uncommented: true,
        column: Some(given.clone()),
    };
    assert_eq!(options.columns(), given);
    let none = Depcription { manifest_path: None, skip_uncommented: true, column: Some(vec![]) };
    assert_eq!(none.columns(), vec![]);
}

#[test]
fn subcommand_options_are_handed_out() {
    let cli = CargoCli::Depcription(Depcription {
        manifest_path: Some(PathBuf::from("a/Cargo.toml")),
        skip_uncommented: true,
        column: Some(vec![Column::Features]),
    });
    let options = cli.as_depcription();
    assert_eq!(options.manifest_path, Some(PathBuf::from("a/Cargo.toml")));
    assert!(options.skip_uncommented);
    assert_eq!(options.column, Some(vec![Column::Features]));
}
