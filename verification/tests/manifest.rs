use cargo_depcription::args::Column;
use cargo_depcription::dependency::{DependencyError, DependencyValue, VersionField};
use cargo_depcription::dependency::DependencyEntry;
use cargo_depcription::manifest::{
    annotation_text, collect_entries, dependency_entry, features_field, read_dependencies,
    scalar_value, section_error, version_field, ManifestError,
};
use cargo_depcription::dependency::RegistryMetadata;
use cargo_depcription::parse_manifest::{
    needs_registry, parse_dependencies, parse_dependency, EntryError,
};
use cargo_depcription::table::{describe_dependencies, render_table};

const SAMPLE: &str = r#"[package]
name = "demo"

[dependencies]
# Local
## our own helpers
helpers = { path = "../helpers", features = ["a", "b"] }
serde = "1.0"
"#;

#[test]
fn manifest_entries_are_read_in_order() {
    let dependencies = read_dependencies(SAMPLE).ok().unwrap();
    assert_eq!(dependencies.len(), 2);
    println!("{:?}", dependencies);
    assert_eq!(dependencies[0].name, "helpers");
    assert_eq!(dependencies[1].name, "serde");
    assert!(dependencies[0].value.is_local());
    assert!(!dependencies[1].value.is_local());
    match &dependencies[0].value {
        DependencyValue::Table { version, path, features } => {
            assert!(matches!(version, VersionField::Absent));
            assert!(*path);
            assert_eq!(features.as_ref().map(|f| f.len()), Some(2));
        }
        _ => panic!("not a table"),
    }
}

#[test]
fn two_dependencies_give_a_section_row_and_two_data_rows() {
    let dependencies = read_dependencies(SAMPLE).ok().unwrap();
    let columns = vec![Column::Name, Column::Version, Column::Comment];
    let mut rows: Vec<Vec<String>> = Vec::new();
    for dependency in &dependencies {
        assert!(!needs_registry(dependency, &columns));
        rows.extend(parse_dependency(dependency, None, &columns, false).ok().unwrap());
    }
    let expected: Vec<Vec<String>> = vec![
        vec!["**Local**".to_string(), String::new(), String::new()],
        vec!["helpers".to_string(), "local path".to_string(), "our own helpers".to_string()],
        vec!["serde".to_string(), "1.0".to_string(), String::new()],
    ];
    assert_eq!(rows, expected);
    let text = render_table(&columns, rows).ok().unwrap();
    println!("{}", text);
    assert_eq!(
        text,
        "| **Category / Library** | **Version** | **Comment**     |\n\
         |------------------------|-------------|-----------------|\n\
         | **Local**              |             |                 |\n\
         | helpers                | local path  | our own helpers |\n\
         | serde                  | 1.0         |                 |\n"
    );
}

#[test]
fn manifest_without_dependencies_is_refused() {
    assert!(matches!(
        read_dependencies("[package]\nname = \"demo\"\n"),
        Err(ManifestError::NoDependencies)
    ));
    assert!(matches!(
        read_dependencies("dependencies = 3\n"),
        Err(ManifestError::DependenciesIsValue)
    ));
    assert!(matches!(
        read_dependencies("[[dependencies]]\nname = \"a\"\n"),
        Err(ManifestError::DependenciesIsArrayOfTables)
    ));
    assert!(matches!(read_dependencies("[dependencies"), Err(ManifestError::Syntax(_))));
}

const LINKED: &str = r#"[dependencies]
# Web
## requests
reqwest = { version = "0.12", features = ["json"] }
## ours
core = { path = "../core" }
# Data
serde = "1"
"#;

#[test]
fn rows_follow_the_order_of_the_manifest() {
    let columns = vec![Column::NameWithAnyLink, Column::Version, Column::Features, Column::Comment];
    let entries: Vec<_> = read_dependencies(LINKED)
        .ok()
        .unwrap()
        .into_iter()
        .map(|dependency| {
            let record = if needs_registry(&dependency, &columns) {
                Some(RegistryMetadata {
                    repository: None,
                    homepage: Some(format!("https://{}.example", dependency.name)),
                    documentation: None,
                })
            } else {
                None
            };
            (dependency, record)
        })
        .collect();
    assert_eq!(entries.len(), 3);
    assert!(entries[0].1.is_some());
    assert!(entries[1].1.is_none());
    assert!(entries[2].1.is_some());
    let expected: Vec<Vec<String>> = [
        ["**Web**", "", "", ""],
        ["[reqwest](https://reqwest.example)", "0.12", "json", "requests"],
        ["core", "local path", "", "ours"],
        ["**Data**", "", "", ""],
    ]
    .iter()
    .map(|row| row.iter().map(|cell| cell.to_string()).collect())
    .collect();
    assert_eq!(parse_dependencies(&entries, &columns, true), Ok(expected.clone()));
    let mut all = expected;
    all.push(
        ["[serde](https://serde.example)", "1", "", ""].iter().map(|cell| cell.to_string()).collect(),
    );
    assert_eq!(parse_dependencies(&entries, &columns, false), Ok(all.clone()));
    assert_eq!(
        describe_dependencies(&entries, &columns, false),
        render_table(&columns, all).map_err(|_| EntryError {
            entry: 0,
            error: DependencyError::MissingVersion
        })
    );
    assert_eq!(
        describe_dependencies(&entries, &vec![Column::Name], true),
        Ok("| **Category / Library** |\n\
            |------------------------|\n\
            | **Web**                |\n\
            | reqwest                |\n\
            | core                   |\n\
            | **Data**               |\n"
            .to_string())
    );
}

#[test]
fn first_dependency_without_a_version_is_the_error() {
    let entries: Vec<_> = read_dependencies(
        "[dependencies]\na = \"1\"\nb = { features = [] }\nc = 3\nd = { version = 1 }\n",
    )
    .ok()
    .unwrap()
    .into_iter()
    .map(|dependency| (dependency, None))
    .collect();
    assert_eq!(entries.len(), 4);
    let columns = vec![Column::Name, Column::Version];
    let error = EntryError { entry: 1, error: DependencyError::MissingVersion };
    assert_eq!(parse_dependencies(&entries, &columns, false), Err(error));
    assert_eq!(describe_dependencies(&entries, &columns, false), Err(error));
    assert_eq!(parse_dependencies(&entries, &columns, true), Ok(vec![]));
    let later: Vec<_> = entries[2..].to_vec();
    assert_eq!(
        parse_dependencies(&later, &columns, false),
        Err(EntryError { entry: 0, error: DependencyError::NotInlineTable })
    );
    let last: Vec<_> = entries[3..].to_vec();
    assert_eq!(
        parse_dependencies(&last, &columns, false),
        Err(EntryError { entry: 0, error: DependencyError::VersionNotString })
    );
    assert_eq!(parse_dependencies(&vec![], &columns, false), Ok(vec![]));
}

#[test]
fn texts_are_kept_as_the_manifest_spells_them() {
    let dependencies = read_dependencies(
        "[dependencies]\n  # S\n  \"quoted\"  = '~1.0' # after\nt = { version = \"=2\" , features = [ \"a\" , 'b' ] }\n",
    )
    .ok()
    .unwrap();
    assert_eq!(dependencies[0].name, "\"quoted\"");
    assert_eq!(dependencies[0].prefix, Some("  # S\n  ".to_string()));
    assert_eq!(dependencies[0].suffix, Some("  ".to_string()));
    assert!(matches!(&dependencies[0].value, DependencyValue::Text(text) if text == " '~1.0' # after"));
    match &dependencies[1].value {
        DependencyValue::Table { version: VersionField::Text(version), path: false, features: Some(features) } => {
            assert_eq!(version, " \"=2\" ");
            assert_eq!(features, &vec![" \"a\" ".to_string(), " 'b' ".to_string()]);
        }
        other => panic!("{:?}", other),
    }
}

#[test]
fn annotation_without_text_is_the_only_error() {
    assert!(matches!(annotation_text(None), Ok(None)));
    assert!(matches!(annotation_text(Some(None)), Err(ManifestError::AnnotationMissing)));
    assert!(matches!(annotation_text(Some(Some(" # a\n"))), Ok(Some(text)) if text == " # a\n"));
    assert!(matches!(annotation_text(Some(Some(""))), Ok(Some(text)) if text.is_empty()));
}

#[test]
fn version_field_is_a_string_or_of_no_use() {
    assert!(matches!(version_field(None), VersionField::Absent));
    assert!(matches!(
        version_field(Some((true, " \"1\"".to_string()))),
        VersionField::Text(text) if text == " \"1\""
    ));
    assert!(matches!(version_field(Some((false, " 1".to_string()))), VersionField::Other));
}

#[test]
fn features_are_the_members_that_are_values() {
    assert_eq!(features_field(None), None);
    assert_eq!(features_field(Some(None)), None);
    assert_eq!(features_field(Some(Some(vec![]))), Some(vec![]));
    assert_eq!(
        features_field(Some(Some(vec![Some("a".to_string()), None, Some("b".to_string()), None]))),
        Some(vec!["a".to_string(), "b".to_string()])
    );
    assert_eq!(features_field(Some(Some(vec![None]))), Some(vec![]));
}

#[test]
fn value_that_is_no_table_is_a_string_or_of_no_use() {
    assert!(matches!(
        scalar_value(true, "\"1\"".to_string()),
        DependencyValue::Text(text) if text == "\"1\""
    ));
    assert!(matches!(scalar_value(false, "3".to_string()), DependencyValue::Other));
}

fn entry(name: &str) -> DependencyEntry {
    DependencyEntry {
        name: name.to_string(),
        prefix: None,
        suffix: None,
        value: DependencyValue::Other,
    }
}

#[test]
fn entry_is_made_of_its_parts() {
    let made = dependency_entry(
        "a".to_string(),
        Ok(Some("# b\n".to_string())),
        Ok(None),
        DependencyValue::Text("\"1\"".to_string()),
    )
    .ok()
    .unwrap();
    assert_eq!(made.name, "a");
    assert_eq!(made.prefix, Some("# b\n".to_string()));
    assert_eq!(made.suffix, None);
    assert!(matches!(made.value, DependencyValue::Text(text) if text == "\"1\""));
    assert!(matches!(
        dependency_entry(
            "a".to_string(),
            Err(ManifestError::AnnotationMissing),
            Err(ManifestError::NoDependencies),
            DependencyValue::Other
        ),
        Err(ManifestError::AnnotationMissing)
    ));
    assert!(matches!(
        dependency_entry(
            "a".to_string(),
            Ok(None),
            Err(ManifestError::NoDependencies),
            DependencyValue::Other
        ),
        Err(ManifestError::NoDependencies)
    ));
}

#[test]
fn section_that_is_no_table_is_told_apart() {
    assert!(matches!(section_error(true, false), ManifestError::DependenciesIsValue));
    assert!(matches!(section_error(true, true), ManifestError::DependenciesIsValue));
    assert!(matches!(section_error(false, true), ManifestError::DependenciesIsArrayOfTables));
    assert!(matches!(section_error(false, false), ManifestError::DependenciesIsNone));
    assert_eq!(ManifestError::DependenciesIsNone.message(), "Dependencies section has \"None\" type");
    assert_eq!(
        ManifestError::DependenciesIsValue.message(),
        "Dependencies section has \"Value\" type"
    );
    assert_eq!(
        ManifestError::DependenciesIsArrayOfTables.message(),
        "Dependencies section has \"ArrayOfTable\" type"
    );
    assert_eq!(ManifestError::NoDependencies.message(), "No dependencies section");
}

#[test]
fn entries_are_kept_in_order_up_to_the_first_error() {
    let all = collect_entries(vec![Ok(entry("a")), Ok(entry("b")), Ok(entry("c"))]).ok().unwrap();
    let names: Vec<&str> = all.iter().map(|entry| entry.name.as_str()).collect();
    assert_eq!(names, vec!["a", "b", "c"]);
    assert!(matches!(collect_entries(vec![]), Ok(list) if list.is_empty()));
    assert!(matches!(
        collect_entries(vec![
            Ok(entry("a")),
            Err(ManifestError::AnnotationMissing),
            Ok(entry("c")),
            Err(ManifestError::NoDependencies),
        ]),
        Err(ManifestError::AnnotationMissing)
    ));
}

#[test]
fn text_that_is_no_toml_is_a_syntax_error() {
    for text in ["[dependencies", "a = ", "= 1", "[dependencies]\na = \"1\"\na = \"2\"\n"] {
        assert!(matches!(read_dependencies(text), Err(ManifestError::Syntax(_))));
    }
    for text in ["", "[dependencies]\n", "dependencies = 1\n", "[package]\n"] {
        assert!(!matches!(read_dependencies(text), Err(ManifestError::Syntax(_))));
    }
    assert!(matches!(read_dependencies("[dependencies]\n"), Ok(list) if list.is_empty()));
}

#[test]
fn features_of_a_manifest_are_joined_by_a_comma_and_one_space() {
    let dependencies = read_dependencies(
        "[dependencies]\nserde = { version = \"1\", features = [\"derive\", \"rc\"] }\n\
         wide = { version = \"1\", features = [  \"a\"  ,\n  \"b\",\n] }\n",
    )
    .ok()
    .unwrap();
    let columns = vec![Column::Name, Column::Features];
    let serde = parse_dependency(&dependencies[0], None, &columns, false).ok().unwrap();
    assert_eq!(serde, vec![vec!["serde".to_string(), "derive, rc".to_string()]]);
    let wide = parse_dependency(&dependencies[1], None, &columns, false).ok().unwrap();
    assert_eq!(wide, vec![vec!["wide".to_string(), "a, b".to_string()]]);
}
