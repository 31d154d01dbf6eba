use goofy::manifest::{dependency_lines, DependencySpec, Manifest, ManifestError};
use goofy::toml_tree::TomlValue;

#[test]
fn decode_works_on_a_hand_built_tree() {
    let doc = TomlValue::Table(vec![
        (
            String::from("package"),
            TomlValue::Table(vec![
                (String::from("name"), TomlValue::Str(String::from("tree"))),
                (String::from("version"), TomlValue::Str(String::from("9.9"))),
            ]),
        ),
        (
            String::from("dependencies"),
            TomlValue::Table(vec![(String::from("dep"), TomlValue::Str(String::from("1")))]),
        ),
    ]);
    let m = Manifest::from_tree(&doc).unwrap();
    assert_eq!(m.package.name, "tree");
    assert_eq!(m.package.version, "9.9");
    assert_eq!(m.dependencies.len(), 1);
    assert_eq!(m.dependencies[0].0, "dep");
}

#[test]
fn decode_refuses_a_tree_whose_root_is_no_table() {
    let doc = TomlValue::Str(String::from("x"));
    assert_eq!(Manifest::from_tree(&doc).unwrap_err(), ManifestError::BadPackage);
}

#[test]
fn simple_dependency_decodes_to_bare_version() {
    let text =
        "[package]\nname = \"demo\"\nversion = \"1.2.3\"\n\n[dependencies]\nfoo = \"0.1\"\n";
    let m = Manifest::load_from_str(text).unwrap();
    assert_eq!(m.package.name, "demo");
    assert_eq!(m.package.version, "1.2.3");
    assert_eq!(m.dependencies.len(), 1);
    assert_eq!(m.dependencies[0].0, "foo");
    match &m.dependencies[0].1 {
        DependencySpec::Simple(v) => assert_eq!(v, "0.1"),
        _ => panic!("expected a bare version string"),
    }
}

#[test]
fn detailed_dependency_decodes_to_version_table() {
    let text = "[package]\nname = \"demo\"\nversion = \"0.0.1\"\n\n[dependencies]\nbar = { version = \"2.0\" }\n";
    let m = Manifest::load_from_str(text).unwrap();
    assert_eq!(m.dependencies.len(), 1);
    assert_eq!(m.dependencies[0].0, "bar");
    match &m.dependencies[0].1 {
        DependencySpec::Detailed { version } => assert_eq!(version, "2.0"),
        _ => panic!("expected a detailed declaration"),
    }
}

#[test]
fn detailed_dependency_ignores_extra_fields() {
    let text = "[package]\nname = \"demo\"\nversion = \"0.0.1\"\n\n[dependencies.baz]\nversion = \"3\"\npath = \"../baz\"\n";
    let m = Manifest::load_from_str(text).unwrap();
    match &m.dependencies[0].1 {
        DependencySpec::Detailed { version } => assert_eq!(version, "3"),
        _ => panic!("expected a detailed declaration"),
    }
}

#[test]
fn missing_package_table_is_refused() {
    let text = "[dependencies]\nfoo = \"0.1\"\n";
    assert_eq!(Manifest::load_from_str(text).unwrap_err(), ManifestError::BadPackage);
}

#[test]
fn missing_name_is_refused() {
    let text = "[package]\nversion = \"0.0.1\"\n";
    assert_eq!(Manifest::load_from_str(text).unwrap_err(), ManifestError::BadPackage);
}

#[test]
fn missing_version_is_refused() {
    let text = "[package]\nname = \"demo\"\n";
    assert_eq!(Manifest::load_from_str(text).unwrap_err(), ManifestError::BadPackage);
}

#[test]
fn non_string_name_is_refused() {
    let text = "[package]\nname = 3\nversion = \"0.0.1\"\n";
    assert_eq!(Manifest::load_from_str(text).unwrap_err(), ManifestError::BadPackage);
}

#[test]
fn malformed_text_is_refused() {
    let text = "this is not = = a manifest [";
    assert_eq!(Manifest::load_from_str(text).unwrap_err(), ManifestError::Malformed);
}

#[test]
fn dependency_of_wrong_shape_is_refused() {
    let text = "[package]\nname = \"demo\"\nversion = \"0.0.1\"\n\n[dependencies]\nfoo = 1\n";
    assert_eq!(Manifest::load_from_str(text).unwrap_err(), ManifestError::BadDependency);
}

#[test]
fn dependency_table_without_version_is_refused() {
    let text = "[package]\nname = \"demo\"\nversion = \"0.0.1\"\n\n[dependencies.foo]\npath = \"../foo\"\n";
    assert_eq!(Manifest::load_from_str(text).unwrap_err(), ManifestError::BadDependency);
}

#[test]
fn dependencies_that_are_no_table_are_refused() {
    let text = "dependencies = 7\n\n[package]\nname = \"demo\"\nversion = \"0.0.1\"\n";
    assert_eq!(Manifest::load_from_str(text).unwrap_err(), ManifestError::BadDependency);
}

#[test]
fn absent_and_empty_dependencies_both_load_empty() {
    let absent = "[package]\nname = \"demo\"\nversion = \"0.0.1\"\n";
    let empty = "[package]\nname = \"demo\"\nversion = \"0.0.1\"\n\n[dependencies]\n";
    assert!(Manifest::load_from_str(absent).unwrap().dependencies.is_empty());
    assert!(Manifest::load_from_str(empty).unwrap().dependencies.is_empty());
}

#[test]
fn effective_version_is_shared_by_both_shapes() {
    let simple = DependencySpec::Simple(String::from("1.0"));
    let detailed = DependencySpec::Detailed { version: String::from("1.0") };
    assert_eq!(simple.effective_version(), "1.0");
    assert_eq!(detailed.effective_version(), "1.0");
}

#[test]
fn dependency_lines_show_name_and_version() {
    let deps = vec![
        (String::from("foo"), DependencySpec::Simple(String::from("0.1"))),
        (String::from("bar"), DependencySpec::Detailed { version: String::from("2") }),
    ];
    let lines = dependency_lines(&deps);
    assert_eq!(lines.len(), 2);
    assert_eq!(lines[0], "foo = 0.1");
    assert_eq!(lines[1], "bar = 2");
}

#[test]
fn test_package_toml() {
    let goofy_toml = "[package]
        name = \"Qmm - learning\"
        version = \"0.0.1\"";
    let package = Manifest::load_from_str(goofy_toml).unwrap();
    assert_eq!(package.package.name, "Qmm - learning");
    assert_eq!(package.package.version, "0.0.1");
}
