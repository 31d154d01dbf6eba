use goofy::manifest::Manifest;
use goofy::scaffold::scaffold_plan;

#[test]
fn scaffold_round_trip() {
    let plan = scaffold_plan("demo");
    let m = Manifest::load_from_str(&plan.manifest_text).unwrap();
    assert_eq!(m.package.name, "demo");
    assert_eq!(m.package.version, "0.0.1");
    assert!(m.dependencies.is_empty());
}

#[test]
fn scaffold_paths_follow_the_project_name() {
    let plan = scaffold_plan("proj");
    assert_eq!(plan.project_dir, "./proj");
    assert_eq!(plan.src_dir, "./proj/src");
    assert_eq!(plan.source_file, "./proj/src/main.qmm");
    assert_eq!(plan.manifest_file, "./proj/Goofy.toml");
}

#[test]
fn scaffold_texts_are_the_fixed_templates() {
    let plan = scaffold_plan("proj");
    assert_eq!(plan.source_text, "fun main() {\n    \n}\n");
    assert_eq!(plan.manifest_text, "[package]\n name = \"proj\"\n version = \"0.0.1\"\n");
}
