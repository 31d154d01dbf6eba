use goofy::driver::{output_dirs, plan_project, run_follows_build, ProjectPlan};
use goofy::manifest::ManifestError;
use goofy::pipeline::BuildResult;

#[test]
fn only_a_successful_build_is_executed() {
    assert!(run_follows_build(&BuildResult::Success));
    assert!(!run_follows_build(&BuildResult::IoError));
    assert!(!run_follows_build(&BuildResult::SyntaxError));
    assert!(!run_follows_build(&BuildResult::SemanticError));
    assert!(!run_follows_build(&BuildResult::LoweringError));
    assert!(!run_follows_build(&BuildResult::CodegenError));
    assert!(!run_follows_build(&BuildResult::LinkError));
}

#[test]
fn a_loaded_manifest_plans_the_conventional_paths() {
    let text = String::from("[package]\nname = \"app\"\nversion = \"0.1.0\"\n");
    match plan_project(Some(&text)) {
        ProjectPlan::Ready(p) => {
            assert_eq!(p.package_name, "app");
            assert_eq!(p.package_version, "0.1.0");
            assert_eq!(p.source_path, "src/main.qmm");
            assert_eq!(p.output_path, "target/release/app");
            assert_eq!(p.ir_path, "target/release/app.ll");
            assert_eq!(p.assembly_path, "target/release/app.s");
            assert!(p.dependency_lines.is_empty());
            assert!(!p.halt_for_dependencies);
        },
        _ => panic!("expected a ready plan"),
    }
}

#[test]
fn declared_dependencies_are_listed_and_halt_the_build() {
    let text = String::from(
        "[package]\nname = \"app\"\nversion = \"0.1.0\"\n\n[dependencies]\nfoo = \"1.0\"\nbar = { version = \"2\" }\n",
    );
    match plan_project(Some(&text)) {
        ProjectPlan::Ready(p) => {
            assert_eq!(p.dependency_lines.len(), 2);
            assert!(p.dependency_lines.contains(&String::from("foo = 1.0")));
            assert!(p.dependency_lines.contains(&String::from("bar = 2")));
            assert!(p.halt_for_dependencies);
        },
        _ => panic!("expected a ready plan"),
    }
}

#[test]
fn a_missing_manifest_stops_the_driver() {
    assert!(matches!(plan_project(None), ProjectPlan::MissingManifest));
}

#[test]
fn a_broken_manifest_reports_why() {
    let bad = String::from("this [ is not a manifest");
    match plan_project(Some(&bad)) {
        ProjectPlan::BrokenManifest(e) => assert_eq!(e, ManifestError::Malformed),
        _ => panic!("expected a broken-manifest report"),
    }
    let no_package = String::from("[dependencies]\nfoo = \"1\"\n");
    match plan_project(Some(&no_package)) {
        ProjectPlan::BrokenManifest(e) => assert_eq!(e, ManifestError::BadPackage),
        _ => panic!("expected a broken-manifest report"),
    }
}

#[test]
fn the_build_output_directories_are_fixed() {
    let (target, release) = output_dirs();
    assert_eq!(target, "target");
    assert_eq!(release, "target/release");
}
