//! The project driver: what the `build` and `run` operations decide from
//! the manifest text before any stage runs.

use crate::manifest::{
    dependency_lines, effective_version_of, manifest_of_text, Manifest, ManifestError,
};
use crate::pipeline::{artifact_paths, BuildResult};
use vstd::prelude::*;

verus! {

/// Everything a manifest-driven build needs, decided up front: the
/// conventional source path, the output path under the build directory
/// named after the package, the derived intermediate paths, and the
/// dependency display lines.
pub struct ReadyPlan {
    pub package_name: String,
    pub package_version: String,
    pub source_path: String,
    pub output_path: String,
    pub ir_path: String,
    pub assembly_path: String,
    pub dependency_lines: Vec<String>,
    pub halt_for_dependencies: bool,
}

/// What the driver decides from the manifest text: proceed, or say what
/// stops it.
pub enum ProjectPlan {
    /// The manifest file could not be read.
    MissingManifest,
    /// The manifest text was refused; the error says why.
    BrokenManifest(ManifestError),
    /// The build may proceed.
    Ready(ReadyPlan),
}

/// Whether a `run` operation goes on to execute the built binary: only
/// after a fully successful build; every failure report stops it.
pub fn run_follows_build(result: &BuildResult) -> (r: bool)
    ensures
        r <==> *result == BuildResult::Success,
{
    match result {
        BuildResult::Success => true,
        _ => false,
    }
}

/// The conventional directories that hold the build output.
pub fn output_dirs() -> (r: (String, String))
    ensures
        r.0@ == "target"@,
        r.1@ == "target/release"@,
{
    ("target".to_owned(), "target/release".to_owned())
}

/// Decides a manifest-driven build or run: `manifest_text` is the text of
/// the manifest file, or `None` where it could not be read. On a loaded
/// manifest the plan carries the package identity, the conventional
/// source path, the output path named after the package, the derived
/// intermediate paths, and one display line per dependency; declared
/// dependencies halt the build, since fetching them is not implemented.
pub fn plan_project(manifest_text: Option<&String>) -> (r: ProjectPlan)
    ensures
        match manifest_text {
            None => r is MissingManifest,
            Some(text) => match manifest_of_text(text@) {
                Err(e) => r matches ProjectPlan::BrokenManifest(e2) && e2 == e,
                Ok(m) => r matches ProjectPlan::Ready(p) && {
                    &&& p.package_name@ == m.package.name
                    &&& p.package_version@ == m.package.version
                    &&& p.source_path@ == "src/main.qmm"@
                    &&& p.output_path@ == "target/release/"@ + m.package.name
                    &&& p.ir_path@ == p.output_path@ + ".ll"@
                    &&& p.assembly_path@ == p.output_path@ + ".s"@
                    &&& p.dependency_lines@.len() == m.dependencies.len()
                    &&& (forall|i: int|
                        0 <= i < m.dependencies.len() ==> (#[trigger] p.dependency_lines@[i])@
                            == m.dependencies[i].0 + " = "@ + effective_version_of(
                            m.dependencies[i].1,
                        ))
                    &&& p.halt_for_dependencies == (m.dependencies.len() > 0)
                },
            },
        },
{
    let text = match manifest_text {
        None => {
            return ProjectPlan::MissingManifest;
        },
        Some(t) => t,
    };
    let m = match Manifest::load_from_str(text.as_str()) {
        Err(e) => {
            return ProjectPlan::BrokenManifest(e);
        },
        Ok(m) => m,
    };
    let source_path: String = "src/main.qmm".to_owned();
    let mut output_path: String = "target/release/".to_owned();
    output_path.append(m.package.name.as_str());
    let (ir_path, assembly_path) = artifact_paths(output_path.as_str());
    let lines = dependency_lines(&m.dependencies);
    let halt = m.dependencies.len() > 0;
    ProjectPlan::Ready(
        ReadyPlan {
            package_name: m.package.name,
            package_version: m.package.version,
            source_path,
            output_path,
            ir_path,
            assembly_path,
            dependency_lines: lines,
            halt_for_dependencies: halt,
        },
    )
}

} // verus!
