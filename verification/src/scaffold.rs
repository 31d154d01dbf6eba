//! Project scaffolding: the directories, files and texts a new project
//! starts with.

use crate::manifest::{manifest_of_doc, ManifestError, ManifestView, PackageView};
use crate::toml_tree::TomlNode;
use vstd::prelude::*;

verus! {

/// The directories and files a new project is created with, in creation
/// order: the project directory, its source directory, then the two
/// starting files with their texts.
pub struct ScaffoldPlan {
    pub project_dir: String,
    pub src_dir: String,
    pub source_file: String,
    pub source_text: String,
    pub manifest_file: String,
    pub manifest_text: String,
}

/// The version every new project starts at.
pub open spec fn initial_version() -> Seq<char> {
    "0.0.1"@
}

/// The manifest text a new project is given.
pub open spec fn scaffold_manifest_text_of(name: Seq<char>) -> Seq<char> {
    "[package]\n name = \""@ + name + "\"\n version = \"0.0.1\"\n"@
}

/// The source text a new project starts with: an empty entry point.
pub open spec fn scaffold_source_text() -> Seq<char> {
    "fun main() {\n    \n}\n"@
}

/// Lays out a new project named `name`.
pub fn scaffold_plan(name: &str) -> (r: ScaffoldPlan)
    ensures
        r.project_dir@ == "./"@ + name@,
        r.src_dir@ == "./"@ + name@ + "/src"@,
        r.source_file@ == "./"@ + name@ + "/src/main.qmm"@,
        r.source_text@ == scaffold_source_text(),
        r.manifest_file@ == "./"@ + name@ + "/Goofy.toml"@,
        r.manifest_text@ == scaffold_manifest_text_of(name@),
{
    let mut project_dir: String = "./".to_owned();
    project_dir.append(name);
    let mut src_dir: String = project_dir.clone();
    src_dir.append("/src");
    let mut source_file: String = src_dir.clone();
    source_file.append("/main.qmm");
    proof {
        reveal_strlit("/src");
        reveal_strlit("/main.qmm");
        reveal_strlit("/src/main.qmm");
        assert("/src"@.len() == 4);
        assert("/main.qmm"@.len() == 9);
        assert("/src/main.qmm"@.len() == 13);
        assert(source_file@ =~= "./"@ + name@ + "/src/main.qmm"@);
    }
    let mut manifest_file: String = project_dir.clone();
    manifest_file.append("/Goofy.toml");
    let source_text: String = "fun main() {\n    \n}\n".to_owned();
    let mut manifest_text: String = "[package]\n name = \"".to_owned();
    manifest_text.append(name);
    manifest_text.append("\"\n version = \"0.0.1\"\n");
    ScaffoldPlan { project_dir, src_dir, source_file, source_text, manifest_file, manifest_text }
}

/// The manifest document of a new project, as a tree: one `package` table
/// carrying the requested name and the initial version, and nothing else.
pub open spec fn scaffold_manifest_doc(name: Seq<char>) -> TomlNode {
    TomlNode::Table(
        seq![
            (
                "package"@,
                TomlNode::Table(
                    seq![
                        ("name"@, TomlNode::Str(name)),
                        ("version"@, TomlNode::Str(initial_version())),
                    ],
                ),
            ),
        ],
    )
}

/// Round trip: decoding the manifest document a new project is scaffolded
/// with yields exactly the requested project name, the initial version,
/// and no dependencies — for every name.
pub proof fn lemma_scaffold_round_trip(name: Seq<char>)
    ensures
        manifest_of_doc(scaffold_manifest_doc(name)) == Ok::<ManifestView, ManifestError>(
            ManifestView {
                package: PackageView { name, version: initial_version() },
                dependencies: Seq::empty(),
            },
        ),
{
    reveal_strlit("package");
    reveal_strlit("name");
    reveal_strlit("version");
    reveal_strlit("dependencies");
    reveal_with_fuel(crate::toml_tree::table_get, 3);
    let pes = seq![("name"@, TomlNode::Str(name)), ("version"@, TomlNode::Str(initial_version()))];
    let es = seq![("package"@, TomlNode::Table(pes))];
    assert(pes.drop_first() =~= seq![("version"@, TomlNode::Str(initial_version()))]);
    assert(es.drop_first() =~= Seq::<(Seq<char>, TomlNode)>::empty());
    assert("name"@.len() == 4);
    assert("version"@.len() == 7);
    assert("package"@.len() == 7);
    assert("dependencies"@.len() == 12);
    assert("name"@ != "version"@);
    assert("package"@ != "dependencies"@);
}

} // verus!
