//! The project manifest model: package identity plus an optional
//! dependency table whose entries come in two textual shapes.

use crate::toml_read::{toml_doc_of, toml_parse, tree_of_value};
use crate::toml_tree::{lookup, node_of, nodes_of_entries, table_get, TomlNode, TomlValue};
use vstd::prelude::*;

verus! {

/// Package identity: a name and a version text. The version is kept as
/// free-form text; nothing beyond its presence is checked.
#[derive(Debug)]
pub struct Package {
    pub name: String,
    pub version: String,
}

/// One dependency declaration. A bare version string decodes to `Simple`;
/// a table carrying a `version` field decodes to `Detailed`. Both shapes
/// expose the same effective version text.
#[derive(Debug)]
pub enum DependencySpec {
    Simple(String),
    Detailed { version: String },
}

/// The parsed project manifest.
#[derive(Debug)]
pub struct Manifest {
    pub package: Package,
    pub dependencies: Vec<(String, DependencySpec)>,
}

/// Why a manifest failed to load.
#[derive(Clone, Copy, Debug, PartialEq, Eq, Structural)]
pub enum ManifestError {
    /// The text is not a well-formed document.
    Malformed,
    /// The `package` table is missing, or `name` or `version` inside it is
    /// missing or not a string.
    BadPackage,
    /// `dependencies` is not a table, or one of its entries is neither a
    /// bare string nor a table carrying a string `version`.
    BadDependency,
}

/// Mathematical shape of a [`Package`].
#[verifier::ext_equal]
pub struct PackageView {
    pub name: Seq<char>,
    pub version: Seq<char>,
}

/// Mathematical shape of a [`DependencySpec`].
pub enum DepView {
    Simple(Seq<char>),
    Detailed(Seq<char>),
}

/// Mathematical shape of a [`Manifest`].
#[verifier::ext_equal]
pub struct ManifestView {
    pub package: PackageView,
    pub dependencies: Seq<(Seq<char>, DepView)>,
}

impl View for Package {
    type V = PackageView;

    open spec fn view(&self) -> PackageView {
        PackageView { name: self.name@, version: self.version@ }
    }
}

impl View for DependencySpec {
    type V = DepView;

    open spec fn view(&self) -> DepView {
        match self {
            DependencySpec::Simple(v) => DepView::Simple(v@),
            DependencySpec::Detailed { version } => DepView::Detailed(version@),
        }
    }
}

impl View for Manifest {
    type V = ManifestView;

    open spec fn view(&self) -> ManifestView {
        ManifestView {
            package: self.package@,
            dependencies: self.dependencies@.map_values(
                |p: (String, DependencySpec)| (p.0@, p.1@),
            ),
        }
    }
}

/// The version text that both dependency shapes expose for display.
pub open spec fn effective_version_of(d: DepView) -> Seq<char> {
    match d {
        DepView::Simple(v) => v,
        DepView::Detailed(v) => v,
    }
}

/// Decoding one dependency value: a bare string yields `Simple`, a table
/// with a string `version` yields `Detailed`, anything else is refused.
pub open spec fn dep_of_node(n: TomlNode) -> Option<DepView> {
    match n {
        TomlNode::Str(v) => Some(DepView::Simple(v)),
        TomlNode::Table(es) => match table_get(es, "version"@) {
            Some(TomlNode::Str(v)) => Some(DepView::Detailed(v)),
            _ => None,
        },
        TomlNode::Other => None,
    }
}

/// Decoding a dependency table, entry by entry; one refused entry refuses
/// the whole table.
pub open spec fn deps_of_entries(es: Seq<(Seq<char>, TomlNode)>) -> Option<
    Seq<(Seq<char>, DepView)>,
>
    decreases es.len(),
{
    if es.len() == 0 {
        Some(Seq::empty())
    } else {
        match dep_of_node(es[0].1) {
            Some(d) => match deps_of_entries(es.drop_first()) {
                Some(rest) => Some(seq![(es[0].0, d)] + rest),
                None => None,
            },
            None => None,
        }
    }
}

/// Decoding the `package` table: `name` and `version` must both be
/// present as strings.
pub open spec fn package_of_node(n: TomlNode) -> Option<PackageView> {
    match n {
        TomlNode::Table(es) => match (table_get(es, "name"@), table_get(es, "version"@)) {
            (Some(TomlNode::Str(nm)), Some(TomlNode::Str(vr))) => Some(
                PackageView { name: nm, version: vr },
            ),
            _ => None,
        },
        _ => None,
    }
}

/// Decoding a whole document tree into a manifest. A missing
/// `dependencies` table and an empty one both yield no dependencies.
pub open spec fn manifest_of_doc(doc: TomlNode) -> Result<ManifestView, ManifestError> {
    match doc {
        TomlNode::Table(es) => match table_get(es, "package"@) {
            Some(p) => match package_of_node(p) {
                Some(pv) => match table_get(es, "dependencies"@) {
                    None => Ok(ManifestView { package: pv, dependencies: Seq::empty() }),
                    Some(TomlNode::Table(des)) => match deps_of_entries(des) {
                        Some(ds) => Ok(ManifestView { package: pv, dependencies: ds }),
                        None => Err(ManifestError::BadDependency),
                    },
                    Some(_) => Err(ManifestError::BadDependency),
                },
                None => Err(ManifestError::BadPackage),
            },
            None => Err(ManifestError::BadPackage),
        },
        _ => Err(ManifestError::BadPackage),
    }
}

/// What loading a manifest text yields: a decode of the document tree the
/// TOML grammar gives it, or `Malformed` where the text has none.
pub open spec fn manifest_of_text(text: Seq<char>) -> Result<ManifestView, ManifestError> {
    match toml_doc_of(text) {
        None => Err(ManifestError::Malformed),
        Some(doc) => manifest_of_doc(doc),
    }
}

impl DependencySpec {
    /// The version text that both shapes expose for display.
    pub fn effective_version(&self) -> (r: &String)
        ensures
            r@ == effective_version_of(self@),
    {
        match self {
            DependencySpec::Simple(v) => v,
            DependencySpec::Detailed { version } => version,
        }
    }
}

/// One display line per dependency: `name = version`, in table order,
/// with the effective version whichever shape declared it.
pub fn dependency_lines(deps: &Vec<(String, DependencySpec)>) -> (r: Vec<String>)
    ensures
        r@.len() == deps@.len(),
        forall|i: int|
            0 <= i < deps@.len() ==> (#[trigger] r@[i])@ == deps@[i].0@ + " = "@
                + effective_version_of(deps@[i].1@),
{
    let mut r: Vec<String> = Vec::new();
    let mut i: usize = 0;
    while i < deps.len()
        invariant
            0 <= i <= deps@.len(),
            r@.len() == i,
            forall|j: int|
                0 <= j < i ==> (#[trigger] r@[j])@ == deps@[j].0@ + " = "@ + effective_version_of(
                    deps@[j].1@,
                ),
        decreases deps@.len() - i,
    {
        let mut line = deps[i].0.clone();
        line.append(" = ");
        line.append(deps[i].1.effective_version().as_str());
        r.push(line);
        i = i + 1;
    }
    r
}

fn package_from(p: &TomlValue) -> (r: Option<Package>)
    ensures
        match r {
            Some(pk) => package_of_node(node_of(*p)) == Some(pk@),
            None => package_of_node(node_of(*p)) is None,
        },
{
    match p {
        TomlValue::Table(es) => {
            let name = match lookup(es, "name") {
                Some(TomlValue::Str(s)) => s.clone(),
                _ => {
                    return None;
                },
            };
            let version = match lookup(es, "version") {
                Some(TomlValue::Str(s)) => s.clone(),
                _ => {
                    return None;
                },
            };
            Some(Package { name, version })
        },
        _ => None,
    }
}

fn dep_from(v: &TomlValue) -> (r: Option<DependencySpec>)
    ensures
        match r {
            Some(d) => dep_of_node(node_of(*v)) == Some(d@),
            None => dep_of_node(node_of(*v)) is None,
        },
{
    match v {
        TomlValue::Str(s) => Some(DependencySpec::Simple(s.clone())),
        TomlValue::Table(es) => match lookup(es, "version") {
            Some(TomlValue::Str(s)) => Some(DependencySpec::Detailed { version: s.clone() }),
            _ => None,
        },
        TomlValue::Other => None,
    }
}

/// The view of a decoded dependency list.
pub open spec fn dep_views(ds: Seq<(String, DependencySpec)>) -> Seq<(Seq<char>, DepView)> {
    ds.map_values(|p: (String, DependencySpec)| (p.0@, p.1@))
}

fn deps_from(des: &Vec<(String, TomlValue)>, i: usize) -> (r: Option<
    Vec<(String, DependencySpec)>,
>)
    requires
        i <= des@.len(),
    ensures
        match r {
            Some(ds) => deps_of_entries(nodes_of_entries(des@.skip(i as int))) == Some(
                dep_views(ds@),
            ),
            None => deps_of_entries(nodes_of_entries(des@.skip(i as int))) is None,
        },
    decreases des@.len() - i,
{
    proof {
        crate::toml_tree::lemma_nodes_of_entries(des@.skip(i as int));
    }
    if i == des.len() {
        proof {
            assert(dep_views(Seq::<(String, DependencySpec)>::empty()) =~= Seq::empty());
        }
        Some(Vec::new())
    } else {
        let ghost tail_nodes = nodes_of_entries(des@.skip(i as int));
        proof {
            assert(des@.skip(i as int)[0] == des@[i as int]);
            assert(tail_nodes.drop_first() =~= nodes_of_entries(des@.skip(i as int).drop_first()))
                by {
                crate::toml_tree::lemma_nodes_of_entries(des@.skip(i as int).drop_first());
                crate::toml_tree::lemma_nodes_of_entries(des@.skip(i + 1));
                assert(des@.skip(i as int).drop_first() =~= des@.skip(i + 1));
            };
            assert(des@.skip(i as int).drop_first() =~= des@.skip(i + 1));
        }
        match dep_from(&des[i].1) {
            None => None,
            Some(d) => match deps_from(des, i + 1) {
                None => None,
                Some(rest) => {
                    let mut ds = rest;
                    ds.insert(0, (des[i].0.clone(), d));
                    proof {
                        assert(dep_views(ds@) =~= seq![(des@[i as int].0@, d@)] + dep_views(
                            ds@.drop_first(),
                        ));
                    }
                    Some(ds)
                },
            },
        }
    }
}

impl Manifest {
    /// Decodes a document tree into a manifest, or says why it is refused.
    pub fn from_tree(doc: &TomlValue) -> (r: Result<Manifest, ManifestError>)
        ensures
            match r {
                Ok(m) => manifest_of_doc(node_of(*doc)) == Ok::<ManifestView, ManifestError>(m@),
                Err(e) => manifest_of_doc(node_of(*doc)) == Err::<ManifestView, ManifestError>(e),
            },
    {
        match doc {
            TomlValue::Table(es) => {
                let package = match lookup(es, "package") {
                    Some(p) => match package_from(p) {
                        Some(pk) => pk,
                        None => {
                            return Err(ManifestError::BadPackage);
                        },
                    },
                    None => {
                        return Err(ManifestError::BadPackage);
                    },
                };
                match lookup(es, "dependencies") {
                    None => {
                        let m = Manifest { package, dependencies: Vec::new() };
                        proof {
                            assert(m@.dependencies =~= Seq::<(Seq<char>, DepView)>::empty());
                        }
                        Ok(m)
                    },
                    Some(TomlValue::Table(des)) => match deps_from(des, 0) {
                        Some(ds) => {
                            proof {
                                assert(des@.skip(0) =~= des@);
                            }
                            Ok(Manifest { package, dependencies: ds })
                        },
                        None => {
                            proof {
                                assert(des@.skip(0) =~= des@);
                            }
                            Err(ManifestError::BadDependency)
                        },
                    },
                    Some(_) => Err(ManifestError::BadDependency),
                }
            },
            _ => Err(ManifestError::BadPackage),
        }
    }

    /// Loads a manifest from its text: parses the document and decodes it.
    /// Returns `Ok` exactly on well-formed documents with a valid
    /// `package` table and valid dependency entries; the error says which
    /// part was refused. Never panics.
    pub fn load_from_str(text: &str) -> (r: Result<Manifest, ManifestError>)
        ensures
            match r {
                Ok(m) => manifest_of_text(text@) == Ok::<ManifestView, ManifestError>(m@),
                Err(e) => manifest_of_text(text@) == Err::<ManifestView, ManifestError>(e),
            },
    {
        match toml_parse(text) {
            None => Err(ManifestError::Malformed),
            Some(v) => {
                let t = tree_of_value(&v);
                Manifest::from_tree(&t)
            },
        }
    }
}

/// Every dependency declared as a bare string decodes to `Simple` with
/// exactly that string as its version — for every table whose values are
/// all bare strings, entry by entry.
pub proof fn lemma_bare_string_dependencies(des: Seq<(Seq<char>, TomlNode)>)
    requires
        forall|i: int| 0 <= i < des.len() ==> (#[trigger] des[i].1) is Str,
    ensures
        deps_of_entries(des) matches Some(ds) && ds.len() == des.len() && (forall|i: int|
            0 <= i < des.len() ==> ((#[trigger] des[i].1) matches TomlNode::Str(v) && ds[i] == (
            des[i].0,
            DepView::Simple(v),
            ))),
    decreases des.len(),
{
    if des.len() > 0 {
        assert(des[0].1 is Str);
        assert forall|i: int|
            0 <= i < des.drop_first().len() implies (#[trigger] des.drop_first()[i].1) is Str by {
            assert(des.drop_first()[i] == des[i + 1]);
        }
        lemma_bare_string_dependencies(des.drop_first());
        let ds = deps_of_entries(des)->Some_0;
        assert forall|i: int|
            0 <= i < des.len() implies (#[trigger] des[i].1) matches TomlNode::Str(v) && ds[i] == (
        des[i].0, DepView::Simple(v)) by {
            if i > 0 {
                assert(des.drop_first()[i - 1] == des[i]);
                assert(ds[i] == deps_of_entries(des.drop_first())->Some_0[i - 1]);
            }
        }
    }
}

/// Every dependency declared as a table carrying a string `version` field
/// decodes to `Detailed` with exactly that version — for every table
/// whose values all have that shape, entry by entry.
pub proof fn lemma_version_table_dependencies(des: Seq<(Seq<char>, TomlNode)>)
    requires
        forall|i: int|
            0 <= i < des.len() ==> ((#[trigger] des[i].1) matches TomlNode::Table(t) && table_get(
                t,
                "version"@,
            ) matches Some(n) && n is Str),
    ensures
        deps_of_entries(des) matches Some(ds) && ds.len() == des.len() && (forall|i: int|
            0 <= i < des.len() ==> ((#[trigger] des[i].1) matches TomlNode::Table(t) && table_get(
                t,
                "version"@,
            ) matches Some(TomlNode::Str(v)) && ds[i] == (des[i].0, DepView::Detailed(v)))),
    decreases des.len(),
{
    if des.len() > 0 {
        assert(des[0].1 matches TomlNode::Table(t) && table_get(t, "version"@) matches Some(n)
            && n is Str);
        assert forall|i: int|
            0 <= i < des.drop_first().len() implies (#[trigger] des.drop_first()[i].1) matches TomlNode::Table(t)
            && table_get(t, "version"@) matches Some(n) && n is Str by {
            assert(des.drop_first()[i] == des[i + 1]);
        }
        lemma_version_table_dependencies(des.drop_first());
        let ds = deps_of_entries(des)->Some_0;
        assert forall|i: int|
            0 <= i < des.len() implies (#[trigger] des[i].1) matches TomlNode::Table(t)
            && table_get(t, "version"@) matches Some(TomlNode::Str(v)) && ds[i] == (
        des[i].0, DepView::Detailed(v)) by {
            if i > 0 {
                assert(des.drop_first()[i - 1] == des[i]);
                assert(ds[i] == deps_of_entries(des.drop_first())->Some_0[i - 1]);
            }
        }
    }
}

/// A document without a `package` table, or whose `package` table lacks a
/// string `name` or a string `version`, is refused with `BadPackage` —
/// and, the decoder being verified, refused without a panic.
pub proof fn lemma_missing_package_fails(doc: TomlNode)
    requires
        doc matches TomlNode::Table(es) ==> !(table_get(es, "package"@) matches Some(p)
            && package_of_node(p) is Some),
    ensures
        manifest_of_doc(doc) == Err::<ManifestView, ManifestError>(ManifestError::BadPackage),
{
}

} // verus!
