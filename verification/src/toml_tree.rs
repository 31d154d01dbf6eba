//! A structured-text document tree, reduced to what the manifest model
//! reads: strings and tables. Every other document shape is kept as
//! `Other`, which the decoder treats as a shape error wherever a string
//! or a table is required.

use vstd::prelude::*;

verus! {

/// One value of a structured key/value document.
pub enum TomlValue {
    Str(String),
    Table(Vec<(String, TomlValue)>),
    Other,
}

/// Mathematical shape of a [`TomlValue`]: the same tree over sequences.
pub enum TomlNode {
    Str(Seq<char>),
    Table(Seq<(Seq<char>, TomlNode)>),
    Other,
}

/// The shape of a document value.
pub open spec fn node_of(v: TomlValue) -> TomlNode
    decreases v,
{
    match v {
        TomlValue::Str(s) => TomlNode::Str(s@),
        TomlValue::Table(es) => TomlNode::Table(nodes_of_entries(es@)),
        TomlValue::Other => TomlNode::Other,
    }
}

/// The shapes of a table's entries, in order.
pub open spec fn nodes_of_entries(es: Seq<(String, TomlValue)>) -> Seq<(Seq<char>, TomlNode)>
    decreases es,
{
    if es.len() == 0 {
        Seq::empty()
    } else {
        seq![(es[0].0@, node_of(es[0].1))] + nodes_of_entries(es.drop_first())
    }
}

impl View for TomlValue {
    type V = TomlNode;

    open spec fn view(&self) -> TomlNode {
        node_of(*self)
    }
}

/// The shape sequence of a table is as long as the table, and each entry
/// keeps its key and maps its value through [`node_of`].
pub proof fn lemma_nodes_of_entries(es: Seq<(String, TomlValue)>)
    ensures
        nodes_of_entries(es).len() == es.len(),
        forall|i: int|
            0 <= i < es.len() ==> #[trigger] nodes_of_entries(es)[i] == (
            es[i].0@,
            node_of(es[i].1),
            ),
    decreases es.len(),
{
    if es.len() > 0 {
        lemma_nodes_of_entries(es.drop_first());
    }
}

/// The first entry of a table whose key is `key`, if any.
pub open spec fn table_get(es: Seq<(Seq<char>, TomlNode)>, key: Seq<char>) -> Option<TomlNode>
    decreases es.len(),
{
    if es.len() == 0 {
        None
    } else if es[0].0 == key {
        Some(es[0].1)
    } else {
        table_get(es.drop_first(), key)
    }
}

/// Whether two strings hold the same characters.
pub fn str_eq(a: &String, b: &str) -> (r: bool)
    ensures
        r == (a@ == b@),
{
    let bs: String = b.to_owned();
    a.eq(&bs)
}

/// Looks a key up in a table, returning the first entry that carries it.
pub fn lookup<'a>(es: &'a Vec<(String, TomlValue)>, key: &str) -> (r: Option<&'a TomlValue>)
    ensures
        match r {
            Some(v) => table_get(nodes_of_entries(es@), key@) == Some(node_of(*v)),
            None => table_get(nodes_of_entries(es@), key@) is None,
        },
{
    proof {
        lemma_nodes_of_entries(es@);
    }
    let ghost nodes = nodes_of_entries(es@);
    proof {
        assert(nodes.skip(0) =~= nodes);
    }
    let mut i: usize = 0;
    while i < es.len()
        invariant
            0 <= i <= es.len(),
            nodes == nodes_of_entries(es@),
            nodes.len() == es.len(),
            forall|j: int|
                0 <= j < es.len() ==> #[trigger] nodes[j] == (es@[j].0@, node_of(es@[j].1)),
            forall|j: int| 0 <= j < i ==> #[trigger] nodes[j].0 != key@,
            table_get(nodes, key@) == table_get(nodes.skip(i as int), key@),
        decreases es.len() - i,
    {
        if str_eq(&es[i].0, key) {
            assert(nodes.skip(i as int)[0] == nodes[i as int]);
            return Some(&es[i].1);
        }
        proof {
            assert(nodes.skip(i as int).drop_first() =~= nodes.skip(i + 1));
        }
        i = i + 1;
    }
    assert(nodes.skip(i as int).len() == 0);
    None
}

} // verus!
