use vstd::prelude::*;

verus! {

/// A configuration document: the tree of values that a TOML text stands for.
///
/// A table is a list of entries; a key is looked up from the front.
#[derive(Debug)]
pub enum Node {
    Str(String),
    Int(i64),
    Bool(bool),
    List(Vec<Node>),
    Table(Vec<(String, Node)>),
    /// A value of a kind that no configuration field accepts (a float, a date).
    Other,
}

/// Mathematical value of a [`Node`].
pub enum NodeView {
    Str(Seq<char>),
    Int(i64),
    Bool(bool),
    List(Seq<NodeView>),
    Table(Seq<(Seq<char>, NodeView)>),
    Other,
}

/// The value of a node: that of each string as its characters, that of a
/// list or table as the sequence of its members' values.
pub open spec fn value_of(node: Node) -> NodeView
    decreases node,
{
    match node {
        Node::Str(s) => NodeView::Str(s@),
        Node::Int(i) => NodeView::Int(i),
        Node::Bool(b) => NodeView::Bool(b),
        Node::List(items) => NodeView::List(
            Seq::new(
                items.len() as nat,
                |i: int|
                    if 0 <= i < items.len() {
                        value_of(items[i])
                    } else {
                        NodeView::Other
                    },
            ),
        ),
        Node::Table(entries) => NodeView::Table(
            Seq::new(
                entries.len() as nat,
                |i: int|
                    if 0 <= i < entries.len() {
                        (entries[i].0@, value_of(entries[i].1))
                    } else {
                        (Seq::empty(), NodeView::Other)
                    },
            ),
        ),
        Node::Other => NodeView::Other,
    }
}

impl View for Node {
    type V = NodeView;

    open spec fn view(&self) -> NodeView {
        value_of(*self)
    }
}

/// Whether no two entries of a table have the same key.
pub open spec fn distinct_keys(entries: Seq<(Seq<char>, NodeView)>) -> bool {
    forall|i: int, j: int|
        0 <= i < j < entries.len() ==> (#[trigger] entries[i]).0 != (#[trigger] entries[j]).0
}

/// Whether no table of a document, at any depth, holds a key twice.
pub open spec fn well_keyed(node: NodeView) -> bool
    decreases node,
{
    match node {
        NodeView::Table(entries) => distinct_keys(entries) && forall|i: int|
            0 <= i < entries.len() ==> well_keyed((#[trigger] entries[i]).1),
        NodeView::List(items) => forall|i: int|
            0 <= i < items.len() ==> well_keyed(#[trigger] items[i]),
        _ => true,
    }
}

/// What a lookup finds is the value of one of the entries.
pub proof fn lemma_lookup_is_entry(entries: Seq<(Seq<char>, NodeView)>, key: Seq<char>)
    requires
        lookup(entries, key) is Some,
    ensures
        exists|k: int|
            0 <= k < entries.len() && (#[trigger] entries[k]).0 == key && entries[k].1 == lookup(
                entries,
                key,
            )->0,
    decreases entries.len(),
{
    if entries[0].0 == key {
        assert(entries[0].1 == lookup(entries, key)->0);
    } else {
        let rest = entries.drop_first();
        lemma_lookup_is_entry(rest, key);
        let k = choose|k: int|
            0 <= k < rest.len() && (#[trigger] rest[k]).0 == key && rest[k].1 == lookup(
                rest,
                key,
            )->0;
        assert(entries[k + 1] == rest[k]);
    }
}

/// The empty document.
pub open spec fn empty_document() -> NodeView {
    NodeView::Table(Seq::empty())
}

/// The first entry of a table that has the given key, if there is one.
pub open spec fn lookup(entries: Seq<(Seq<char>, NodeView)>, key: Seq<char>) -> Option<NodeView>
    decreases entries.len(),
{
    if entries.len() == 0 {
        None
    } else if entries[0].0 == key {
        Some(entries[0].1)
    } else {
        lookup(entries.drop_first(), key)
    }
}

/// A lookup in a table depends only on the entries from the first match on.
pub proof fn lemma_lookup_from(entries: Seq<(Seq<char>, NodeView)>, key: Seq<char>, from: int)
    requires
        0 <= from <= entries.len(),
        forall|k: int| 0 <= k < from ==> entries[k].0 != key,
    ensures
        lookup(entries, key) == lookup(entries.subrange(from, entries.len() as int), key),
    decreases from,
{
    if from == 0 {
        assert(entries.subrange(0, entries.len() as int) =~= entries);
    } else {
        let rest = entries.drop_first();
        assert forall|k: int| 0 <= k < from - 1 implies rest[k].0 != key by {
            assert(rest[k] == entries[k + 1]);
        }
        lemma_lookup_from(rest, key, from - 1);
        assert(rest.subrange(from - 1, rest.len() as int) =~= entries.subrange(
            from,
            entries.len() as int,
        ));
    }
}

/// The value of a table is the sequence of its entries' values.
pub proof fn lemma_table_view(entries: Vec<(String, Node)>)
    ensures
        Node::Table(entries)@ is Table,
        Node::Table(entries).entries().len() == entries.len(),
        forall|k: int|
            0 <= k < entries.len() ==> #[trigger] Node::Table(entries).entries()[k] == (
                entries[k].0@,
                entries[k].1@,
            ),
{
    let node = Node::Table(entries);
    assert(node@ is Table);
    assert(node@->Table_0.len() == entries.len());
    assert forall|k: int| 0 <= k < entries.len() implies #[trigger] node.entries()[k] == (
        entries[k].0@,
        entries[k].1@,
    ) by {}
}

/// The value of a list is the sequence of its items' values.
pub proof fn lemma_list_view(items: Vec<Node>)
    ensures
        Node::List(items)@ is List,
        Node::List(items)@->List_0.len() == items.len(),
        forall|k: int| 0 <= k < items.len() ==> #[trigger] Node::List(items)@->List_0[k] == items[k]@,
{
    let node = Node::List(items);
    assert(node@ is List);
    assert(node@->List_0.len() == items.len());
}

impl Node {
    /// The entries of this node where it is a table.
    pub open spec fn entries(self) -> Seq<(Seq<char>, NodeView)> {
        match self@ {
            NodeView::Table(entries) => entries,
            _ => Seq::empty(),
        }
    }

    /// The value under `key` where this node is a table that has the key.
    pub fn get<'a>(&'a self, key: &str) -> (r: Option<&'a Node>)
        ensures
            match r {
                Some(node) => self@ is Table && lookup(self.entries(), key@) == Some(node@),
                None => !(self@ is Table) || lookup(self.entries(), key@) is None,
            },
    {
        match self {
            Node::Table(entries) => {
                proof {
                    lemma_table_view(*entries);
                }
                let mut i: usize = 0;
                while i < entries.len()
                    invariant
                        i <= entries.len(),
                        self@ is Table,
                        self.entries().len() == entries.len(),
                        forall|k: int|
                            0 <= k < entries.len() ==> self.entries()[k] == (
                                entries[k].0@,
                                entries[k].1@,
                            ),
                        forall|k: int| 0 <= k < i ==> self.entries()[k].0 != key@,
                    decreases entries.len() - i,
                {
                    if crate::text::same(entries[i].0.as_str(), key) {
                        proof {
                            let all = self.entries();
                            lemma_lookup_from(all, key@, i as int);
                            let tail = all.subrange(i as int, all.len() as int);
                            assert(tail[0] == all[i as int]);
                        }
                        return Some(&entries[i].1);
                    }
                    i += 1;
                }
                proof {
                    let all = self.entries();
                    lemma_lookup_from(all, key@, all.len() as int);
                    assert(all.subrange(all.len() as int, all.len() as int).len() == 0);
                }
                None
            },
            _ => None,
        }
    }
}

/// What `toml::from_str` makes of a text: the document that the text stands
/// for, or the message of the parser's error.
pub uninterp spec fn toml_document(text: Seq<char>) -> Result<NodeView, Seq<char>>;

/// What `toml::to_string` makes of a document: its TOML text, or nothing where
/// the document cannot be written as TOML.
pub uninterp spec fn toml_text(document: NodeView) -> Option<Seq<char>>;

/// `toml::Value`, a value of a TOML document in the `toml` crate. Nothing is
/// known of what is inside one: it is only handed on.
#[verifier::external_type_specification]
#[verifier::external_body]
pub struct ExTomlValue(toml::Value);

/// Turns a value of the `toml` crate into a [`Node`], variant by variant: a
/// string, an integer, a boolean, an array and a table keep what they hold,
/// a table's entries in the order in which `toml::Table` walks them; a float
/// and a date become [`Node::Other`].
#[verifier::external_body]
fn lower(value: &toml::Value) -> Node {
    match value {
        toml::Value::String(s) => Node::Str(s.clone()),
        toml::Value::Integer(i) => Node::Int(*i),
        toml::Value::Boolean(b) => Node::Bool(*b),
        toml::Value::Array(items) => Node::List(items.iter().map(lower).collect()),
        toml::Value::Table(t) => Node::Table(
            t.iter().map(|(k, v)| (k.clone(), lower(v))).collect(),
        ),
        toml::Value::Float(_) | toml::Value::Datetime(_) => Node::Other,
    }
}

/// Turns a [`Node`] into a value of the `toml` crate, variant by variant, or
/// into nothing where it holds a [`Node::Other`]. A table's entries are
/// inserted in their order into a `toml::Table`, which is a map: of two
/// entries with one key the later one stays.
#[verifier::external_body]
fn raise(node: &Node) -> Option<toml::Value> {
    Some(match node {
        Node::Str(s) => toml::Value::String(s.clone()),
        Node::Int(i) => toml::Value::Integer(*i),
        Node::Bool(b) => toml::Value::Boolean(*b),
        Node::List(items) => toml::Value::Array(items.iter().map(raise).collect::<Option<_>>()?),
        Node::Table(entries) => toml::Value::Table(
            entries.iter().map(|(k, v)| Some((k.clone(), raise(v)?))).collect::<Option<_>>()?,
        ),
        Node::Other => return None,
    })
}

/// `toml::from_str` on a whole text, read as a table. The result is a
/// function of the text alone: it is [`toml_document`] of the text. A table
/// of the `toml` crate is a map, so no table of the result holds a key twice.
#[verifier::external_body]
fn parse_toml(text: &str) -> (r: Result<Node, String>)
    ensures
        match r {
            Ok(node) => toml_document(text@) == Ok::<NodeView, Seq<char>>(node@) && well_keyed(
                node@,
            ),
            Err(message) => toml_document(text@) == Err::<NodeView, Seq<char>>(message@),
        },
{
    match toml::from_str::<toml::Table>(text) {
        Ok(table) => Ok(lower(&toml::Value::Table(table))),
        Err(error) => Err(error.to_string()),
    }
}

/// `toml::to_string` on a document. The result is a function of the document
/// alone: it is [`toml_text`] of the document.
#[verifier::external_body]
fn render_toml(document: &Node) -> (r: Option<String>)
    ensures
        match r {
            Some(text) => toml_text(document@) == Some(text@),
            None => toml_text(document@) is None,
        },
{
    match raise(document) {
        Some(value) => toml::to_string(&value).ok(),
        None => None,
    }
}

/// Reads a TOML text.
pub fn parse(text: &str) -> (r: Result<Node, String>)
    ensures
        match r {
            Ok(node) => toml_document(text@) == Ok::<NodeView, Seq<char>>(node@) && well_keyed(
                node@,
            ),
            Err(message) => toml_document(text@) == Err::<NodeView, Seq<char>>(message@),
        },
{
    parse_toml(text)
}

/// Writes a document as TOML text.
pub fn render(document: &Node) -> (r: Option<String>)
    ensures
        match r {
            Some(text) => toml_text(document@) == Some(text@),
            None => toml_text(document@) is None,
        },
{
    render_toml(document)
}

} // verus!
