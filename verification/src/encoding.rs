use vstd::prelude::*;

use crate::cli::{
    named_once, BuildCommand, BuildCommandView, ParserConfig, ParserConfigView, TreeSitterView,
};
use crate::document::{
    lemma_list_view, lemma_lookup_from, lemma_table_view, lookup, Node, NodeView,
};
use crate::schema::{
    ConfigError, ConfigErrorView, coordinates_of, coordinates_table, count_at, decode_spec, flag_at, optional_strings_at,
    optional_text_at, parsers_at, strings_of, text_at, tree_sitter_at, KEY_BUILD_DIR, KEY_FRESH,
    KEY_FROM, KEY_JOBS, KEY_OUT, KEY_PARSERS, KEY_PLATFORM, KEY_REF, KEY_REPO, KEY_SHOW_CONFIG,
    KEY_STATIC, KEY_TREE_SITTER, KEY_VERSION,
};
use crate::text::owned;

verus! {

/// A list of strings as a list of values.
pub open spec fn encode_strings(items: Seq<Seq<char>>) -> Seq<NodeView> {
    Seq::new(items.len(), |i: int| NodeView::Str(items[i]))
}

/// One entry, where there is a value for it.
pub open spec fn optional_entry(key: Seq<char>, value: Option<NodeView>) -> Seq<
    (Seq<char>, NodeView),
> {
    match value {
        Some(node) => seq![(key, node)],
        None => Seq::empty(),
    }
}

/// Source coordinates as a value: a bare ref as a string, a full record as a
/// table that holds `ref`, then `from` and `parsers` where they are set.
pub open spec fn encode_coordinates(config: ParserConfigView) -> NodeView {
    match config {
        ParserConfigView::Ref(git_ref) => NodeView::Str(git_ref),
        ParserConfigView::Full { git_ref, from, parsers } => NodeView::Table(
            seq![(KEY_REF@, NodeView::Str(git_ref))] + optional_entry(
                KEY_FROM@,
                match from {
                    Some(f) => Some(NodeView::Str(f)),
                    None => None,
                },
            ) + optional_entry(
                KEY_PARSERS@,
                match parsers {
                    Some(p) => Some(NodeView::List(encode_strings(p))),
                    None => None,
                },
            ),
        ),
    }
}

/// The configured targets as the entries of a table, in their order.
pub open spec fn encode_table(targets: Seq<(Seq<char>, ParserConfigView)>) -> Seq<
    (Seq<char>, NodeView),
> {
    Seq::new(targets.len(), |i: int| (targets[i].0, encode_coordinates(targets[i].1)))
}

/// The toolchain as a table.
pub open spec fn encode_tree_sitter(tree_sitter: TreeSitterView) -> NodeView {
    NodeView::Table(
        seq![
            (KEY_VERSION@, NodeView::Str(tree_sitter.version)),
            (KEY_REPO@, NodeView::Str(tree_sitter.repo)),
            (KEY_PLATFORM@, NodeView::Str(tree_sitter.platform)),
        ],
    )
}

/// The entries that every written configuration holds.
pub open spec fn fixed_entries(config: BuildCommandView) -> Seq<(Seq<char>, NodeView)> {
    seq![
        (KEY_BUILD_DIR@, NodeView::Str(config.build_dir)),
        (KEY_STATIC@, NodeView::Bool(config.build_static)),
        (KEY_JOBS@, NodeView::Int(config.jobs as i64)),
        (KEY_FRESH@, NodeView::Bool(config.fresh)),
        (KEY_OUT@, NodeView::Str(config.out)),
        (KEY_SHOW_CONFIG@, NodeView::Bool(config.show_config)),
        (KEY_TREE_SITTER@, encode_tree_sitter(config.tree_sitter)),
    ]
}

/// The document that writes a configuration down: the configured targets
/// where there are any, then every other field but the requested targets,
/// which are never written.
pub open spec fn document_of(config: BuildCommandView) -> NodeView {
    NodeView::Table(
        optional_entry(
            KEY_PARSERS@,
            match config.parsers {
                Some(targets) => Some(NodeView::Table(encode_table(targets))),
                None => None,
            },
        ) + fixed_entries(config),
    )
}

/// The document that writes a configuration down, or why there is none: the
/// number of workers is zero or does not fit a TOML integer, or a target is
/// configured twice, which a table cannot hold.
pub open spec fn encode_spec(config: BuildCommandView) -> Result<NodeView, ConfigErrorView> {
    if config.jobs < 1 || config.jobs > i64::MAX {
        Err(ConfigErrorView::JobsOutOfRange)
    } else if !named_once(config) {
        Err(ConfigErrorView::RepeatedTarget)
    } else {
        Ok(document_of(config))
    }
}

/// The view of a document or the error in its place.
pub open spec fn document_view(r: Result<Node, ConfigError>) -> Result<NodeView, ConfigErrorView> {
    match r {
        Ok(node) => Ok(node@),
        Err(error) => Err(error.deep_view()),
    }
}

fn write_strings(items: &Vec<String>) -> (r: Node)
    ensures
        r@ == NodeView::List(encode_strings(items.deep_view())),
{
    let mut nodes: Vec<Node> = Vec::new();
    let mut i: usize = 0;
    while i < items.len()
        invariant
            i <= items.len(),
            nodes.len() == i,
            forall|k: int| 0 <= k < i ==> (#[trigger] nodes[k])@ == NodeView::Str(items[k]@),
        decreases items.len() - i,
    {
        nodes.push(Node::Str(items[i].clone()));
        i += 1;
    }
    proof {
        lemma_list_view(nodes);
        assert(Node::List(nodes)@->List_0 =~= encode_strings(items.deep_view()));
    }
    Node::List(nodes)
}

/// Source coordinates as a value.
pub fn write_coordinates(config: &ParserConfig) -> (r: Node)
    ensures
        r@ == encode_coordinates(config.deep_view()),
{
    match config {
        ParserConfig::Ref(git_ref) => Node::Str(git_ref.clone()),
        ParserConfig::Full { git_ref, from, parsers } => {
            let mut entries: Vec<(String, Node)> = Vec::new();
            entries.push((owned(KEY_REF), Node::Str(git_ref.clone())));
            match from {
                Some(f) => {
                    entries.push((owned(KEY_FROM), Node::Str(f.clone())));
                },
                None => {},
            }
            match parsers {
                Some(p) => {
                    entries.push((owned(KEY_PARSERS), write_strings(p)));
                },
                None => {},
            }
            proof {
                lemma_table_view(entries);
                assert(Node::Table(entries).entries() =~= encode_coordinates(
                    config.deep_view(),
                )->Table_0);
            }
            Node::Table(entries)
        },
    }
}

fn write_table(targets: &Vec<(String, ParserConfig)>) -> (r: Node)
    ensures
        r@ == NodeView::Table(encode_table(targets.deep_view())),
{
    let mut entries: Vec<(String, Node)> = Vec::new();
    let mut i: usize = 0;
    while i < targets.len()
        invariant
            i <= targets.len(),
            entries.len() == i,
            forall|k: int|
                0 <= k < i ==> (#[trigger] entries[k]).0@ == targets[k].0@ && entries[k].1@
                    == encode_coordinates(targets[k].1.deep_view()),
        decreases targets.len() - i,
    {
        entries.push((targets[i].0.clone(), write_coordinates(&targets[i].1)));
        i += 1;
    }
    proof {
        lemma_table_view(entries);
        assert(Node::Table(entries).entries() =~= encode_table(targets.deep_view()));
    }
    Node::Table(entries)
}

/// Writes a configuration down as a document.
pub fn encode(config: &BuildCommand) -> (r: Result<Node, ConfigError>)
    ensures
        document_view(r) == encode_spec(config.deep_view()),
{
    if config.jobs < 1 || config.jobs as u64 > i64::MAX as u64 {
        return Err(ConfigError::JobsOutOfRange);
    }
    if !config.is_named_once() {
        return Err(ConfigError::RepeatedTarget);
    }
    let mut entries: Vec<(String, Node)> = Vec::new();
    match &config.parsers {
        Some(targets) => {
            entries.push((owned(KEY_PARSERS), write_table(targets)));
        },
        None => {},
    }
    let mut toolchain: Vec<(String, Node)> = Vec::new();
    toolchain.push((owned(KEY_VERSION), Node::Str(config.tree_sitter.version.clone())));
    toolchain.push((owned(KEY_REPO), Node::Str(config.tree_sitter.repo.clone())));
    toolchain.push((owned(KEY_PLATFORM), Node::Str(config.tree_sitter.platform.clone())));
    proof {
        lemma_table_view(toolchain);
        assert(Node::Table(toolchain).entries() =~= encode_tree_sitter(
            config.deep_view().tree_sitter,
        )->Table_0);
    }
    entries.push((owned(KEY_BUILD_DIR), Node::Str(config.build_dir.clone())));
    entries.push((owned(KEY_STATIC), Node::Bool(config.build_static)));
    entries.push((owned(KEY_JOBS), Node::Int(config.jobs as i64)));
    entries.push((owned(KEY_FRESH), Node::Bool(config.fresh)));
    entries.push((owned(KEY_OUT), Node::Str(config.out.clone())));
    entries.push((owned(KEY_SHOW_CONFIG), Node::Bool(config.show_config)));
    entries.push((owned(KEY_TREE_SITTER), Node::Table(toolchain)));
    proof {
        lemma_table_view(entries);
        assert(Node::Table(entries).entries() =~= document_of(config.deep_view())->Table_0);
    }
    Ok(Node::Table(entries))
}

/// No two keys of one table of a written configuration are the same.
pub proof fn lemma_keys_distinct()
    ensures
        KEY_PARSERS@ != KEY_BUILD_DIR@,
        KEY_PARSERS@ != KEY_STATIC@,
        KEY_PARSERS@ != KEY_JOBS@,
        KEY_PARSERS@ != KEY_FRESH@,
        KEY_PARSERS@ != KEY_OUT@,
        KEY_PARSERS@ != KEY_SHOW_CONFIG@,
        KEY_PARSERS@ != KEY_TREE_SITTER@,
        KEY_BUILD_DIR@ != KEY_STATIC@,
        KEY_BUILD_DIR@ != KEY_JOBS@,
        KEY_BUILD_DIR@ != KEY_FRESH@,
        KEY_BUILD_DIR@ != KEY_OUT@,
        KEY_BUILD_DIR@ != KEY_SHOW_CONFIG@,
        KEY_BUILD_DIR@ != KEY_TREE_SITTER@,
        KEY_STATIC@ != KEY_JOBS@,
        KEY_STATIC@ != KEY_FRESH@,
        KEY_STATIC@ != KEY_OUT@,
        KEY_STATIC@ != KEY_SHOW_CONFIG@,
        KEY_STATIC@ != KEY_TREE_SITTER@,
        KEY_JOBS@ != KEY_FRESH@,
        KEY_JOBS@ != KEY_OUT@,
        KEY_JOBS@ != KEY_SHOW_CONFIG@,
        KEY_JOBS@ != KEY_TREE_SITTER@,
        KEY_FRESH@ != KEY_OUT@,
        KEY_FRESH@ != KEY_SHOW_CONFIG@,
        KEY_FRESH@ != KEY_TREE_SITTER@,
        KEY_OUT@ != KEY_SHOW_CONFIG@,
        KEY_OUT@ != KEY_TREE_SITTER@,
        KEY_SHOW_CONFIG@ != KEY_TREE_SITTER@,
        KEY_VERSION@ != KEY_REPO@,
        KEY_VERSION@ != KEY_PLATFORM@,
        KEY_REPO@ != KEY_PLATFORM@,
        KEY_REF@ != KEY_FROM@,
        KEY_REF@ != KEY_PARSERS@,
        KEY_FROM@ != KEY_PARSERS@,
{
    reveal_strlit("parsers");
    reveal_strlit("build-dir");
    reveal_strlit("static");
    reveal_strlit("jobs");
    reveal_strlit("fresh");
    reveal_strlit("out");
    reveal_strlit("show-config");
    reveal_strlit("tree-sitter");
    reveal_strlit("version");
    reveal_strlit("repo");
    reveal_strlit("platform");
    reveal_strlit("ref");
    reveal_strlit("from");
    assert(KEY_PARSERS@.len() == 7);
    assert(KEY_BUILD_DIR@.len() == 9);
    assert(KEY_STATIC@.len() == 6);
    assert(KEY_JOBS@.len() == 4);
    assert(KEY_FRESH@.len() == 5);
    assert(KEY_OUT@.len() == 3);
    assert(KEY_SHOW_CONFIG@.len() == 11);
    assert(KEY_TREE_SITTER@.len() == 11);
    assert(KEY_VERSION@.len() == 7);
    assert(KEY_REPO@.len() == 4);
    assert(KEY_PLATFORM@.len() == 8);
    assert(KEY_REF@.len() == 3);
    assert(KEY_FROM@.len() == 4);
    assert(KEY_SHOW_CONFIG@[0] != KEY_TREE_SITTER@[0]);
}

/// The entry at `index` is the one that a lookup of its key finds, where no
/// entry before it has that key.
pub proof fn lemma_lookup_at(entries: Seq<(Seq<char>, NodeView)>, key: Seq<char>, index: int)
    requires
        0 <= index < entries.len(),
        entries[index].0 == key,
        forall|k: int| 0 <= k < index ==> entries[k].0 != key,
    ensures
        lookup(entries, key) == Some(entries[index].1),
{
    lemma_lookup_from(entries, key, index);
    let tail = entries.subrange(index, entries.len() as int);
    assert(tail[0] == entries[index]);
}

/// A lookup finds nothing in a table none of whose entries has the key.
pub proof fn lemma_lookup_none(entries: Seq<(Seq<char>, NodeView)>, key: Seq<char>)
    requires
        forall|k: int| 0 <= k < entries.len() ==> entries[k].0 != key,
    ensures
        lookup(entries, key) is None,
{
    lemma_lookup_from(entries, key, entries.len() as int);
    assert(entries.subrange(entries.len() as int, entries.len() as int).len() == 0);
}

/// A written list of strings is read back as it was.
pub proof fn lemma_strings_round_trip(items: Seq<Seq<char>>)
    ensures
        strings_of(encode_strings(items)) == Some(items),
{
    let written = encode_strings(items);
    assert(strings_of(written)->0 =~= items);
}

/// Written source coordinates are read back as they were.
pub proof fn lemma_coordinates_round_trip(config: ParserConfigView)
    ensures
        coordinates_of(encode_coordinates(config)) == Some(config),
{
    lemma_keys_distinct();
    match config {
        ParserConfigView::Ref(_) => {},
        ParserConfigView::Full { git_ref, from, parsers } => {
            let entries = encode_coordinates(config)->Table_0;
            lemma_lookup_at(entries, KEY_REF@, 0);
            match from {
                Some(f) => {
                    lemma_lookup_at(entries, KEY_FROM@, 1);
                },
                None => {
                    lemma_lookup_none(entries, KEY_FROM@);
                },
            }
            match parsers {
                Some(p) => {
                    lemma_strings_round_trip(p);
                    lemma_lookup_at(entries, KEY_PARSERS@, entries.len() - 1);
                },
                None => {
                    lemma_lookup_none(entries, KEY_PARSERS@);
                },
            }
            assert(optional_text_at(entries, KEY_FROM@) == Some(from));
            assert(optional_strings_at(entries, KEY_PARSERS@) == Some(parsers));
        },
    }
}

/// A written table of targets is read back as it was.
pub proof fn lemma_table_round_trip(targets: Seq<(Seq<char>, ParserConfigView)>)
    ensures
        coordinates_table(encode_table(targets)) == Some(targets),
{
    let written = encode_table(targets);
    assert forall|i: int| 0 <= i < written.len() implies coordinates_of(
        (#[trigger] written[i]).1,
    ) == Some(targets[i].1) by {
        lemma_coordinates_round_trip(targets[i].1);
    }
    assert(coordinates_table(written)->0 =~= targets);
}

/// A written toolchain is read back as it was, whatever the defaults.
pub proof fn lemma_tree_sitter_round_trip(tree_sitter: TreeSitterView, default: TreeSitterView)
    ensures
        ({
            let fields = encode_tree_sitter(tree_sitter)->Table_0;
            &&& text_at(fields, KEY_VERSION@, default.version) == Some(tree_sitter.version)
            &&& text_at(fields, KEY_REPO@, default.repo) == Some(tree_sitter.repo)
            &&& text_at(fields, KEY_PLATFORM@, default.platform) == Some(tree_sitter.platform)
        }),
{
    lemma_keys_distinct();
    let fields = encode_tree_sitter(tree_sitter)->Table_0;
    lemma_lookup_at(fields, KEY_VERSION@, 0);
    lemma_lookup_at(fields, KEY_REPO@, 1);
    lemma_lookup_at(fields, KEY_PLATFORM@, 2);
}

/// Round trip: a configuration that is written down as a document and read
/// back over `default` is the configuration itself, provided that it can be
/// written (it has at least one worker, their number fits a TOML integer,
/// and it names no target twice) and that what a document never holds is the
/// same in both: the requested targets, and the absence of configured
/// targets.
pub proof fn lemma_round_trip(config: BuildCommandView, default: BuildCommandView)
    requires
        1 <= config.jobs <= i64::MAX,
        named_once(config),
        config.languages == default.languages,
        config.parsers is None ==> default.parsers is None,
    ensures
        encode_spec(config) == Ok::<NodeView, ConfigErrorView>(document_of(config)),
        decode_spec(document_of(config), default) == Ok::<BuildCommandView, ConfigErrorView>(
            config,
        ),
{
    lemma_keys_distinct();
    let entries = document_of(config)->Table_0;
    let shift: int = if config.parsers is Some {
        1
    } else {
        0
    };
    assert(entries.len() == 7 + shift);
    match config.parsers {
        Some(targets) => {
            lemma_table_round_trip(targets);
            lemma_lookup_at(entries, KEY_PARSERS@, 0);
        },
        None => {
            lemma_lookup_none(entries, KEY_PARSERS@);
        },
    }
    assert(parsers_at(entries, default.parsers) == Some(config.parsers));
    lemma_lookup_at(entries, KEY_BUILD_DIR@, shift);
    lemma_lookup_at(entries, KEY_STATIC@, shift + 1);
    lemma_lookup_at(entries, KEY_JOBS@, shift + 2);
    lemma_lookup_at(entries, KEY_FRESH@, shift + 3);
    lemma_lookup_at(entries, KEY_OUT@, shift + 4);
    lemma_lookup_at(entries, KEY_SHOW_CONFIG@, shift + 5);
    lemma_lookup_at(entries, KEY_TREE_SITTER@, shift + 6);
    lemma_tree_sitter_round_trip(config.tree_sitter, default.tree_sitter);
    assert(text_at(entries, KEY_BUILD_DIR@, default.build_dir) == Some(config.build_dir));
    assert(flag_at(entries, KEY_STATIC@, default.build_static) == Some(config.build_static));
    assert(count_at(entries, KEY_JOBS@, default.jobs) == Some(config.jobs));
    assert(flag_at(entries, KEY_FRESH@, default.fresh) == Some(config.fresh));
    assert(text_at(entries, KEY_OUT@, default.out) == Some(config.out));
    assert(flag_at(entries, KEY_SHOW_CONFIG@, default.show_config) == Some(config.show_config));
    assert(tree_sitter_at(entries, default.tree_sitter) == Some(config.tree_sitter));
}

} // verus!
