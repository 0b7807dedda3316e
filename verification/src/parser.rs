use vstd::prelude::*;

use crate::text::str_from_utf8;
use crate::syntax::{lemma_sizes_upto_prefix, sizes_upto, Point, Sibling, SyntaxNode};

verus! {

#[verifier::external_type_specification]
#[verifier::external_body]
pub struct ExLanguage(tree_sitter::Language);

#[verifier::external_type_specification]
#[verifier::external_body]
pub struct ExLanguageError(tree_sitter::LanguageError);

#[verifier::external_type_specification]
#[verifier::external_body]
pub struct ExParser(tree_sitter::Parser);

#[verifier::external_type_specification]
#[verifier::external_body]
pub struct ExTree(tree_sitter::Tree);

#[verifier::external_type_specification]
#[verifier::external_body]
pub struct ExNode<'tree>(tree_sitter::Node<'tree>);

/// What `tree_sitter::Language::version` gives: the ABI version of the
/// tables that the grammar was generated as.
pub uninterp spec fn grammar_version(language: tree_sitter::Language) -> usize;

/// Whether this parser library takes a grammar: its ABI version lies from
/// `MIN_COMPATIBLE_LANGUAGE_VERSION` (13) to `LANGUAGE_VERSION` (14).
pub open spec fn accepts_grammar(language: tree_sitter::Language) -> bool {
    13 <= grammar_version(language) <= 14
}

/// `tree_sitter_sourcepawn::language`: the SourcePawn grammar, whose tables
/// were generated as ABI version 14 (`.version = LANGUAGE_VERSION` with
/// `LANGUAGE_VERSION` 14 in the grammar's `parser.c`). Nothing else is
/// claimed of it.
#[verifier::external_body]
pub(crate) fn sourcepawn_language() -> (r: tree_sitter::Language)
    ensures
        grammar_version(r) == 14,
{
    tree_sitter_sourcepawn::language()
}

/// The names below stand for what tree-sitter gives of the node at `path`
/// (the indices of the children taken on the way down from the root) in the
/// tree that it parses of `text` with the grammar `language`, with no
/// earlier tree, no timeout and no cancellation flag: a function of these
/// alone.
///
/// What `tree_sitter::Node::kind` gives.
pub uninterp spec fn ts_kind(
    language: tree_sitter::Language,
    text: Seq<char>,
    path: Seq<usize>,
) -> Seq<char>;

/// What `tree_sitter::Node::is_named` gives.
pub uninterp spec fn ts_is_named(
    language: tree_sitter::Language,
    text: Seq<char>,
    path: Seq<usize>,
) -> bool;

/// What `tree_sitter::Node::has_error` gives.
pub uninterp spec fn ts_has_error(
    language: tree_sitter::Language,
    text: Seq<char>,
    path: Seq<usize>,
) -> bool;

/// What `tree_sitter::Node::start_byte` gives.
pub uninterp spec fn ts_start_byte(
    language: tree_sitter::Language,
    text: Seq<char>,
    path: Seq<usize>,
) -> usize;

/// What `tree_sitter::Node::end_byte` gives.
pub uninterp spec fn ts_end_byte(
    language: tree_sitter::Language,
    text: Seq<char>,
    path: Seq<usize>,
) -> usize;

/// What `tree_sitter::Node::start_position` gives, as a [`Point`].
pub uninterp spec fn ts_start_position(
    language: tree_sitter::Language,
    text: Seq<char>,
    path: Seq<usize>,
) -> Point;

/// What `tree_sitter::Node::end_position` gives, as a [`Point`].
pub uninterp spec fn ts_end_position(
    language: tree_sitter::Language,
    text: Seq<char>,
    path: Seq<usize>,
) -> Point;

/// What `tree_sitter::Node::child_count` gives.
pub uninterp spec fn ts_child_count(
    language: tree_sitter::Language,
    text: Seq<char>,
    path: Seq<usize>,
) -> usize;

/// What `tree_sitter::Node::field_name_for_child` gives for the child at
/// `index`.
pub uninterp spec fn ts_field_name(
    language: tree_sitter::Language,
    text: Seq<char>,
    path: Seq<usize>,
    index: usize,
) -> Option<Seq<char>>;

/// A tree-sitter parser made by this library. It is given no timeout and
/// no cancellation flag (nothing here sets them), and `language` records
/// the grammar handed to it, if any.
pub struct SourceParser {
    parser: tree_sitter::Parser,
    language: Ghost<Option<tree_sitter::Language>>,
}

/// A syntax tree, with the grammar and the text it was parsed from.
pub struct ParsedTree {
    tree: tree_sitter::Tree,
    language: Ghost<tree_sitter::Language>,
    text: Ghost<Seq<char>>,
}

impl ParsedTree {
    /// The text that the tree was parsed from.
    pub closed spec fn source(&self) -> Seq<char> {
        self.text@
    }

    /// The grammar that the tree was parsed with.
    pub closed spec fn grammar(&self) -> tree_sitter::Language {
        self.language@
    }
}

/// A node of a [`ParsedTree`], with the grammar and text of the tree and
/// the path that leads to the node from the root.
pub struct PathNode<'t> {
    node: tree_sitter::Node<'t>,
    language: Ghost<tree_sitter::Language>,
    text: Ghost<Seq<char>>,
    path: Ghost<Seq<usize>>,
}

/// `tree_sitter::Parser::new`: a parser with no language, no timeout and no
/// cancellation flag.
#[verifier::external_body]
fn parser_new() -> (r: SourceParser)
    ensures
        r.language@ is None,
{
    SourceParser { parser: tree_sitter::Parser::new(), language: Ghost(None) }
}

/// `tree_sitter::Parser::set_language`: hands the grammar to the parser; it
/// fails exactly where the grammar's version (`Language::version`) lies
/// outside `MIN_COMPATIBLE_LANGUAGE_VERSION..=LANGUAGE_VERSION`, which are 13
/// and 14 in this version of the library, and then leaves the parser as it
/// was.
#[verifier::external_body]
fn parser_set_language(
    parser: &mut SourceParser,
    language: &tree_sitter::Language,
) -> (r: Result<(), tree_sitter::LanguageError>)
    ensures
        r is Ok <==> accepts_grammar(*language),
        r is Ok ==> final(parser).language@ == Some(*language),
        r is Err ==> final(parser).language@ == old(parser).language@,
{
    match parser.parser.set_language(*language) {
        Ok(()) => {
            parser.language = Ghost(Some(*language));
            Ok(())
        },
        Err(e) => Err(e),
    }
}

/// `tree_sitter::Parser::parse` with no earlier tree: the syntax tree of
/// `text` with the parser's grammar. Its documentation says that nothing
/// comes back only where the parser has no language, or a timeout or a
/// cancellation flag stopped it; a parser of this library has neither, so a
/// tree comes back once it has a language.
#[verifier::external_body]
fn parser_parse(parser: &mut SourceParser, text: &str) -> (r: Option<ParsedTree>)
    ensures
        old(parser).language@ is Some ==> r is Some,
        r matches Some(t) ==> t.source() == text@ && Some(t.grammar()) == old(
            parser,
        ).language@,
        final(parser).language@ == old(parser).language@,
{
    match parser.parser.parse(text, None) {
        Some(t) => Some(
            ParsedTree { tree: t, language: Ghost(parser.language@->0), text: Ghost(text@) },
        ),
        None => None,
    }
}

/// `tree_sitter::Tree::root_node`: the node at the empty path.
#[verifier::external_body]
fn tree_root_node<'t>(tree: &'t ParsedTree) -> (r: PathNode<'t>)
    ensures
        r.language@ == tree.grammar(),
        r.text@ == tree.source(),
        r.path@ == Seq::<usize>::empty(),
{
    PathNode {
        node: tree.tree.root_node(),
        language: Ghost(tree.language@),
        text: Ghost(tree.text@),
        path: Ghost(Seq::empty()),
    }
}

/// `tree_sitter::Node::kind`: the grammar's name of the node.
#[verifier::external_body]
fn node_kind(node: &PathNode) -> (r: &'static str)
    ensures
        r@ == ts_kind(node.language@, node.text@, node.path@),
{
    node.node.kind()
}

/// `tree_sitter::Node::is_named`.
#[verifier::external_body]
fn node_is_named(node: &PathNode) -> (r: bool)
    ensures
        r == ts_is_named(node.language@, node.text@, node.path@),
{
    node.node.is_named()
}

/// `tree_sitter::Node::has_error`: whether the node is or holds a syntax
/// error.
#[verifier::external_body]
fn node_has_error(node: &PathNode) -> (r: bool)
    ensures
        r == ts_has_error(node.language@, node.text@, node.path@),
{
    node.node.has_error()
}

/// `tree_sitter::Node::start_byte`.
#[verifier::external_body]
fn node_start_byte(node: &PathNode) -> (r: usize)
    ensures
        r == ts_start_byte(node.language@, node.text@, node.path@),
{
    node.node.start_byte()
}

/// `tree_sitter::Node::end_byte`.
#[verifier::external_body]
fn node_end_byte(node: &PathNode) -> (r: usize)
    ensures
        r == ts_end_byte(node.language@, node.text@, node.path@),
{
    node.node.end_byte()
}

/// `tree_sitter::Node::start_position`, as a [`Point`] of the same row and
/// column.
#[verifier::external_body]
fn node_start_position(node: &PathNode) -> (r: Point)
    ensures
        r == ts_start_position(node.language@, node.text@, node.path@),
{
    let p = node.node.start_position();
    Point { row: p.row, column: p.column }
}

/// `tree_sitter::Node::end_position`, as a [`Point`] of the same row and
/// column.
#[verifier::external_body]
fn node_end_position(node: &PathNode) -> (r: Point)
    ensures
        r == ts_end_position(node.language@, node.text@, node.path@),
{
    let p = node.node.end_position();
    Point { row: p.row, column: p.column }
}

/// `tree_sitter::Node::child_count`, which the library reads as a `u32`.
#[verifier::external_body]
fn node_child_count(node: &PathNode) -> (r: usize)
    ensures
        r == ts_child_count(node.language@, node.text@, node.path@),
        r <= u32::MAX,
{
    node.node.child_count()
}

/// `tree_sitter::Node::child`: the child at index `i`, which is there for
/// every index below the count of children (`ts_node_child` walks the
/// children until it reaches that index).
#[verifier::external_body]
fn node_child<'t>(node: &PathNode<'t>, i: usize) -> (r: Option<PathNode<'t>>)
    requires
        i < ts_child_count(node.language@, node.text@, node.path@),
    ensures
        r is Some,
        r->0.language@ == node.language@,
        r->0.text@ == node.text@,
        r->0.path@ == node.path@.push(i),
{
    match node.node.child(i) {
        Some(c) => Some(
            PathNode {
                node: c,
                language: Ghost(node.language@),
                text: Ghost(node.text@),
                path: Ghost(node.path@.push(i)),
            },
        ),
        None => None,
    }
}

/// `tree_sitter::Node::field_name_for_child`: the field under which the node
/// holds the child at index `i`, if any.
#[verifier::external_body]
fn node_field_name_for_child(node: &PathNode, i: usize) -> (r: Option<&'static str>)
    requires
        i < ts_child_count(node.language@, node.text@, node.path@),
    ensures
        ts_field_name(node.language@, node.text@, node.path@, i) == (match r {
            Some(f) => Some(f@),
            None => None,
        }),
{
    node.node.field_name_for_child(i as u32)
}

/// What a node tells of its neighbour.
fn sibling_of(kind: &String, start_position: Point, end_position: Point) -> (r: Sibling)
    ensures
        r.kind@ == kind@,
        r.start_position == start_position,
        r.end_position == end_position,
{
    Sibling { kind: kind.clone(), start_position, end_position }
}

/// The text of the bytes `start..end` of `source`, as `Node::utf8_text`
/// takes a node's text: nothing where the span does not lie within
/// `source` (which `Node::utf8_text` would index and panic on) or is not
/// valid UTF-8.
pub fn span_text(source: &[u8], start: usize, end: usize) -> (r: Option<String>)
    ensures
        r is Some <==> start <= end <= source@.len() && vstd::utf8::valid_utf8(
            source@.subrange(start as int, end as int),
        ),
        r matches Some(t) ==> t@ == vstd::utf8::decode_utf8(
            source@.subrange(start as int, end as int),
        ),
{
    if start > end || end > source.len() {
        return None;
    }
    match str_from_utf8(vstd::slice::slice_subrange(source, start, end)) {
        Some(t) => Some(t.to_owned()),
        None => None,
    }
}

/// `s` tells of the node at `path`, where there is one: its kind and its
/// positions; and there is no `s` where there is no `path`.
pub open spec fn tells_of(
    s: Option<Sibling>,
    language: tree_sitter::Language,
    text: Seq<char>,
    path: Option<Seq<usize>>,
) -> bool {
    match (s, path) {
        (None, None) => true,
        (Some(s), Some(q)) => {
            &&& s.kind@ == ts_kind(language, text, q)
            &&& s.start_position == ts_start_position(language, text, q)
            &&& s.end_position == ts_end_position(language, text, q)
        },
        _ => false,
    }
}

/// An optional string, as an optional sequence of characters.
pub open spec fn opt_view(o: Option<String>) -> Option<Seq<char>> {
    match o {
        Some(s) => Some(s@),
        None => None,
    }
}

/// The index of the last named child before the child at `j` of the node at
/// `path`, if any.
pub open spec fn last_named(
    language: tree_sitter::Language,
    text: Seq<char>,
    path: Seq<usize>,
    j: int,
) -> Option<int>
    decreases j,
{
    if j <= 0 {
        None
    } else if ts_is_named(language, text, path.push((j - 1) as usize)) {
        Some(j - 1)
    } else {
        last_named(language, text, path, j - 1)
    }
}

/// The path of the child just before the child at `j`, if any.
pub open spec fn prev_path(path: Seq<usize>, j: int) -> Option<Seq<usize>> {
    if j > 0 {
        Some(path.push((j - 1) as usize))
    } else {
        None
    }
}

/// The path of the child just after the child at `j`, if any.
pub open spec fn next_path(
    language: tree_sitter::Language,
    text: Seq<char>,
    path: Seq<usize>,
    j: int,
) -> Option<Seq<usize>> {
    if j + 1 < ts_child_count(language, text, path) {
        Some(path.push((j + 1) as usize))
    } else {
        None
    }
}

/// The path of the last named child before the child at `j`, if any.
pub open spec fn prev_named_path(
    language: tree_sitter::Language,
    text: Seq<char>,
    path: Seq<usize>,
    j: int,
) -> Option<Seq<usize>> {
    match last_named(language, text, path, j) {
        Some(k) => Some(path.push(k as usize)),
        None => None,
    }
}

/// `n` is the node at `path` read, within `depth` levels, from the tree that
/// tree-sitter parses of `text` with `language`: its kind, flags, byte span,
/// positions and children are tree-sitter's; its text is its span of
/// `source`, which must lie within `source` and be valid UTF-8; it is held
/// under the field `field`, and its neighbours are the nodes at `prev`,
/// `next` and `prev_named`; and its size counts its subtree.
pub open spec fn reads_node(
    language: tree_sitter::Language,
    text: Seq<char>,
    path: Seq<usize>,
    source: Seq<u8>,
    field: Option<Seq<char>>,
    prev: Option<Seq<usize>>,
    next: Option<Seq<usize>>,
    prev_named: Option<Seq<usize>>,
    depth: nat,
    n: SyntaxNode,
) -> bool
    decreases depth, 1int,
{
    if depth == 0 {
        false
    } else {
        let start = ts_start_byte(language, text, path);
        let end = ts_end_byte(language, text, path);
        &&& n.kind@ == ts_kind(language, text, path)
        &&& n.named == ts_is_named(language, text, path)
        &&& n.has_error == ts_has_error(language, text, path)
        &&& n.start_byte == start
        &&& n.end_byte == end
        &&& n.start_position == ts_start_position(language, text, path)
        &&& n.end_position == ts_end_position(language, text, path)
        &&& start <= end <= source.len()
        &&& vstd::utf8::valid_utf8(source.subrange(start as int, end as int))
        &&& n.text@ == vstd::utf8::decode_utf8(source.subrange(start as int, end as int))
        &&& opt_view(n.field_name) == field
        &&& tells_of(n.prev_sibling, language, text, prev)
        &&& tells_of(n.next_sibling, language, text, next)
        &&& tells_of(n.prev_named_sibling, language, text, prev_named)
        &&& n.size == 1 + sizes_upto(n.children@, n.children@.len() as int)
        &&& n.children@.len() == ts_child_count(language, text, path)
        &&& forall|j: int|
            0 <= j < n.children@.len() ==> reads_child(
                language,
                text,
                path,
                source,
                depth,
                j,
                #[trigger] n.children@[j],
            )
    }
}

/// `c` is the child at `j` of the node at `path`, read within one level
/// less than `depth`.
pub open spec fn reads_child(
    language: tree_sitter::Language,
    text: Seq<char>,
    path: Seq<usize>,
    source: Seq<u8>,
    depth: nat,
    j: int,
    c: SyntaxNode,
) -> bool
    decreases depth, 0int,
{
    depth > 0 && reads_node(
        language,
        text,
        path.push(j as usize),
        source,
        ts_field_name(language, text, path, j as usize),
        prev_path(path, j),
        next_path(language, text, path, j),
        prev_named_path(language, text, path, j),
        (depth - 1) as nat,
        c,
    )
}

/// Two nodes that `reads_node` reads from the same place have the same size.
proof fn lemma_read_size_unique(
    language: tree_sitter::Language,
    text: Seq<char>,
    path: Seq<usize>,
    source: Seq<u8>,
    field: Option<Seq<char>>,
    prev: Option<Seq<usize>>,
    next: Option<Seq<usize>>,
    prev_named: Option<Seq<usize>>,
    depth: nat,
    n1: SyntaxNode,
    n2: SyntaxNode,
)
    requires
        reads_node(language, text, path, source, field, prev, next, prev_named, depth, n1),
        reads_node(language, text, path, source, field, prev, next, prev_named, depth, n2),
    ensures
        n1.size == n2.size,
    decreases depth,
{
    let c = n1.children@.len() as int;
    assert forall|k: int| 0 <= k < c implies n1.children@[k].size == n2.children@[k].size by {
        assert(reads_child(language, text, path, source, depth, k, n1.children@[k]));
        assert(reads_child(language, text, path, source, depth, k, n2.children@[k]));
        lemma_read_size_unique(
            language,
            text,
            path.push(k as usize),
            source,
            ts_field_name(language, text, path, k as usize),
            prev_path(path, k),
            next_path(language, text, path, k),
            prev_named_path(language, text, path, k),
            (depth - 1) as nat,
            n1.children@[k],
            n2.children@[k],
        );
    }
    lemma_sizes_upto_same(n1.children@, n2.children@, c);
}

/// The sum of sizes over a prefix depends on the sizes alone.
proof fn lemma_sizes_upto_same(a: Seq<SyntaxNode>, b: Seq<SyntaxNode>, n: int)
    requires
        0 <= n <= a.len(),
        n <= b.len(),
        forall|i: int| 0 <= i < n ==> #[trigger] a[i].size == b[i].size,
    ensures
        sizes_upto(a, n) == sizes_upto(b, n),
    decreases n,
{
    if n > 0 {
        lemma_sizes_upto_same(a, b, n - 1);
    }
}

/// Builds the formatter's tree from the subtree of `node`, `source` being
/// the text parsed, each node's text being its span of `source`: the node
/// that [`reads_node`] reads, where there is one, and nothing where there is
/// none (a span not within `source` or not valid UTF-8, a tree deeper than
/// `depth`, or a size that does not fit a `usize`).
fn convert_node(
    node: &PathNode,
    source: &[u8],
    field_name: Option<String>,
    prev_sibling: Option<Sibling>,
    next_sibling: Option<Sibling>,
    prev_named_sibling: Option<Sibling>,
    depth: usize,
    Ghost(prev): Ghost<Option<Seq<usize>>>,
    Ghost(next): Ghost<Option<Seq<usize>>>,
    Ghost(prev_named): Ghost<Option<Seq<usize>>>,
) -> (r: Option<SyntaxNode>)
    requires
        tells_of(prev_sibling, node.language@, node.text@, prev),
        tells_of(next_sibling, node.language@, node.text@, next),
        tells_of(prev_named_sibling, node.language@, node.text@, prev_named),
    ensures
        r matches Some(n) ==> {
            &&& reads_node(
                node.language@,
                node.text@,
                node.path@,
                source@,
                opt_view(field_name),
                prev,
                next,
                prev_named,
                depth as nat,
                n,
            )
            &&& n.field_name == field_name
            &&& n.prev_sibling == prev_sibling
            &&& n.next_sibling == next_sibling
            &&& n.prev_named_sibling == prev_named_sibling
        },
        r is None ==> !exists|n: SyntaxNode|
            reads_node(
                node.language@,
                node.text@,
                node.path@,
                source@,
                opt_view(field_name),
                prev,
                next,
                prev_named,
                depth as nat,
                n,
            ),
    decreases depth,
{
    let ghost l = node.language@;
    let ghost t = node.text@;
    let ghost p = node.path@;
    let ghost f = opt_view(field_name);
    if depth == 0 {
        return None;
    }
    let start_byte = node_start_byte(node);
    let end_byte = node_end_byte(node);
    let text = match span_text(source, start_byte, end_byte) {
        Some(x) => x,
        None => {
            return None;
        },
    };
    let count = node_child_count(node);
    let mut kids: Vec<PathNode> = Vec::new();
    let mut kinds: Vec<String> = Vec::new();
    let mut starts: Vec<Point> = Vec::new();
    let mut ends: Vec<Point> = Vec::new();
    let mut named: Vec<bool> = Vec::new();
    let mut i: usize = 0;
    while i < count
        invariant
            i <= count,
            count == ts_child_count(l, t, p),
            node.language@ == l,
            node.text@ == t,
            node.path@ == p,
            kids@.len() == i,
            kinds@.len() == i,
            starts@.len() == i,
            ends@.len() == i,
            named@.len() == i,
            forall|k: int|
                0 <= k < i ==> {
                    &&& (#[trigger] kids@[k]).language@ == l
                    &&& kids@[k].text@ == t
                    &&& kids@[k].path@ == p.push(k as usize)
                    &&& kinds@[k]@ == ts_kind(l, t, p.push(k as usize))
                    &&& starts@[k] == ts_start_position(l, t, p.push(k as usize))
                    &&& ends@[k] == ts_end_position(l, t, p.push(k as usize))
                    &&& named@[k] == ts_is_named(l, t, p.push(k as usize))
                },
        decreases count - i,
    {
        let child = match node_child(node, i) {
            Some(c) => c,
            None => {
                return None;
            },
        };
        kinds.push(node_kind(&child).to_owned());
        starts.push(node_start_position(&child));
        ends.push(node_end_position(&child));
        named.push(node_is_named(&child));
        kids.push(child);
        i += 1;
    }
    let mut children: Vec<SyntaxNode> = Vec::new();
    let mut size: usize = 1;
    let mut last: Option<usize> = None;
    let mut j: usize = 0;
    while j < count
        invariant
            j <= count,
            count == ts_child_count(l, t, p),
            count <= u32::MAX,
            node.language@ == l,
            node.text@ == t,
            node.path@ == p,
            kids@.len() == count,
            kinds@.len() == count,
            starts@.len() == count,
            ends@.len() == count,
            named@.len() == count,
            forall|k: int|
                0 <= k < count ==> {
                    &&& (#[trigger] kids@[k]).language@ == l
                    &&& kids@[k].text@ == t
                    &&& kids@[k].path@ == p.push(k as usize)
                    &&& kinds@[k]@ == ts_kind(l, t, p.push(k as usize))
                    &&& starts@[k] == ts_start_position(l, t, p.push(k as usize))
                    &&& ends@[k] == ts_end_position(l, t, p.push(k as usize))
                    &&& named@[k] == ts_is_named(l, t, p.push(k as usize))
                },
            depth > 0,
            f == opt_view(field_name),
            match last {
                Some(k) => k < j && last_named(l, t, p, j as int) == Some(k as int),
                None => last_named(l, t, p, j as int) is None,
            },
            children@.len() == j,
            size == 1 + sizes_upto(children@, j as int),
            forall|k: int|
                0 <= k < j ==> reads_child(
                    l,
                    t,
                    p,
                    source@,
                    depth as nat,
                    k,
                    #[trigger] children@[k],
                ),
        decreases count - j,
    {
        let ghost pj = p.push(j as usize);
        let prev_s = if j > 0 {
            Some(sibling_of(&kinds[j - 1], starts[j - 1], ends[j - 1]))
        } else {
            None
        };
        let next_s = if j + 1 < count {
            Some(sibling_of(&kinds[j + 1], starts[j + 1], ends[j + 1]))
        } else {
            None
        };
        let prev_named_s = match last {
            Some(k) => Some(sibling_of(&kinds[k], starts[k], ends[k])),
            None => None,
        };
        let field = match node_field_name_for_child(node, j) {
            Some(x) => Some(x.to_owned()),
            None => None,
        };
        let ghost fv = opt_view(field);
        proof {
            assert(fv == ts_field_name(l, t, p, j as usize));
            assert(kids@[j as int].language@ == l);
            assert(kids@[j as int].text@ == t);
            assert(kids@[j as int].path@ == pj);
            if j > 0 {
                assert(kids@[j - 1].path@ == p.push((j - 1) as usize));
            }
            if j + 1 < count {
                assert(kids@[j + 1].path@ == p.push((j + 1) as usize));
            }
            match last {
                Some(k) => {
                    assert(kids@[k as int].path@ == p.push(k));
                },
                None => {},
            }
        }
        let converted = convert_node(
            &kids[j],
            source,
            field,
            prev_s,
            next_s,
            prev_named_s,
            depth - 1,
            Ghost(prev_path(p, j as int)),
            Ghost(next_path(l, t, p, j as int)),
            Ghost(prev_named_path(l, t, p, j as int)),
        );
        let child = match converted {
            Some(c) => c,
            None => {
                proof {
                    assert forall|n: SyntaxNode|
                        !reads_node(
                            node.language@,
                            node.text@,
                            node.path@,
                            source@,
                            opt_view(field_name),
                            prev,
                            next,
                            prev_named,
                            depth as nat,
                            n,
                        ) by {
                        if reads_node(l, t, p, source@, f, prev, next, prev_named, depth as nat, n) {
                            let c = n.children@[j as int];
                            assert(reads_child(l, t, p, source@, depth as nat, j as int, c));
                            assert(reads_node(
                                l,
                                t,
                                pj,
                                source@,
                                fv,
                                prev_path(p, j as int),
                                next_path(l, t, p, j as int),
                                prev_named_path(l, t, p, j as int),
                                (depth - 1) as nat,
                                c,
                            ));
                            assert(false);
                        }
                    }
                }
                return None;
            },
        };
        proof {
            assert(reads_child(l, t, p, source@, depth as nat, j as int, child));
        }
        let new_size = match size.checked_add(child.size) {
            Some(x) => x,
            None => {
                proof {
                    assert forall|n: SyntaxNode|
                        !reads_node(
                            node.language@,
                            node.text@,
                            node.path@,
                            source@,
                            opt_view(field_name),
                            prev,
                            next,
                            prev_named,
                            depth as nat,
                            n,
                        ) by {
                        if reads_node(l, t, p, source@, f, prev, next, prev_named, depth as nat, n) {
                            let ours = children@.push(child);
                            assert forall|k: int| 0 <= k <= j implies #[trigger] n.children@[k].size
                                == ours[k].size by {
                                assert(reads_child(
                                    l,
                                    t,
                                    p,
                                    source@,
                                    depth as nat,
                                    k,
                                    n.children@[k],
                                ));
                                assert(reads_child(l, t, p, source@, depth as nat, k, ours[k]));
                                lemma_read_size_unique(
                                    l,
                                    t,
                                    p.push(k as usize),
                                    source@,
                                    ts_field_name(l, t, p, k as usize),
                                    prev_path(p, k),
                                    next_path(l, t, p, k),
                                    prev_named_path(l, t, p, k),
                                    (depth - 1) as nat,
                                    n.children@[k],
                                    ours[k],
                                );
                            }
                            lemma_sizes_upto_same(n.children@, ours, j + 1);
                            lemma_sizes_upto_prefix(children@, ours, j as int);
                            crate::syntax::lemma_sizes_upto_mono(
                                n.children@,
                                j + 1,
                                n.children@.len() as int,
                            );
                        }
                    }
                }
                return None;
            },
        };
        size = new_size;
        let ghost before = children@;
        children.push(child);
        assert(sizes_upto(children@, j as int) == sizes_upto(before, j as int)) by {
            lemma_sizes_upto_prefix(before, children@, j as int);
        }
        if named[j] {
            last = Some(j);
        }
        j += 1;
    }
    Some(
        SyntaxNode {
            kind: node_kind(node).to_owned(),
            text,
            named: node_is_named(node),
            field_name,
            start_byte,
            end_byte,
            start_position: node_start_position(node),
            end_position: node_end_position(node),
            prev_sibling,
            next_sibling,
            prev_named_sibling,
            has_error: node_has_error(node),
            size,
            children,
        },
    )
}

/// The text of `node` is its span of the UTF-8 encoding of `input`.
pub open spec fn is_span_of(node: SyntaxNode, input: Seq<char>) -> bool {
    let bytes = vstd::utf8::encode_utf8(input);
    &&& node.start_byte <= node.end_byte <= bytes.len()
    &&& node.text@ == vstd::utf8::decode_utf8(
        bytes.subrange(node.start_byte as int, node.end_byte as int),
    )
}

/// What holds of an outcome of parsing `input`, whatever the parser gave:
/// a tree that comes back is a root, with no field name and no siblings,
/// whose size counts its subtree and whose text is its span of `input`.
pub open spec fn parsed_from(
    input: Seq<char>,
    p: Result<Option<SyntaxNode>, tree_sitter::LanguageError>,
) -> bool {
    p matches Ok(Some(n)) ==> {
        &&& n.field_name is None
        &&& n.prev_sibling is None
        &&& n.next_sibling is None
        &&& n.prev_named_sibling is None
        &&& n.size == 1 + sizes_upto(n.children@, n.children@.len() as int)
        &&& is_span_of(n, input)
    }
}

/// `n` is the root of the tree that tree-sitter parses of `input` with
/// `language`, read as [`reads_node`] says, within `usize::MAX` levels.
pub open spec fn root_read(language: tree_sitter::Language, input: Seq<char>, n: SyntaxNode) -> bool {
    reads_node(
        language,
        input,
        Seq::empty(),
        vstd::utf8::encode_utf8(input),
        None,
        None,
        None,
        None,
        usize::MAX as nat,
        n,
    )
}

/// What holds of the outcome of parsing `input` with `language`: an error
/// exactly where the parser does not take the grammar; otherwise the root
/// of tree-sitter's tree of `input`, read as [`root_read`] says, and nothing
/// only where that tree cannot be read so.
pub open spec fn parsed_with(
    language: tree_sitter::Language,
    input: Seq<char>,
    p: Result<Option<SyntaxNode>, tree_sitter::LanguageError>,
) -> bool {
    &&& p is Err <==> !accepts_grammar(language)
    &&& parsed_from(input, p)
    &&& p matches Ok(Some(n)) ==> root_read(language, input, n)
    &&& p matches Ok(None) ==> !exists|n: SyntaxNode| root_read(language, input, n)
}

/// Parses `input` with `language`: an error exactly where the parser does
/// not take the grammar, and otherwise the tree of `input` with `language`.
pub fn parse_tree(input: &str, language: &tree_sitter::Language) -> (r: Result<
    Option<ParsedTree>,
    tree_sitter::LanguageError,
>)
    ensures
        r is Err <==> !accepts_grammar(*language),
        accepts_grammar(*language) ==> (r matches Ok(Some(t)) && t.source() == input@
            && t.grammar() == *language),
{
    let mut parser = parser_new();
    match parser_set_language(&mut parser, language) {
        Ok(()) => {},
        Err(e) => {
            return Err(e);
        },
    }
    Ok(parser_parse(&mut parser, input))
}

/// Parses `input` with `language` and builds the formatter's tree of it: an
/// error exactly where the parser does not take the grammar; otherwise the
/// root of the tree that tree-sitter gives of `input`, read into a
/// [`SyntaxNode`] as [`root_read`] says, or nothing only where that tree
/// cannot be read so (a node's span not within `input` or not valid UTF-8,
/// a tree too deep or too large for a `usize`).
pub fn parse_source(input: &str, language: &tree_sitter::Language) -> (r: Result<
    Option<SyntaxNode>,
    tree_sitter::LanguageError,
>)
    ensures
        parsed_with(*language, input@, r),
{
    let tree = match parse_tree(input, language) {
        Err(e) => {
            return Err(e);
        },
        Ok(None) => {
            return Ok(None);
        },
        Ok(Some(t)) => t,
    };
    let root = tree_root_node(&tree);
    Ok(
        convert_node(
            &root,
            input.as_bytes(),
            None,
            None,
            None,
            None,
            usize::MAX,
            Ghost(None),
            Ghost(None),
            Ghost(None),
        ),
    )
}

} // verus!
