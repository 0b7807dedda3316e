use vstd::prelude::*;

use crate::settings::Settings;
use crate::syntax::{Point, SyntaxNode};
use crate::text::{repeat, str_eq, string_push, str_trim, trim};

pub mod alias;
pub mod assertions;
pub mod enum_structs;
pub mod enums;
pub mod expressions;
pub mod functags;
pub mod functions;
pub mod methodmaps;
pub mod hardcoded_symbols;
pub mod laws;
pub mod preproc;
pub mod source_file;
pub mod statements;
pub mod structs;
pub mod typedefs;
pub mod variables;

verus! {

/// What a [`Writer`] holds, seen as mathematical values: the text written so
/// far, the indentation level, whether statements get a `;` appended, the
/// `skip` counter, and the fixed configuration (one level of indentation,
/// the settings, and the kinds of nodes counted as statements, expressions
/// and literals).
pub struct FmtState {
    pub out: Seq<char>,
    pub indent: int,
    pub semicolon: bool,
    pub skip: u8,
    pub unit: Seq<char>,
    pub settings: Settings,
    pub statement_kinds: Seq<Seq<char>>,
    pub expression_kinds: Seq<Seq<char>>,
    pub literal_kinds: Seq<Seq<char>>,
}

impl FmtState {
    /// `s` appended to the output.
    pub open spec fn put(self, s: Seq<char>) -> FmtState {
        FmtState { out: self.out + s, ..self }
    }

    /// One character appended to the output.
    pub open spec fn put_char(self, c: char) -> FmtState {
        self.put(seq![c])
    }

    /// A line break appended to the output.
    pub open spec fn ln(self) -> FmtState {
        self.put_char('\n')
    }

    /// The current indentation appended to the output.
    pub open spec fn put_indent(self) -> FmtState {
        self.put(repeat(self.unit, self.indent as nat))
    }

    /// `n` line breaks appended to the output.
    pub open spec fn lns(self, n: nat) -> FmtState {
        self.put(repeat(seq!['\n'], n))
    }

    pub open spec fn with_indent(self, indent: int) -> FmtState {
        FmtState { indent, ..self }
    }

    pub open spec fn is_statement(self, kind: Seq<char>) -> bool {
        self.statement_kinds.contains(kind)
    }

    pub open spec fn is_literal(self, kind: Seq<char>) -> bool {
        self.literal_kinds.contains(kind)
    }

    pub open spec fn is_expression(self, kind: Seq<char>) -> bool {
        self.expression_kinds.contains(kind) || self.is_literal(kind)
    }

    pub open spec fn ends_with(self, s: Seq<char>) -> bool {
        crate::text::ends_with(self.out, s)
    }
}

/// `after` begins with `before`: nothing of `before` was changed or taken away.
pub open spec fn extends(before: Seq<char>, after: Seq<char>) -> bool {
    &&& before.len() <= after.len()
    &&& forall|k: int| 0 <= k < before.len() ==> #[trigger] after[k] == before[k]
}

/// The text written before `node` stays as it was, where every `)` in the
/// tree of `node` follows a `(` among its siblings.
pub open spec fn keeps_text(before: FmtState, after: FmtState, node: SyntaxNode) -> bool {
    node.parens_first() ==> extends(before.out, after.out)
}

/// The `skip` counter and the configuration (the unit of indentation, the
/// settings and the kinds of statements, expressions and literals) stay as
/// they were.
pub open spec fn keeps_config(before: FmtState, after: FmtState) -> bool {
    &&& after.skip == before.skip
    &&& after.unit == before.unit
    &&& after.settings == before.settings
    &&& after.statement_kinds == before.statement_kinds
    &&& after.expression_kinds == before.expression_kinds
    &&& after.literal_kinds == before.literal_kinds
}

/// How a writer may change while it writes `node`: the indentation does not
/// drop below where it started, rises by at most the size of the subtree, and
/// comes back where it started when the braces of the subtree match; the `;`
/// mode, the `skip` counter and the configuration stay as they were; and
/// the text written before stays as it was.
pub open spec fn moves_within(before: FmtState, after: FmtState, node: SyntaxNode) -> bool {
    &&& before.indent <= after.indent <= before.indent + node.size
    &&& node.balanced() ==> after.indent == before.indent
    &&& after.semicolon == before.semicolon
    &&& keeps_config(before, after)
    &&& keeps_text(before, after, node)
}

/// How a writer of top-level items may change: as [`moves_within`] says,
/// except that the `;` mode, once on, stays on, and a preprocessor line
/// may turn it on.
pub open spec fn moves_at_top(before: FmtState, after: FmtState, node: SyntaxNode) -> bool {
    &&& before.indent <= after.indent <= before.indent + node.size
    &&& node.balanced() ==> after.indent == before.indent
    &&& before.semicolon ==> after.semicolon
    &&& keeps_config(before, after)
    &&& keeps_text(before, after, node)
}

/// What writing an expression keeps: the indentation, the `;` mode, the
/// `skip` counter and the configuration, and the text written before.
pub open spec fn keeps_mode(before: FmtState, after: FmtState, node: SyntaxNode) -> bool {
    &&& after.indent == before.indent
    &&& after.semicolon == before.semicolon
    &&& keeps_config(before, after)
    &&& keeps_text(before, after, node)
}

/// What writing a preprocessor line keeps: the indentation, the `;` mode
/// once it is on, the `skip` counter and the configuration, and the text
/// written before.
pub open spec fn keeps_indent(before: FmtState, after: FmtState, node: SyntaxNode) -> bool {
    &&& after.indent == before.indent
    &&& before.semicolon ==> after.semicolon
    &&& keeps_config(before, after)
    &&& keeps_text(before, after, node)
}

/// The loop invariant of a writer that walks the children of `node` without
/// handling braces: the indentation stays within what the children written
/// so far may move it by.
pub open spec fn within_children(st0: FmtState, cur: FmtState, node: SyntaxNode, i: int) -> bool {
    &&& 0 <= st0.indent <= cur.indent <= st0.indent + crate::syntax::sizes_upto(node.children@, i)
    &&& node.balanced() ==> cur.indent == st0.indent
    &&& cur.semicolon == st0.semicolon
    &&& keeps_config(st0, cur)
    &&& keeps_text(st0, cur, node)
}

/// The loop invariant of the writer of a source file: as
/// [`within_children`], with the `;` mode that may turn on.
pub open spec fn within_items(st0: FmtState, cur: FmtState, node: SyntaxNode, i: int) -> bool {
    &&& 0 <= st0.indent <= cur.indent <= st0.indent + crate::syntax::sizes_upto(node.children@, i)
    &&& node.balanced() ==> cur.indent == st0.indent
    &&& st0.semicolon ==> cur.semicolon
    &&& keeps_config(st0, cur)
    &&& keeps_text(st0, cur, node)
}

/// The loop invariant of a writer that walks the children of `node` and
/// opens a level of indentation at each `{` and closes one at each `}`.
pub open spec fn tracks_braces(st0: FmtState, cur: FmtState, node: SyntaxNode, i: int) -> bool {
    &&& 0 <= st0.indent
    &&& st0.indent + crate::syntax::brace_balance(node.children@, i) <= cur.indent
    &&& cur.indent <= st0.indent + crate::syntax::sizes_upto(node.children@, i)
    &&& node.balanced() ==> cur.indent == st0.indent + crate::syntax::brace_balance(
        node.children@,
        i,
    )
    &&& cur.semicolon == st0.semicolon
    &&& keeps_config(st0, cur)
    &&& keeps_text(st0, cur, node)
}

/// The state that the formatter threads through the syntax tree while it
/// writes the output.
pub struct Writer<'a> {
    pub output: String,
    pub indent: usize,
    pub indent_string: String,
    pub skip: u8,
    pub semicolon: bool,
    pub settings: &'a Settings,
    pub statement_kinds: Vec<String>,
    pub expression_kinds: Vec<String>,
    pub literal_kinds: Vec<String>,
}

pub open spec fn kinds_view(v: Seq<String>) -> Seq<Seq<char>> {
    v.map_values(|s: String| s@)
}

impl<'a> View for Writer<'a> {
    type V = FmtState;

    open spec fn view(&self) -> FmtState {
        FmtState {
            out: self.output@,
            indent: self.indent as int,
            semicolon: self.semicolon,
            skip: self.skip,
            unit: self.indent_string@,
            settings: *self.settings,
            statement_kinds: kinds_view(self.statement_kinds@),
            expression_kinds: kinds_view(self.expression_kinds@),
            literal_kinds: kinds_view(self.literal_kinds@),
        }
    }
}

/// The kinds of nodes that the formatter writes as statements.
pub open spec fn statement_kind_list() -> Seq<Seq<char>> {
    seq![
        "block"@,
        "variable_declaration_statement"@,
        "old_variable_declaration_statement"@,
        "for_statement"@,
        "while_statement"@,
        "do_while_statement"@,
        "break_statement"@,
        "continue_statement"@,
        "condition_statement"@,
        "switch_statement"@,
        "return_statement"@,
        "delete_statement"@,
        "expression_statement"@,
    ]
}

/// The kinds of nodes that the formatter writes as expressions, literals aside.
pub open spec fn expression_kind_list() -> Seq<Seq<char>> {
    seq![
        "assignment_expression"@,
        "function_call"@,
        "array_indexed_access"@,
        "ternary_expression"@,
        "field_access"@,
        "scope_access"@,
        "binary_expression"@,
        "unary_expression"@,
        "update_expression"@,
        "sizeof_expression"@,
        "new_expression"@,
        "view_as"@,
        "old_type_cast"@,
        "symbol"@,
        "parenthesized_expression"@,
        "this"@,
        "new_instance"@,
    ]
}

/// The kinds of literal nodes.
pub open spec fn literal_kind_list() -> Seq<Seq<char>> {
    seq![
        "int_literal"@,
        "float_literal"@,
        "char_literal"@,
        "string_literal"@,
        "concatenated_string"@,
        "bool_literal"@,
        "array_literal"@,
        "null"@,
    ]
}

/// One level of indentation: `space_size` spaces, or a tab.
pub open spec fn indent_unit(settings: Settings) -> Seq<char> {
    if settings.use_space {
        repeat(" "@, settings.space_size as nat)
    } else {
        "\t"@
    }
}

/// The state of a fresh writer: nothing written, no indentation, no `;` mode.
pub open spec fn initial_state(settings: Settings) -> FmtState {
    FmtState {
        out: Seq::empty(),
        indent: 0,
        semicolon: false,
        skip: 0,
        unit: indent_unit(settings),
        settings,
        statement_kinds: statement_kind_list(),
        expression_kinds: expression_kind_list(),
        literal_kinds: literal_kind_list(),
    }
}

fn push_kind(v: &mut Vec<String>, kind: &str)
    ensures
        kinds_view(final(v)@) == kinds_view(old(v)@).push(kind@),
{
    v.push(kind.to_owned());
    assert(kinds_view(v@) =~= kinds_view(old(v)@).push(kind@));
}

fn statement_kinds() -> (r: Vec<String>)
    ensures
        kinds_view(r@) == statement_kind_list(),
{
    let mut v: Vec<String> = Vec::new();
    assert(kinds_view(v@) =~= Seq::empty());
    push_kind(&mut v, "block");
    push_kind(&mut v, "variable_declaration_statement");
    push_kind(&mut v, "old_variable_declaration_statement");
    push_kind(&mut v, "for_statement");
    push_kind(&mut v, "while_statement");
    push_kind(&mut v, "do_while_statement");
    push_kind(&mut v, "break_statement");
    push_kind(&mut v, "continue_statement");
    push_kind(&mut v, "condition_statement");
    push_kind(&mut v, "switch_statement");
    push_kind(&mut v, "return_statement");
    push_kind(&mut v, "delete_statement");
    push_kind(&mut v, "expression_statement");
    assert(kinds_view(v@) =~= statement_kind_list());
    v
}

fn expression_kinds() -> (r: Vec<String>)
    ensures
        kinds_view(r@) == expression_kind_list(),
{
    let mut v: Vec<String> = Vec::new();
    assert(kinds_view(v@) =~= Seq::empty());
    push_kind(&mut v, "assignment_expression");
    push_kind(&mut v, "function_call");
    push_kind(&mut v, "array_indexed_access");
    push_kind(&mut v, "ternary_expression");
    push_kind(&mut v, "field_access");
    push_kind(&mut v, "scope_access");
    push_kind(&mut v, "binary_expression");
    push_kind(&mut v, "unary_expression");
    push_kind(&mut v, "update_expression");
    push_kind(&mut v, "sizeof_expression");
    push_kind(&mut v, "new_expression");
    push_kind(&mut v, "view_as");
    push_kind(&mut v, "old_type_cast");
    push_kind(&mut v, "symbol");
    push_kind(&mut v, "parenthesized_expression");
    push_kind(&mut v, "this");
    push_kind(&mut v, "new_instance");
    assert(kinds_view(v@) =~= expression_kind_list());
    v
}

fn literal_kinds() -> (r: Vec<String>)
    ensures
        kinds_view(r@) == literal_kind_list(),
{
    let mut v: Vec<String> = Vec::new();
    assert(kinds_view(v@) =~= Seq::empty());
    push_kind(&mut v, "int_literal");
    push_kind(&mut v, "float_literal");
    push_kind(&mut v, "char_literal");
    push_kind(&mut v, "string_literal");
    push_kind(&mut v, "concatenated_string");
    push_kind(&mut v, "bool_literal");
    push_kind(&mut v, "array_literal");
    push_kind(&mut v, "null");
    assert(kinds_view(v@) =~= literal_kind_list());
    v
}

fn kinds_contain(kinds: &Vec<String>, kind: &str) -> (r: bool)
    ensures
        r == kinds_view(kinds@).contains(kind@),
{
    let mut i: usize = 0;
    while i < kinds.len()
        invariant
            i <= kinds@.len(),
            forall|j: int| 0 <= j < i ==> kinds@[j]@ != kind@,
        decreases kinds@.len() - i,
    {
        if str_eq(kinds[i].as_str(), kind) {
            assert(kinds_view(kinds@)[i as int] == kind@);
            return true;
        }
        i += 1;
    }
    assert forall|j: int| 0 <= j < kinds_view(kinds@).len() implies kinds_view(kinds@)[j]
        != kind@ by {
        assert(kinds_view(kinds@)[j] == kinds@[j]@);
    }
    false
}

impl<'a> Writer<'a> {
    /// A fresh writer for the given settings.
    pub fn new(settings: &'a Settings) -> (r: Writer<'a>)
        ensures
            r@ == initial_state(*settings),
    {
        let indent_string = if settings.use_space {
            let mut unit = String::new();
            let mut i: u32 = 0;
            while i < settings.space_size
                invariant
                    i <= settings.space_size,
                    unit@ == repeat(" "@, i as nat),
                decreases settings.space_size - i,
            {
                unit.append(" ");
                i += 1;
            }
            unit
        } else {
            "\t".to_owned()
        };
        Writer {
            output: String::new(),
            indent: 0,
            indent_string,
            skip: 0,
            semicolon: false,
            settings,
            statement_kinds: statement_kinds(),
            expression_kinds: expression_kinds(),
            literal_kinds: literal_kinds(),
        }
    }

    pub fn write_str(&mut self, s: &str)
        ensures
            final(self)@ == old(self)@.put(s@),
    {
        self.output.append(s);
    }

    pub fn write(&mut self, ch: char)
        ensures
            final(self)@ == old(self)@.put_char(ch),
    {
        let ghost before = self@;
        string_push(&mut self.output, ch);
        assert(self@.out =~= before.put_char(ch).out);
    }

    pub fn write_indent(&mut self)
        ensures
            final(self)@ == old(self)@.put_indent(),
    {
        let ghost start = self@;
        let mut i: usize = 0;
        while i < self.indent
            invariant
                i <= self.indent,
                self@ == start.put(repeat(start.unit, i as nat)),
            decreases self.indent - i,
        {
            self.output.append(self.indent_string.as_str());
            i += 1;
            assert(self@.out =~= start.put(repeat(start.unit, i as nat)).out);
        }
    }

    pub fn write_ln(&mut self)
        ensures
            final(self)@ == old(self)@.ln(),
    {
        self.write('\n');
    }

    /// Writes `n` line breaks.
    pub fn write_lns(&mut self, n: usize)
        ensures
            final(self)@ == old(self)@.lns(n as nat),
    {
        let ghost start = self@;
        let mut i: usize = 0;
        while i < n
            invariant
                i <= n,
                self@ == start.lns(i as nat),
            decreases n - i,
        {
            self.write('\n');
            i += 1;
            assert(self@.out =~= start.lns(i as nat).out);
        }
    }

    pub fn is_statement(&self, kind: &str) -> (r: bool)
        ensures
            r == self@.is_statement(kind@),
    {
        kinds_contain(&self.statement_kinds, kind)
    }

    pub fn is_expression(&self, kind: &str) -> (r: bool)
        ensures
            r == self@.is_expression(kind@),
    {
        kinds_contain(&self.expression_kinds, kind) || self.is_literal(kind)
    }

    pub fn is_literal(&self, kind: &str) -> (r: bool)
        ensures
            r == self@.is_literal(kind@),
    {
        kinds_contain(&self.literal_kinds, kind)
    }
}

/// The kind of the node's next sibling, empty where it has none.
pub open spec fn next_kind(node: SyntaxNode) -> Seq<char> {
    match node.next_sibling {
        Some(s) => s.kind@,
        None => Seq::empty(),
    }
}

/// The kind of the node's previous sibling, empty where it has none.
pub open spec fn prev_kind(node: SyntaxNode) -> Seq<char> {
    match node.prev_sibling {
        Some(s) => s.kind@,
        None => Seq::empty(),
    }
}

/// The node's text, as it stands in the source.
pub open spec fn fmt_node(st: FmtState, node: SyntaxNode) -> FmtState {
    st.put(node.text@)
}

/// A comment: after the previous named sibling on its row, one unit of
/// indentation; on a row of its own, the current indentation; then the
/// trimmed text and a line break as [`preproc::fmt_insert_break`] decides.
pub open spec fn fmt_comment(st: FmtState, node: SyntaxNode) -> FmtState {
    let st1 = match node.prev_named_sibling {
        Some(p) => if node.start_position.row == p.end_position.row {
            st.put(st.unit)
        } else {
            st.put_indent()
        },
        None => st,
    };
    preproc::fmt_insert_break(st1.put(trim(node.text@)), node)
}

pub open spec fn fmt_dynamic_array_upto(st: FmtState, node: SyntaxNode, n: int) -> FmtState
    decreases n,
{
    if n <= 0 {
        st
    } else {
        fmt_node(fmt_dynamic_array_upto(st, node, n - 1), node.children@[n - 1])
    }
}

/// `new ` and then the text of each child.
pub open spec fn fmt_dynamic_array(st: FmtState, node: SyntaxNode) -> FmtState {
    fmt_dynamic_array_upto(st.put("new "@), node, node.children@.len() as int)
}

/// `[]`, and a space where asked and no other dimension follows.
pub open spec fn fmt_dimension(st: FmtState, node: SyntaxNode, insert_space: bool) -> FmtState {
    let st1 = st.put("[]"@);
    let nk = next_kind(node);
    if insert_space && nk != "dimension"@ && nk != "fixed_dimension"@ {
        st1.put_char(' ')
    } else {
        st1
    }
}

pub open spec fn fmt_fixed_dimension_upto(st: FmtState, node: SyntaxNode, n: int) -> FmtState
    decreases n,
{
    if n <= 0 || n > node.children@.len() {
        st
    } else {
        let prev = fmt_fixed_dimension_upto(st, node, n - 1);
        let child = node.children@[n - 1];
        if child.kind@ == "["@ || child.kind@ == "]"@ {
            prev
        } else {
            expressions::fmt_expression(prev, child)
        }
    }
}

/// `[size]`, and a space where asked and no other dimension follows.
pub open spec fn fmt_fixed_dimension(st: FmtState, node: SyntaxNode, insert_space: bool) -> FmtState {
    let st1 = fmt_fixed_dimension_upto(st.put_char('['), node, node.children@.len() as int).put_char(
        ']',
    );
    let nk = next_kind(node);
    if insert_space && nk != "dimension"@ && nk != "fixed_dimension"@ {
        st1.put_char(' ')
    } else {
        st1
    }
}

/// The current indentation, where asked.
pub open spec fn indent_if(st: FmtState, do_indent: bool) -> FmtState {
    if do_indent {
        st.put_indent()
    } else {
        st
    }
}

pub fn write_fixed_dimension(node: &SyntaxNode, writer: &mut Writer, insert_space: bool)
    requires
        node.wf(),
    ensures
        final(writer)@ == fmt_fixed_dimension(old(writer)@, *node, insert_space),
        keeps_mode(old(writer)@, final(writer)@, *node),
{
    let next_kind = next_sibling_kind(node);
    writer.write('[');
    let ghost st1 = writer@;
    let mut i: usize = 0;
    while i < node.children.len()
        invariant
            i <= node.children@.len(),
            node.wf(),
            writer@ == fmt_fixed_dimension_upto(st1, *node, i as int),
            keeps_mode(st1, writer@, *node),
        decreases node.children@.len() - i,
    {
        let child = &node.children[i];
        if !(str_eq(child.kind.as_str(), "[") || str_eq(child.kind.as_str(), "]")) {
            expressions::write_expression(child, writer);
        }
        i += 1;
    }
    writer.write(']');
    if insert_space && !str_eq(next_kind.as_str(), "dimension") && !str_eq(
        next_kind.as_str(),
        "fixed_dimension",
    ) {
        writer.write(' ');
    }
}

pub fn write_comment(node: &SyntaxNode, writer: &mut Writer)
    requires
        node.wf(),
    ensures
        final(writer)@ == fmt_comment(old(writer)@, *node),
        keeps_mode(old(writer)@, final(writer)@, *node),
{
    match &node.prev_named_sibling {
        Some(prev_node) => {
            if node.start_position.row == prev_node.end_position.row {
                // The previous node is on the same line: one unit of indentation.
                let indent = writer.indent_string.clone();
                writer.write_str(indent.as_str());
            } else {
                // The comment is on a line of its own: indent it.
                writer.write_indent();
            }
        },
        None => {},
    }
    writer.write_str(str_trim(node.text.as_str()));
    preproc::insert_break(node, writer);
}

pub fn write_dynamic_array(node: &SyntaxNode, writer: &mut Writer)
    ensures
        final(writer)@ == fmt_dynamic_array(old(writer)@, *node),
        keeps_mode(old(writer)@, final(writer)@, *node),
{
    writer.write_str("new ");
    let ghost st1 = writer@;
    let mut i: usize = 0;
    while i < node.children.len()
        invariant
            i <= node.children@.len(),
            writer@ == fmt_dynamic_array_upto(st1, *node, i as int),
            keeps_mode(st1, writer@, *node),
        decreases node.children@.len() - i,
    {
        write_node(&node.children[i], writer);
        i += 1;
    }
}

pub fn write_dimension(node: &SyntaxNode, writer: &mut Writer, insert_space: bool)
    ensures
        final(writer)@ == fmt_dimension(old(writer)@, *node, insert_space),
        keeps_mode(old(writer)@, final(writer)@, *node),
{
    let next_kind = next_sibling_kind(node);
    writer.write_str("[]");
    if insert_space && !str_eq(next_kind.as_str(), "dimension") && !str_eq(
        next_kind.as_str(),
        "fixed_dimension",
    ) {
        writer.write(' ');
    }
}

pub fn write_node(node: &SyntaxNode, writer: &mut Writer)
    ensures
        final(writer)@ == fmt_node(old(writer)@, *node),
        keeps_mode(old(writer)@, final(writer)@, *node),
{
    writer.write_str(node.text.as_str());
}

pub fn next_sibling_kind(node: &SyntaxNode) -> (r: String)
    ensures
        r@ == next_kind(*node),
{
    match &node.next_sibling {
        Some(s) => s.kind.clone(),
        None => String::new(),
    }
}

pub fn prev_sibling_kind(node: &SyntaxNode) -> (r: String)
    ensures
        r@ == prev_kind(*node),
{
    match &node.prev_sibling {
        Some(s) => s.kind.clone(),
        None => String::new(),
    }
}

pub fn next_sibling_start(node: &SyntaxNode) -> (r: Option<Point>)
    ensures
        r == (match node.next_sibling {
            Some(s) => Some(s.start_position),
            None => None,
        }),
{
    match &node.next_sibling {
        Some(s) => Some(s.start_position),
        None => None,
    }
}

pub fn prev_sibling_end(node: &SyntaxNode) -> (r: Option<Point>)
    ensures
        r == (match node.prev_sibling {
            Some(s) => Some(s.end_position),
            None => None,
        }),
{
    match &node.prev_sibling {
        Some(s) => Some(s.end_position),
        None => None,
    }
}

/// Returns the length of a node, in bytes.
pub fn node_len(node: &SyntaxNode) -> (r: usize)
    requires
        node.start_byte <= node.end_byte,
    ensures
        r == node.end_byte - node.start_byte,
{
    node.end_byte - node.start_byte
}

} // verus!
