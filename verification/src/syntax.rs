use vstd::prelude::*;

use crate::text::str_eq;

verus! {

broadcast use vstd::std_specs::vec::group_vec_axioms;

/// A position in the source text: zero-based row and column.
#[derive(Clone, Copy, Debug, PartialEq, Eq)]
pub struct Point {
    pub row: usize,
    pub column: usize,
}

/// `a` comes at or before `b`, rows first, then columns.
pub open spec fn point_le(a: Point, b: Point) -> bool {
    a.row < b.row || (a.row == b.row && a.column <= b.column)
}

/// Compares two points, rows first, then columns.
pub fn point_is_le(a: Point, b: Point) -> (r: bool)
    ensures
        r == point_le(a, b),
{
    a.row < b.row || (a.row == b.row && a.column <= b.column)
}

/// What a node knows of one of its neighbours in its parent's list of children.
pub struct Sibling {
    pub kind: String,
    pub start_position: Point,
    pub end_position: Point,
}

/// A node of a SourcePawn syntax tree, as the formatter reads it.
///
/// Besides its own kind, text and position, a node carries what it knows of
/// its neighbours: the child just before it, the child just after it, and the
/// closest named child before it, in the children of its parent.
pub struct SyntaxNode {
    /// The grammar's name of this node, such as `"block"` or `"{"`.
    pub kind: String,
    /// The source text that this node spans.
    pub text: String,
    /// Named nodes stand for grammar rules, anonymous ones for tokens.
    pub named: bool,
    /// The field name under which the parent holds this node, if any.
    pub field_name: Option<String>,
    pub start_byte: usize,
    pub end_byte: usize,
    pub start_position: Point,
    pub end_position: Point,
    pub prev_sibling: Option<Sibling>,
    pub next_sibling: Option<Sibling>,
    pub prev_named_sibling: Option<Sibling>,
    /// The node is, or holds somewhere below it, a syntax error.
    pub has_error: bool,
    /// The number of nodes in the subtree rooted here, this one included.
    pub size: usize,
    pub children: Vec<SyntaxNode>,
}

/// The sum of the sizes of the first `n` nodes of `s`.
pub open spec fn sizes_upto(s: Seq<SyntaxNode>, n: int) -> int
    decreases n,
{
    if n <= 0 {
        0
    } else {
        sizes_upto(s, n - 1) + s[n - 1].size
    }
}

/// How a node of this kind moves the indentation of a writer that handles braces.
pub open spec fn brace_delta(kind: Seq<char>) -> int {
    if kind == "{"@ {
        1
    } else if kind == "}"@ {
        -1
    } else {
        0
    }
}

/// Opening braces minus closing braces among the first `n` nodes of `s`.
pub open spec fn brace_balance(s: Seq<SyntaxNode>, n: int) -> int
    decreases n,
{
    if n <= 0 {
        0
    } else {
        brace_balance(s, n - 1) + brace_delta(s[n - 1].kind@)
    }
}

/// Whether one of the first `n` nodes of `s` is a `(`.
pub open spec fn opened_upto(s: Seq<SyntaxNode>, n: int) -> bool
    decreases n,
{
    if n <= 0 {
        false
    } else {
        opened_upto(s, n - 1) || s[n - 1].kind@ == "("@
    }
}

/// The index of the first child that the node holds under field `name`, if any.
pub open spec fn field_index_from(s: Seq<SyntaxNode>, name: Seq<char>, i: int) -> Option<int>
    decreases s.len() - i,
{
    if i < 0 || i >= s.len() {
        None
    } else if s[i].field_name matches Some(f) && f@ == name {
        Some(i)
    } else {
        field_index_from(s, name, i + 1)
    }
}

pub proof fn lemma_sizes_upto_mono(s: Seq<SyntaxNode>, a: int, b: int)
    requires
        0 <= a <= b <= s.len(),
    ensures
        0 <= sizes_upto(s, a) <= sizes_upto(s, b),
    decreases b,
{
    if b > a {
        lemma_sizes_upto_mono(s, a, b - 1);
    } else if a > 0 {
        lemma_sizes_upto_mono(s, a - 1, a - 1);
    }
}

/// The sum over the first `n` nodes depends on those nodes alone.
pub proof fn lemma_sizes_upto_prefix(a: Seq<SyntaxNode>, b: Seq<SyntaxNode>, n: int)
    requires
        0 <= n <= a.len(),
        n <= b.len(),
        forall|i: int| 0 <= i < n ==> #[trigger] a[i] == b[i],
    ensures
        sizes_upto(a, n) == sizes_upto(b, n),
    decreases n,
{
    if n > 0 {
        lemma_sizes_upto_prefix(a, b, n - 1);
    }
}

/// What a well-formed node tells of its `i`-th child.
pub proof fn lemma_child(node: SyntaxNode, i: int)
    requires
        node.wf(),
        0 <= i < node.children@.len(),
    ensures
        node.children@[i].wf(),
        node.children@[i].size >= 1,
        node.balanced() ==> node.children@[i].balanced(),
        0 <= sizes_upto(node.children@, i),
        sizes_upto(node.children@, i + 1) + 1 <= node.size,
        brace_balance(node.children@, i + 1) >= 0,
        brace_balance(node.children@, i + 1) == brace_balance(node.children@, i) + brace_delta(
            node.children@[i].kind@,
        ),
        sizes_upto(node.children@, i + 1) == sizes_upto(node.children@, i)
            + node.children@[i].size,
{
    let c = node.children@[i];
    assert(c.wf());
    lemma_sizes_upto_mono(c.children@, 0, c.children@.len() as int);
    lemma_sizes_upto_mono(node.children@, i, i + 1);
    lemma_sizes_upto_mono(node.children@, i + 1, node.children@.len() as int);
    assert(brace_balance(node.children@, i + 1) >= 0);
}

impl SyntaxNode {
    pub open spec fn field_index(self, name: Seq<char>) -> Option<int> {
        field_index_from(self.children@, name, 0)
    }

    pub open spec fn has_field(self, name: Seq<char>) -> bool {
        self.field_index(name) is Some
    }

    /// The first child held under field `name`; meaningful where `has_field(name)`.
    pub open spec fn field(self, name: Seq<char>) -> SyntaxNode {
        self.children@[self.field_index(name)->0]
    }

    /// The fields that the formatter takes for granted on nodes of some kinds.
    /// The keyword that opens a `view_as` cast is a token of the same kind as
    /// the cast, so only the named node of that kind is asked for fields.
    pub open spec fn fields_present(self) -> bool {
        let k = self.kind@;
        &&& (k == "binary_expression"@ || k == "assignment_expression"@) ==> self.has_field(
            "left"@,
        ) && self.has_field("operator"@) && self.has_field("right"@)
        &&& (k == "comma_expression"@ || k == "concatenated_string"@) ==> self.has_field("left"@)
            && self.has_field("right"@)
        &&& (k == "old_type_cast"@ || (k == "view_as"@ && self.named)) ==> self.has_field(
            "type"@,
        ) && self.has_field("value"@)
        &&& k == "array_indexed_access"@ ==> self.has_field("array"@) && self.has_field("index"@)
        &&& k == "field_access"@ ==> self.has_field("target"@) && self.has_field("field"@)
        &&& k == "new_instance"@ ==> self.has_field("class"@) && self.has_field("arguments"@)
        &&& k == "function_call"@ ==> self.has_field("function"@) && self.has_field(
            "arguments"@,
        )
        &&& (k == "unary_expression"@ || k == "update_expression"@) ==> self.has_field(
            "operator"@,
        ) && self.has_field("argument"@)
        &&& k == "parenthesized_expression"@ ==> self.has_field("expression"@)
        &&& k == "ternary_expression"@ ==> self.has_field("condition"@) && self.has_field(
            "consequence"@,
        ) && self.has_field("alternative"@)
        &&& k == "scope_access"@ ==> self.has_field("scope"@) && self.has_field("field"@)
        &&& k == "named_arg"@ ==> self.has_field("name"@) && self.has_field("value"@)
    }

    /// What the formatter needs of one node, its children aside: a size that
    /// counts its subtree, braces among its children that never close more
    /// than they opened, a next sibling that does not start on an earlier
    /// row, and the fields that its kind takes for granted.
    pub open spec fn node_wf(self) -> bool {
        &&& self.size == 1 + sizes_upto(self.children@, self.children@.len() as int)
        &&& forall|n: int|
            0 <= n <= self.children@.len() ==> #[trigger] brace_balance(self.children@, n) >= 0
        &&& self.next_sibling matches Some(s) ==> s.start_position.row >= self.end_position.row
        &&& self.fields_present()
    }

    /// Every node of the tree rooted here is well formed.
    pub open spec fn wf(self) -> bool
        decreases self,
    {
        &&& self.node_wf()
        &&& forall|i: int|
            0 <= i < self.children@.len() ==> (#[trigger] self.children@[i]).wf()
    }

    /// In every node of the tree rooted here, a `)` among the children comes
    /// after a `(`.
    pub open spec fn parens_first(self) -> bool
        decreases self,
    {
        &&& forall|i: int|
            0 <= i < self.children@.len() && (#[trigger] self.children@[i]).kind@ == ")"@
                ==> opened_upto(self.children@, i)
        &&& forall|i: int|
            0 <= i < self.children@.len() ==> (#[trigger] self.children@[i]).parens_first()
    }

    /// In every node of the tree rooted here, the braces among its children match.
    pub open spec fn balanced(self) -> bool
        decreases self,
    {
        &&& brace_balance(self.children@, self.children@.len() as int) == 0
        &&& forall|i: int|
            0 <= i < self.children@.len() ==> (#[trigger] self.children@[i]).balanced()
    }
}

impl SyntaxNode {
    /// Whether some child is held under field `name`.
    pub fn field_present(&self, name: &str) -> (r: bool)
        ensures
            r == self.has_field(name@),
    {
        let ghost s = self.children@;
        let mut i: usize = 0;
        while i < self.children.len()
            invariant
                i <= s.len(),
                s == self.children@,
                field_index_from(s, name@, 0) == field_index_from(s, name@, i as int),
            decreases s.len() - i,
        {
            let found = match &self.children[i].field_name {
                Some(f) => str_eq(f.as_str(), name),
                None => false,
            };
            if found {
                return true;
            }
            i += 1;
        }
        false
    }

    /// Whether the fields that this node's kind takes for granted are there.
    pub fn check_fields(&self) -> (r: bool)
        ensures
            r == self.fields_present(),
    {
        let k = self.kind.as_str();
        let binary = str_eq(k, "binary_expression") || str_eq(k, "assignment_expression");
        let pair = str_eq(k, "comma_expression") || str_eq(k, "concatenated_string");
        let typed = str_eq(k, "old_type_cast") || (str_eq(k, "view_as") && self.named);
        let operation = str_eq(k, "unary_expression") || str_eq(k, "update_expression");
        (!binary || (self.field_present("left") && self.field_present("operator")
            && self.field_present("right"))) && (!pair || (self.field_present("left")
            && self.field_present("right"))) && (!typed || (self.field_present("type")
            && self.field_present("value"))) && (!str_eq(k, "array_indexed_access") || (
        self.field_present("array") && self.field_present("index"))) && (!str_eq(
            k,
            "field_access",
        ) || (self.field_present("target") && self.field_present("field"))) && (!str_eq(
            k,
            "new_instance",
        ) || (self.field_present("class") && self.field_present("arguments"))) && (!str_eq(
            k,
            "function_call",
        ) || (self.field_present("function") && self.field_present("arguments"))) && (!operation
            || (self.field_present("operator") && self.field_present("argument"))) && (!str_eq(
            k,
            "parenthesized_expression",
        ) || self.field_present("expression")) && (!str_eq(k, "ternary_expression") || (
        self.field_present("condition") && self.field_present("consequence")
            && self.field_present("alternative"))) && (!str_eq(k, "scope_access") || (
        self.field_present("scope") && self.field_present("field"))) && (!str_eq(k, "named_arg")
            || (self.field_present("name") && self.field_present("value")))
    }

    /// Whether this node, its children aside, is well formed.
    pub fn check_node(&self) -> (r: bool)
        ensures
            r == self.node_wf(),
    {
        proof {
            reveal_strlit("{");
            reveal_strlit("}");
            assert("}"@[0] != "{"@[0]);
        }
        let ghost s = self.children@;
        let mut total: usize = 1;
        let mut open: usize = 0;
        let mut i: usize = 0;
        while i < self.children.len()
            invariant
                i <= s.len(),
                s == self.children@,
                total == 1 + sizes_upto(s, i as int),
                open == brace_balance(s, i as int),
                open <= i,
                forall|n: int| 0 <= n <= i ==> #[trigger] brace_balance(s, n) >= 0,
            decreases s.len() - i,
        {
            let child = &self.children[i];
            let ghost c = s[i as int];
            match total.checked_add(child.size) {
                Some(t) => {
                    total = t;
                },
                None => {
                    proof {
                        lemma_sizes_upto_mono(s, i + 1, s.len() as int);
                    }
                    return false;
                },
            }
            if str_eq(child.kind.as_str(), "{") {
                open = open + 1;
            } else if str_eq(child.kind.as_str(), "}") {
                if open == 0 {
                    assert(brace_balance(s, i + 1) < 0);
                    return false;
                }
                open = open - 1;
            }
            i += 1;
            assert forall|n: int| 0 <= n <= i implies #[trigger] brace_balance(s, n) >= 0 by {
                if n == i {
                } else {
                }
            }
        }
        if total != self.size {
            return false;
        }
        let rows_ok = match &self.next_sibling {
            Some(next) => next.start_position.row >= self.end_position.row,
            None => true,
        };
        rows_ok && self.check_fields()
    }

    /// Whether every node of the tree rooted here is well formed.
    pub fn check_wf(&self) -> (r: bool)
        ensures
            r == self.wf(),
        decreases self,
    {
        if !self.check_node() {
            return false;
        }
        let ghost s = self.children@;
        let mut i: usize = 0;
        while i < self.children.len()
            invariant
                i <= s.len(),
                s == self.children@,
                forall|j: int| 0 <= j < i ==> (#[trigger] s[j]).wf(),
            decreases s.len() - i,
        {
            if !self.children[i].check_wf() {
                return false;
            }
            i += 1;
        }
        true
    }
}

} // verus!
