use vstd::prelude::*;

use crate::syntax::{field_index_from, SyntaxNode};
use crate::text::trim;
use super::expressions::fmt_expression;
use super::enums::{fmt_enum_entries, fmt_enum_entries_upto, fmt_enum_entry, fmt_enum_entry_upto};
use super::methodmaps::{fmt_methodmap_property_setter, fmt_methodmap_property_setter_upto};
use super::source_file::fmt_top_level_item;
use super::statements::{fmt_switch_case_values, fmt_switch_case_values_upto};
use super::{extends, next_kind, FmtState};

verus! {

/// The index of a field, where there is one, is that of a child.
proof fn lemma_field_index_in_range(s: Seq<SyntaxNode>, name: Seq<char>, i: int)
    requires
        field_index_from(s, name, i) is Some,
    ensures
        0 <= field_index_from(s, name, i)->0 < s.len(),
    decreases s.len() - i,
{
    if i >= 0 && i < s.len() && !(s[i].field_name matches Some(f) && f@ == name) {
        lemma_field_index_in_range(s, name, i + 1);
    }
}

/// A unary expression is written as its operator followed by its
/// argument: what is written of it is what is written of the argument once
/// the operator's text has been written; so, for an argument that is a name,
/// the operator's text and then the name.
pub proof fn law_unary_operator_then_argument(st: FmtState, node: SyntaxNode)
    requires
        node.wf(),
        node.kind@ == "unary_expression"@,
    ensures
        fmt_expression(st, node) == fmt_expression(
            st.put(node.field("operator"@).text@),
            node.field("argument"@),
        ),
        node.field("argument"@).kind@ == "symbol"@ ==> fmt_expression(st, node).out == st.out
            + node.field("operator"@).text@ + node.field("argument"@).text@,
{
    reveal_strlit("unary_expression");
    reveal_strlit("binary_expression");
    reveal_strlit("symbol");
    reveal_strlit("null");
    reveal_strlit("this");
    reveal_strlit("int_literal ");
    reveal_strlit("bool_literal");
    reveal_strlit("char_literal");
    reveal_strlit("float_literal");
    reveal_strlit("string_literal");
    lemma_field_index_in_range(node.children@, "argument"@, 0);
    lemma_field_index_in_range(node.children@, "operator"@, 0);
    let arg = node.field("argument"@);
    let op = node.field("operator"@);
    assert(node.kind@.len() == 16);
    assert("symbol"@.len() == 6);
    assert("null"@.len() == 4);
    assert("this"@.len() == 4);
    assert("int_literal "@.len() == 12);
    assert("bool_literal"@.len() == 12);
    assert(node.kind@ != "symbol"@ && node.kind@ != "null"@ && node.kind@ != "this"@);
    assert(node.kind@ != "int_literal "@ && node.kind@ != "bool_literal"@);
    assert(node.kind@ != "char_literal"@ && node.kind@ != "float_literal"@);
    assert(node.kind@ != "string_literal"@ && node.kind@ != "binary_expression"@);
    assert(fmt_expression(st, node) == super::expressions::fmt_unary_expression(st, node));
    assert(super::expressions::fmt_node_field(st, node, "operator"@) == st.put(op.text@));
    if arg.kind@ == "symbol"@ {
        assert(fmt_expression(st.put(node.field("operator"@).text@), arg).out =~= st.out
            + node.field("operator"@).text@ + arg.text@);
    }
}

/// A top-level `#else`, `#endif` or `#endinput` is written as its text,
/// followed by no, one or two line breaks: the directive is never lost.
pub proof fn law_preproc_directive_kept(st: FmtState, node: SyntaxNode)
    requires
        node.kind@ == "preproc_else"@ || node.kind@ == "preproc_endif"@ || node.kind@
            == "preproc_endinput"@,
    ensures
        ({
            let out = fmt_top_level_item(st, node).out;
            ||| out == st.out + node.text@
            ||| out == st.out + node.text@ + seq!['\n']
            ||| out == st.out + node.text@ + seq!['\n', '\n']
        }),
{
    reveal_strlit("preproc_else");
    reveal_strlit("preproc_endif");
    reveal_strlit("preproc_endinput");
    reveal_strlit("comment");
    reveal_strlit("preproc_include");
    reveal_strlit("preproc_tryinclude");
    reveal_strlit("preproc_define");
    reveal_strlit("preproc_macro");
    reveal_strlit("preproc_undefine");
    reveal_strlit("preproc_if");
    reveal_strlit("preproc_elseif");
    reveal_strlit("preproc_error");
    reveal_strlit("preproc_warning");
    reveal_strlit("preproc_pragma");
    reveal_strlit("preproc_assert");
    assert("preproc_else"@.len() == 12);
    assert("preproc_endif"@.len() == 13);
    assert("preproc_endinput"@.len() == 16);
    assert("comment"@.len() == 7);
    assert("preproc_include"@.len() == 15);
    assert("preproc_tryinclude"@.len() == 18);
    assert("preproc_define"@.len() == 14);
    assert("preproc_macro"@.len() == 13);
    assert("preproc_undefine"@.len() == 16);
    assert("preproc_if"@.len() == 10);
    assert("preproc_elseif"@.len() == 14);
    assert("preproc_error"@.len() == 13);
    assert("preproc_warning"@.len() == 15);
    assert("preproc_pragma"@.len() == 14);
    assert("preproc_assert"@.len() == 14);
    let k = node.kind@;
    assert(k != "preproc_macro"@) by {
        if k == "preproc_macro"@ {
            assert(k[8] == "preproc_macro"@[8]);
        }
    }
    assert(k != "preproc_error"@) by {
        if k == "preproc_error"@ {
            assert(k[9] == "preproc_error"@[9]);
        }
    }
    assert(k != "preproc_undefine"@) by {
        if k == "preproc_undefine"@ {
            assert(k[8] == "preproc_undefine"@[8]);
        }
    }
    let out = fmt_top_level_item(st, node).out;
    assert(fmt_top_level_item(st, node) == super::preproc::fmt_preproc_symbol(st, node));
    assert(out == st.out + node.text@ || out =~= st.out + node.text@ + seq!['\n'] || out
        =~= st.out + node.text@ + seq!['\n', '\n']);
}

/// A value that a `case` may hold: a name or a literal.
pub open spec fn is_case_value(c: SyntaxNode) -> bool {
    let k = c.kind@;
    k == "identifier"@ || k == "symbol"@ || k == "int_literal"@ || k == "char_literal"@ || k
        == "string_literal"@
}

/// The text of the first `n` of `cs`, where each `,` stands for `, ` and
/// each value for its own text.
pub open spec fn separated_text(cs: Seq<SyntaxNode>, n: int) -> Seq<char>
    decreases n,
{
    if n <= 0 {
        Seq::empty()
    } else {
        separated_text(cs, n - 1) + if cs[n - 1].kind@ == ","@ {
            ", "@
        } else {
            cs[n - 1].text@
        }
    }
}

proof fn lemma_case_values_upto(st: FmtState, node: SyntaxNode, n: int)
    requires
        0 <= n <= node.children@.len(),
        forall|i: int|
            0 <= i < node.children@.len() ==> (#[trigger] node.children@[i]).kind@ == ","@
                || is_case_value(node.children@[i]),
    ensures
        fmt_switch_case_values_upto(st, node, n).out == st.out + separated_text(
            node.children@,
            n,
        ),
    decreases n,
{
    reveal_strlit(",");
    reveal_strlit(", ");
    reveal_strlit("comment");
    reveal_strlit("identifier");
    reveal_strlit("symbol");
    reveal_strlit("int_literal");
    reveal_strlit("char_literal");
    reveal_strlit("string_literal");
    reveal_strlit("null");
    reveal_strlit("this");
    reveal_strlit("int_literal ");
    reveal_strlit("bool_literal");
    reveal_strlit("float_literal");
    if n > 0 {
        lemma_case_values_upto(st, node, n - 1);
        let c = node.children@[n - 1];
        let k = c.kind@;
        assert(","@.len() == 1);
        assert("comment"@.len() == 7);
        assert("identifier"@.len() == 10);
        assert("symbol"@.len() == 6);
        assert("int_literal"@.len() == 11);
        assert("char_literal"@.len() == 12);
        assert("string_literal"@.len() == 14);
        assert("null"@.len() == 4);
        assert("this"@.len() == 4);
        assert("int_literal "@.len() == 12);
        assert("bool_literal"@.len() == 12);
        assert("float_literal"@.len() == 13);
        if k == "int_literal"@ {
            lemma_int_literal_is_kept(fmt_switch_case_values_upto(st, node, n - 1), c);
        }
        if k == "char_literal"@ {
            assert(k != "bool_literal"@) by {
                if k == "bool_literal"@ {
                    assert(k[0] == "bool_literal"@[0]);
                }
            }
        }
        assert(fmt_switch_case_values_upto(st, node, n).out =~= st.out + separated_text(
            node.children@,
            n,
        ));
    }
}

/// An `int_literal` is written as its text.
proof fn lemma_int_literal_is_kept(st: FmtState, node: SyntaxNode)
    requires
        node.kind@ == "int_literal"@,
    ensures
        fmt_expression(st, node) == st.put(node.text@),
{
    reveal_strlit("int_literal");
    let kinds = seq![
        "symbol"@, "null"@, "this"@, "int_literal "@, "bool_literal"@, "char_literal"@,
        "float_literal"@, "string_literal"@, "binary_expression"@, "unary_expression"@,
        "update_expression"@, "parenthesized_expression"@, "comma_expression"@,
        "scope_access"@, "view_as"@, "old_type_cast"@, "ternary_expression"@,
        "concatenated_string"@, "array_indexed_access"@, "field_access"@, "new_instance"@,
        "function_call"@, "assignment_expression"@, "array_literal"@, "sizeof_expression"@,
    ];
    reveal_strlit("symbol");
    reveal_strlit("null");
    reveal_strlit("this");
    reveal_strlit("int_literal ");
    reveal_strlit("bool_literal");
    reveal_strlit("char_literal");
    reveal_strlit("float_literal");
    reveal_strlit("string_literal");
    reveal_strlit("binary_expression");
    reveal_strlit("unary_expression");
    reveal_strlit("update_expression");
    reveal_strlit("parenthesized_expression");
    reveal_strlit("comma_expression");
    reveal_strlit("scope_access");
    reveal_strlit("view_as");
    reveal_strlit("old_type_cast");
    reveal_strlit("ternary_expression");
    reveal_strlit("concatenated_string");
    reveal_strlit("array_indexed_access");
    reveal_strlit("field_access");
    reveal_strlit("new_instance");
    reveal_strlit("function_call");
    reveal_strlit("assignment_expression");
    reveal_strlit("array_literal");
    reveal_strlit("sizeof_expression");
    assert("int_literal"@.len() == 11);
    assert("symbol"@.len() == 6);
    assert("null"@.len() == 4);
    assert("this"@.len() == 4);
    assert("int_literal "@.len() == 12);
    assert("bool_literal"@.len() == 12);
    assert("char_literal"@.len() == 12);
    assert("float_literal"@.len() == 13);
    assert("string_literal"@.len() == 14);
    assert("binary_expression"@.len() == 17);
    assert("unary_expression"@.len() == 16);
    assert("update_expression"@.len() == 17);
    assert("parenthesized_expression"@.len() == 24);
    assert("comma_expression"@.len() == 16);
    assert("scope_access"@.len() == 12);
    assert("view_as"@.len() == 7);
    assert("old_type_cast"@.len() == 13);
    assert("ternary_expression"@.len() == 18);
    assert("concatenated_string"@.len() == 19);
    assert("array_indexed_access"@.len() == 20);
    assert("field_access"@.len() == 12);
    assert("new_instance"@.len() == 12);
    assert("function_call"@.len() == 13);
    assert("assignment_expression"@.len() == 21);
    assert("array_literal"@.len() == 13);
    assert("sizeof_expression"@.len() == 17);
}

/// The values of a `case` keep their separators: each `,` between them is
/// written as `, ` and each value as its text, in their order; so a case
/// with `n` values gets `n - 1` separators and no two values run together.
pub proof fn law_case_values_separated(st: FmtState, node: SyntaxNode)
    requires
        forall|i: int|
            0 <= i < node.children@.len() ==> (#[trigger] node.children@[i]).kind@ == ","@
                || is_case_value(node.children@[i]),
    ensures
        fmt_switch_case_values(st, node).out == st.out + separated_text(
            node.children@,
            node.children@.len() as int,
        ),
{
    lemma_case_values_upto(st, node, node.children@.len() as int);
}

/// The text of `t` is found in `out` from position `p` on.
pub open spec fn found_at(out: Seq<char>, t: Seq<char>, p: int) -> bool {
    0 <= p && p + t.len() <= out.len() && out.subrange(p, p + t.len()) == t
}

proof fn lemma_setter_extends(st: FmtState, node: SyntaxNode, m: int, n: int)
    requires
        0 <= m <= n <= node.children@.len(),
    ensures
        extends(
            fmt_methodmap_property_setter_upto(st, node, m).out,
            fmt_methodmap_property_setter_upto(st, node, n).out,
        ),
    decreases n - m,
{
    if m < n {
        lemma_setter_extends(st, node, m, n - 1);
    }
}

/// Every type in the setter of a methodmap property is written: its text
/// is found in the output after what was written before, so the
/// parameter's type is never lost.
pub proof fn law_setter_keeps_types(st: FmtState, node: SyntaxNode, i: int)
    requires
        0 <= i < node.children@.len(),
        node.children@[i].kind@ == "type"@,
    ensures
        exists|p: int|
            st.out.len() <= p && #[trigger] found_at(
                fmt_methodmap_property_setter(st, node).out,
                node.children@[i].text@,
                p,
            ),
{
    reveal_strlit("type");
    reveal_strlit("set");
    reveal_strlit("symbol");
    reveal_strlit("(");
    reveal_strlit(")");
    assert("type"@.len() == 4);
    assert("set"@.len() == 3);
    assert("symbol"@.len() == 6);
    assert("("@.len() == 1);
    assert(")"@.len() == 1);
    let t = node.children@[i].text@;
    let before = fmt_methodmap_property_setter_upto(st, node, i);
    let after = fmt_methodmap_property_setter_upto(st, node, i + 1);
    lemma_setter_extends(st, node, 0, i);
    lemma_setter_extends(st, node, i + 1, node.children@.len() as int);
    let p = before.out.len() as int;
    assert(after.out.subrange(p, p + t.len()) =~= t);
    let out = fmt_methodmap_property_setter(st, node).out;
    assert(out.subrange(p, p + t.len()) =~= t);
    assert(found_at(out, t, p));
}

/// A setter `set(Type name)` is written as `set`, the parenthesis, the
/// type with a space after it, the name and the closing parenthesis.
pub proof fn law_setter_shape(st: FmtState, node: SyntaxNode)
    requires
        node.children@.len() == 5,
        node.children@[0].kind@ == "set"@,
        node.children@[1].kind@ == "("@,
        node.children@[2].kind@ == "type"@,
        node.children@[3].kind@ == "symbol"@,
        node.children@[4].kind@ == ")"@,
        next_kind(node.children@[2]) == "symbol"@,
    ensures
        fmt_methodmap_property_setter(st, node).out == st.out + "set"@ + node.children@[1].text@
            + node.children@[2].text@ + " "@ + node.children@[3].text@
            + node.children@[4].text@,
{
    reveal_strlit("type");
    reveal_strlit("set");
    reveal_strlit("symbol");
    reveal_strlit("(");
    reveal_strlit(")");
    reveal_strlit(" ");
    reveal_strlit("dimension");
    reveal_strlit("fixed_dimension");
    assert("type"@.len() == 4);
    assert("set"@.len() == 3);
    assert("symbol"@.len() == 6);
    assert("("@.len() == 1);
    assert(")"@.len() == 1);
    assert("dimension"@.len() == 9);
    assert("fixed_dimension"@.len() == 15);
    assert("("@ != ")"@) by {
        assert("("@[0] != ")"@[0]);
    }
    assert(" "@ =~= seq![' ']);
    reveal_with_fuel(fmt_methodmap_property_setter_upto, 6);
    assert(fmt_methodmap_property_setter(st, node).out =~= st.out + "set"@
        + node.children@[1].text@ + node.children@[2].text@ + " "@ + node.children@[3].text@
        + node.children@[4].text@);
}

/// A part of an enum entry that is written as it stands: a name, a type, a
/// `:` or `=`, or a literal.
pub open spec fn is_plain_entry_part(c: SyntaxNode) -> bool {
    let k = c.kind@;
    ||| k == "builtin_type"@
    ||| k == "symbol"@
    ||| k == "identifier"@
    ||| k == ":"@
    ||| k == "="@
    ||| k == "int_literal"@
    ||| k == "char_literal"@
    ||| k == "string_literal"@
}

/// A child of an enum's entries: a brace, a comma, a comment, or an entry
/// made of names, types, `:`, `=` and literals.
pub open spec fn is_plain_enum_item(c: SyntaxNode) -> bool {
    let k = c.kind@;
    ||| k == "{"@
    ||| k == "}"@
    ||| k == ","@
    ||| k == "comment"@
    ||| (k == "enum_entry"@ && forall|j: int|
        0 <= j < c.children@.len() ==> is_plain_entry_part(#[trigger] c.children@[j]))
}

proof fn lemma_plain_part_extends(st: FmtState, c: SyntaxNode)
    requires
        c.kind@ == "int_literal"@ || c.kind@ == "char_literal"@ || c.kind@ == "string_literal"@,
    ensures
        st.is_expression(c.kind@) ==> fmt_expression(st, c) == st.put(c.text@),
{
    reveal_strlit("int_literal");
    reveal_strlit("char_literal");
    reveal_strlit("string_literal");
    reveal_strlit("symbol");
    if c.kind@ == "int_literal"@ {
        lemma_int_literal_is_kept(st, c);
    }
}

proof fn lemma_entry_extends(st: FmtState, e: SyntaxNode, n: int)
    requires
        0 <= n <= e.children@.len(),
        forall|j: int| 0 <= j < e.children@.len() ==> is_plain_entry_part(#[trigger] e.children@[j]),
    ensures
        extends(st.out, fmt_enum_entry_upto(st, e, n).out),
    decreases n,
{
    if n > 0 {
        lemma_entry_extends(st, e, n - 1);
        let s = fmt_enum_entry_upto(st, e, n - 1);
        let c = e.children@[n - 1];
        reveal_strlit("builtin_type");
        reveal_strlit("symbol");
        reveal_strlit("identifier");
        reveal_strlit(":");
        reveal_strlit("=");
        reveal_strlit("int_literal");
        reveal_strlit("char_literal");
        reveal_strlit("string_literal");
        reveal_strlit("fixed_dimension");
        assert("builtin_type"@.len() == 12);
        assert("symbol"@.len() == 6);
        assert("identifier"@.len() == 10);
        assert(":"@.len() == 1);
        assert("="@.len() == 1);
        assert("int_literal"@.len() == 11);
        assert("char_literal"@.len() == 12);
        assert("string_literal"@.len() == 14);
        assert("fixed_dimension"@.len() == 15);
        if c.kind@ == "int_literal"@ || c.kind@ == "char_literal"@ || c.kind@
            == "string_literal"@ {
            lemma_plain_part_extends(s, c);
        }
    }
}

proof fn lemma_entries_extends(st: FmtState, node: SyntaxNode, m: int, n: int)
    requires
        0 <= m <= n <= node.children@.len(),
        forall|j: int| 0 <= j < node.children@.len() ==> is_plain_enum_item(#[trigger] node.children@[j]),
    ensures
        extends(fmt_enum_entries_upto(st, node, m).out, fmt_enum_entries_upto(st, node, n).out),
    decreases n - m,
{
    if m < n {
        lemma_entries_extends(st, node, m, n - 1);
        let s = fmt_enum_entries_upto(st, node, n - 1);
        let c = node.children@[n - 1];
        reveal_strlit("{");
        reveal_strlit("}");
        reveal_strlit(",");
        reveal_strlit("comment");
        reveal_strlit("enum_entry");
        assert("{"@.len() == 1);
        assert("}"@.len() == 1);
        assert(","@.len() == 1);
        assert("comment"@.len() == 7);
        assert("enum_entry"@.len() == 10);
        assert(is_plain_enum_item(c));
        if c.kind@ == "enum_entry"@ {
            let s0 = s.put_indent();
            lemma_entry_extends(s0, c, c.children@.len() as int);
        }
    }
}

/// Every comment among the entries of an enum is kept: its trimmed text is
/// found in the output after what was written before, whatever entries,
/// braces and commas surround it.
pub proof fn law_enum_comments_kept(st: FmtState, node: SyntaxNode, i: int)
    requires
        0 <= i < node.children@.len(),
        node.children@[i].kind@ == "comment"@,
        forall|j: int| 0 <= j < node.children@.len() ==> is_plain_enum_item(#[trigger] node.children@[j]),
    ensures
        exists|p: int|
            st.out.len() <= p && #[trigger] found_at(
                fmt_enum_entries(st, node).out,
                trim(node.children@[i].text@),
                p,
            ),
{
    reveal_strlit("{");
    reveal_strlit("}");
    reveal_strlit("comment");
    reveal_strlit("enum_entry");
    assert("{"@.len() == 1);
    assert("}"@.len() == 1);
    assert("comment"@.len() == 7);
    assert("enum_entry"@.len() == 10);
    let c = node.children@[i];
    let t = trim(c.text@);
    let before = fmt_enum_entries_upto(st, node, i);
    let after = fmt_enum_entries_upto(st, node, i + 1);
    lemma_entries_extends(st, node, 0, i);
    lemma_entries_extends(st, node, i + 1, node.children@.len() as int);
    let st1 = match c.prev_named_sibling {
        Some(q) => if c.start_position.row == q.end_position.row {
            before.put(before.unit)
        } else {
            before.put_indent()
        },
        None => before,
    };
    let p = st1.out.len() as int;
    assert(after == super::preproc::fmt_insert_break(st1.put(t), c));
    assert(after.out.subrange(p, p + t.len()) =~= t);
    let out = fmt_enum_entries(st, node).out;
    assert(out.subrange(p, p + t.len()) =~= t);
    assert(found_at(out, t, p));
}

} // verus!
