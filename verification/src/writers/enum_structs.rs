use vstd::prelude::*;

use crate::syntax::{lemma_child, SyntaxNode};
use crate::text::{starts_with, str_eq, str_starts_with};
use super::functions::{
    fmt_argument_declarations, fmt_function_body, wants_breaks, write_argument_declarations,
    write_function_body,
};
use super::typedefs::fmt_breaks_before;
use super::variables::{fmt_type, write_type};
use super::{
    fmt_comment, fmt_fixed_dimension, fmt_node, keeps_mode, moves_within, prev_kind,
    prev_sibling_kind, tracks_braces, within_children, write_comment, write_fixed_dimension,
    write_node, FmtState, Writer,
};

verus! {

broadcast use vstd::std_specs::vec::group_vec_axioms;

pub open spec fn fmt_enum_struct_upto(st: FmtState, node: SyntaxNode, n: int) -> FmtState
    decreases n,
{
    if n <= 0 || n > node.children@.len() {
        st
    } else {
        let s = fmt_enum_struct_upto(st, node, n - 1);
        let child = node.children@[n - 1];
        let k = child.kind@;
        if k == "enum"@ || k == "struct"@ {
            fmt_node(s, child).put_char(' ')
        } else if k == "identifier"@ {
            fmt_node(s, child)
        } else if k == "{"@ {
            let s1 = if s.settings.brace_wrapping.before_enum_struct {
                s.ln()
            } else {
                s.put_char(' ')
            }.put("{\n"@);
            s1.with_indent(s1.indent + 1)
        } else if k == "}"@ {
            let s1 = s.put("}\n"@);
            s1.with_indent(s1.indent - 1)
        } else if k == "comment"@ {
            fmt_comment(s, child)
        } else if k == "enum_struct_field"@ {
            fmt_enum_struct_field(s, child)
        } else if k == "enum_struct_method"@ {
            fmt_enum_struct_method(s, child)
        } else {
            s
        }
    }
}

/// `enum struct Name { ... }` with fields and methods inside, and a line break.
pub open spec fn fmt_enum_struct(st: FmtState, node: SyntaxNode) -> FmtState {
    let st1 = fmt_breaks_before(st, node, st.settings.breaks.before_enum_struct);
    fmt_enum_struct_upto(st1, node, node.children@.len() as int).ln()
}

pub fn write_enum_struct(node: &SyntaxNode, writer: &mut Writer)
    requires
        node.wf(),
        old(writer).indent + node.size <= usize::MAX,
    ensures
        final(writer)@ == fmt_enum_struct(old(writer)@, *node),
        moves_within(old(writer)@, final(writer)@, *node),
{
    let nb_lines = writer.settings.breaks.before_enum_struct as usize;
    let prev_kind = prev_sibling_kind(node);
    if wants_breaks(prev_kind.as_str()) {
        // Insert new lines automatically
        writer.write_lns(nb_lines);
    }
    let ghost st0 = writer@;
    let mut i: usize = 0;
    while i < node.children.len()
        invariant
            i <= node.children@.len(),
            node.wf(),
            st0.indent + node.size <= usize::MAX,
            writer@ == fmt_enum_struct_upto(st0, *node, i as int),
            tracks_braces(st0, writer@, *node, i as int),
        decreases node.children@.len() - i,
    {
        proof {
            lemma_child(*node, i as int);
            reveal_strlit("{");
            reveal_strlit("}");
            reveal_strlit("enum");
            reveal_strlit("struct");
            reveal_strlit("identifier");
            assert("}"@[0] != "{"@[0]);
            assert("enum"@[0] != "{"@[0] && "enum"@[0] != "}"@[0]);
            assert("struct"@[0] != "{"@[0] && "struct"@[0] != "}"@[0]);
            assert("identifier"@[0] != "{"@[0] && "identifier"@[0] != "}"@[0]);
        }
        let child = &node.children[i];
        let kind = child.kind.as_str();
        if str_eq(kind, "enum") || str_eq(kind, "struct") {
            write_node(child, writer);
            writer.write(' ');
        } else if str_eq(kind, "identifier") {
            write_node(child, writer);
        } else if str_eq(kind, "{") {
            if writer.settings.brace_wrapping.before_enum_struct {
                writer.write_ln();
            } else {
                writer.write(' ');
            }
            writer.write_str("{\n");
            writer.indent = writer.indent + 1;
        } else if str_eq(kind, "}") {
            writer.write_str("}\n");
            writer.indent = writer.indent - 1;
        } else if str_eq(kind, "comment") {
            write_comment(child, writer);
        } else if str_eq(kind, "enum_struct_field") {
            write_enum_struct_field(child, writer);
        } else if str_eq(kind, "enum_struct_method") {
            write_enum_struct_method(child, writer);
        }
        i += 1;
    }
    writer.write_ln();
}

/// Whether a member of an enum struct after a sibling of kind `prev` gets
/// empty lines before it: not after a preprocessor line, the opening brace,
/// a comment, or (where `after_field` is false) a field.
pub open spec fn member_breaks_wanted(prev: Seq<char>, after_field: bool) -> bool {
    !starts_with(prev, "preproc_"@) && prev != "{"@ && prev != "comment"@ && (after_field || prev
        != "enum_struct_field"@)
}

fn member_wants_breaks(prev: &str, after_field: bool) -> (r: bool)
    ensures
        r == member_breaks_wanted(prev@, after_field),
{
    !str_starts_with(prev, "preproc_") && !str_eq(prev, "{") && !str_eq(prev, "comment") && (
    after_field || !str_eq(prev, "enum_struct_field"))
}

pub open spec fn fmt_enum_struct_field_upto(st: FmtState, node: SyntaxNode, n: int) -> FmtState
    decreases n,
{
    if n <= 0 || n > node.children@.len() {
        st
    } else {
        let s = fmt_enum_struct_field_upto(st, node, n - 1);
        let child = node.children@[n - 1];
        let k = child.kind@;
        if k == "type"@ {
            fmt_type(s, child)
        } else if k == "identifier"@ {
            fmt_node(s, child)
        } else if k == "fixed_dimension"@ {
            fmt_fixed_dimension(s, child, true)
        } else if k == ";"@ {
            fmt_node(s, child)
        } else {
            s
        }
    }
}

/// An indented field, and a line break.
pub open spec fn fmt_enum_struct_field(st: FmtState, node: SyntaxNode) -> FmtState {
    let nb_lines = st.settings.breaks.after_function_decl;
    let st1 = if member_breaks_wanted(prev_kind(node), false) {
        st.lns(nb_lines as nat)
    } else {
        st
    };
    fmt_enum_struct_field_upto(st1.put_indent(), node, node.children@.len() as int).ln()
}

fn write_enum_struct_field(node: &SyntaxNode, writer: &mut Writer)
    requires
        node.wf(),
    ensures
        final(writer)@ == fmt_enum_struct_field(old(writer)@, *node),
        keeps_mode(old(writer)@, final(writer)@, *node),
{
    let nb_lines = writer.settings.breaks.after_function_decl as usize;
    let prev_kind = prev_sibling_kind(node);
    if member_wants_breaks(prev_kind.as_str(), false) {
        // Insert new lines automatically
        writer.write_lns(nb_lines);
    }
    writer.write_indent();
    let ghost st0 = writer@;
    let mut i: usize = 0;
    while i < node.children.len()
        invariant
            i <= node.children@.len(),
            node.wf(),
            writer@ == fmt_enum_struct_field_upto(st0, *node, i as int),
            keeps_mode(st0, writer@, *node),
        decreases node.children@.len() - i,
    {
        proof {
            lemma_child(*node, i as int);
        }
        let child = &node.children[i];
        let kind = child.kind.as_str();
        if str_eq(kind, "type") {
            write_type(child, writer);
        } else if str_eq(kind, "identifier") {
            write_node(child, writer);
        } else if str_eq(kind, "fixed_dimension") {
            write_fixed_dimension(child, writer, true);
        } else if str_eq(kind, ";") {
            write_node(child, writer);
        }
        i += 1;
    }
    writer.write_ln();
}

pub open spec fn fmt_enum_struct_method_upto(st: FmtState, node: SyntaxNode, n: int) -> FmtState
    decreases n,
{
    if n <= 0 || n > node.children@.len() {
        st
    } else {
        let s = fmt_enum_struct_method_upto(st, node, n - 1);
        let child = node.children@[n - 1];
        let k = child.kind@;
        if k == "type"@ {
            fmt_type(s, child)
        } else if k == "identifier"@ {
            fmt_node(s, child)
        } else if k == "parameter_declarations"@ {
            fmt_argument_declarations(s, child)
        } else if k == "block"@ {
            fmt_function_body(s, child, s.settings.brace_wrapping.before_function)
        } else {
            s
        }
    }
}

/// An indented method with its body, and a line break.
pub open spec fn fmt_enum_struct_method(st: FmtState, node: SyntaxNode) -> FmtState {
    let nb_lines = st.settings.breaks.after_function_decl;
    let st1 = if member_breaks_wanted(prev_kind(node), true) {
        st.lns(nb_lines as nat)
    } else {
        st
    };
    fmt_enum_struct_method_upto(st1.put_indent(), node, node.children@.len() as int).ln()
}

fn write_enum_struct_method(node: &SyntaxNode, writer: &mut Writer)
    requires
        node.wf(),
        old(writer).indent + node.size <= usize::MAX,
    ensures
        final(writer)@ == fmt_enum_struct_method(old(writer)@, *node),
        moves_within(old(writer)@, final(writer)@, *node),
{
    let nb_lines = writer.settings.breaks.after_function_decl as usize;
    let prev_kind = prev_sibling_kind(node);
    if member_wants_breaks(prev_kind.as_str(), true) {
        // Insert new lines automatically
        writer.write_lns(nb_lines);
    }
    writer.write_indent();
    let ghost st0 = writer@;
    let mut i: usize = 0;
    while i < node.children.len()
        invariant
            i <= node.children@.len(),
            node.wf(),
            st0.indent + node.size <= usize::MAX,
            writer@ == fmt_enum_struct_method_upto(st0, *node, i as int),
            within_children(st0, writer@, *node, i as int),
        decreases node.children@.len() - i,
    {
        proof {
            lemma_child(*node, i as int);
        }
        let child = &node.children[i];
        let kind = child.kind.as_str();
        if str_eq(kind, "type") {
            write_type(child, writer);
        } else if str_eq(kind, "identifier") {
            write_node(child, writer);
        } else if str_eq(kind, "parameter_declarations") {
            write_argument_declarations(child, writer);
        } else if str_eq(kind, "block") {
            let wrap = writer.settings.brace_wrapping.before_function;
            write_function_body(child, writer, wrap);
        }
        i += 1;
    }
    writer.write_ln();
}

} // verus!
