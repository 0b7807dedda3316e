use vstd::prelude::*;

use crate::syntax::{lemma_child, SyntaxNode};
use crate::text::{ends_with, str_ends_with, str_eq};
use super::expressions::{fmt_expression, write_expression};
use super::functions::wants_breaks;
use super::typedefs::fmt_breaks_before;
use super::{
    fmt_comment, fmt_fixed_dimension, fmt_node, keeps_mode, moves_within, prev_sibling_kind,
    tracks_braces, within_children, write_comment, write_fixed_dimension, write_node, FmtState,
    Writer,
};

verus! {

broadcast use vstd::std_specs::vec::group_vec_axioms;

/// An expression; an assignment operator such as `=` or `+=` followed by a
/// space; and nothing for anything else.
pub open spec fn fmt_enum_value(st: FmtState, node: SyntaxNode) -> FmtState {
    if st.is_expression(node.kind@) {
        fmt_expression(st, node)
    } else if ends_with(node.kind@, "="@) {
        fmt_node(st, node).put_char(' ')
    } else {
        st
    }
}

fn write_enum_value(node: &SyntaxNode, writer: &mut Writer)
    requires
        node.wf(),
    ensures
        final(writer)@ == fmt_enum_value(old(writer)@, *node),
        keeps_mode(old(writer)@, final(writer)@, *node),
{
    let kind = node.kind.as_str();
    if writer.is_expression(kind) {
        write_expression(node, writer);
    } else if str_ends_with(kind, "=") {
        // Match all in place operators, write it, and add a space
        // to respect the rest of the styling.
        write_node(node, writer);
        writer.write(' ');
    }
}

pub open spec fn fmt_enum_upto(st: FmtState, node: SyntaxNode, n: int) -> FmtState
    decreases n,
{
    if n <= 0 || n > node.children@.len() {
        st
    } else {
        let s = fmt_enum_upto(st, node, n - 1);
        let child = node.children@[n - 1];
        let k = child.kind@;
        if k == "enum"@ {
            s.put("enum "@)
        } else if k == "symbol"@ || k == ":"@ || k == ";"@ {
            fmt_node(s, child)
        } else if k == "("@ {
            s.put("("@)
        } else if k == ")"@ {
            s.put(")"@)
        } else if k == "enum_entries"@ {
            fmt_enum_entries(s, child)
        } else {
            fmt_enum_value(s, child)
        }
    }
}

/// `enum Name { ... }` and a line break.
pub open spec fn fmt_enum(st: FmtState, node: SyntaxNode) -> FmtState {
    let st1 = fmt_breaks_before(st, node, st.settings.breaks.before_enum);
    fmt_enum_upto(st1, node, node.children@.len() as int).ln()
}

pub fn write_enum(node: &SyntaxNode, writer: &mut Writer)
    requires
        node.wf(),
        old(writer).indent + node.size <= usize::MAX,
    ensures
        final(writer)@ == fmt_enum(old(writer)@, *node),
        moves_within(old(writer)@, final(writer)@, *node),
{
    let nb_lines = writer.settings.breaks.before_enum as usize;
    let prev_kind = prev_sibling_kind(node);
    if wants_breaks(prev_kind.as_str()) {
        // Insert new lines automatically
        writer.write_lns(nb_lines);
    }
    let ghost st0 = writer@;
    let mut i: usize = 0;
    while i < node.children.len()
        invariant
            i <= node.children@.len(),
            node.wf(),
            st0.indent + node.size <= usize::MAX,
            writer@ == fmt_enum_upto(st0, *node, i as int),
            within_children(st0, writer@, *node, i as int),
        decreases node.children@.len() - i,
    {
        proof {
            lemma_child(*node, i as int);
        }
        let child = &node.children[i];
        let kind = child.kind.as_str();
        if str_eq(kind, "enum") {
            writer.write_str("enum ");
        } else if str_eq(kind, "symbol") || str_eq(kind, ":") || str_eq(kind, ";") {
            write_node(child, writer);
        } else if str_eq(kind, "(") {
            writer.write_str("(");
        } else if str_eq(kind, ")") {
            writer.write_str(")");
        } else if str_eq(kind, "enum_entries") {
            write_enum_entries(child, writer);
        } else {
            write_enum_value(child, writer);
        }
        i += 1;
    }
    writer.write_ln();
}

pub open spec fn fmt_enum_entries_upto(st: FmtState, node: SyntaxNode, n: int) -> FmtState
    decreases n,
{
    if n <= 0 || n > node.children@.len() {
        st
    } else {
        let s = fmt_enum_entries_upto(st, node, n - 1);
        let child = node.children@[n - 1];
        let k = child.kind@;
        if k == "{"@ {
            let s1 = if s.settings.brace_wrapping.before_enum {
                s.ln()
            } else {
                s.put_char(' ')
            }.put("{\n"@);
            s1.with_indent(s1.indent + 1)
        } else if k == "}"@ {
            let s1 = s.put("}"@);
            s1.with_indent(s1.indent - 1)
        } else if k == "enum_entry"@ {
            fmt_enum_entry(s, child)
        } else if k == "comment"@ {
            fmt_comment(s, child)
        } else if k == ","@ {
            s
        } else {
            fmt_enum_value(s, child)
        }
    }
}

/// The braces of an enum with one entry per line in between.
pub open spec fn fmt_enum_entries(st: FmtState, node: SyntaxNode) -> FmtState {
    fmt_enum_entries_upto(st, node, node.children@.len() as int)
}

fn write_enum_entries(node: &SyntaxNode, writer: &mut Writer)
    requires
        node.wf(),
        old(writer).indent + node.size <= usize::MAX,
    ensures
        final(writer)@ == fmt_enum_entries(old(writer)@, *node),
        moves_within(old(writer)@, final(writer)@, *node),
{
    let ghost st0 = writer@;
    let mut i: usize = 0;
    while i < node.children.len()
        invariant
            i <= node.children@.len(),
            node.wf(),
            st0.indent + node.size <= usize::MAX,
            writer@ == fmt_enum_entries_upto(st0, *node, i as int),
            tracks_braces(st0, writer@, *node, i as int),
        decreases node.children@.len() - i,
    {
        proof {
            lemma_child(*node, i as int);
            reveal_strlit("{");
            reveal_strlit("}");
            assert("}"@[0] != "{"@[0]);
        }
        let child = &node.children[i];
        let kind = child.kind.as_str();
        if str_eq(kind, "{") {
            if writer.settings.brace_wrapping.before_enum {
                writer.write_ln();
            } else {
                writer.write(' ');
            }
            writer.write_str("{\n");
            writer.indent = writer.indent + 1;
        } else if str_eq(kind, "}") {
            writer.write_str("}");
            writer.indent = writer.indent - 1;
        } else if str_eq(kind, "enum_entry") {
            write_enum_entry(child, writer);
        } else if str_eq(kind, "comment") {
            write_comment(child, writer);
        } else if str_eq(kind, ",") {
        } else {
            write_enum_value(child, writer);
        }
        i += 1;
    }
}

pub open spec fn fmt_enum_entry_upto(st: FmtState, node: SyntaxNode, n: int) -> FmtState
    decreases n,
{
    if n <= 0 || n > node.children@.len() {
        st
    } else {
        let s = fmt_enum_entry_upto(st, node, n - 1);
        let child = node.children@[n - 1];
        let k = child.kind@;
        if k == "builtin_type"@ || k == "symbol"@ || k == "identifier"@ {
            fmt_node(s, child)
        } else if k == ":"@ {
            s.put(": "@)
        } else if k == "fixed_dimension"@ {
            fmt_fixed_dimension(s, child, true)
        } else if k == "="@ {
            s.put(" = "@)
        } else if s.is_expression(k) {
            fmt_expression(s, child)
        } else {
            s
        }
    }
}

/// An indented entry, followed by `,` and a line break.
pub open spec fn fmt_enum_entry(st: FmtState, node: SyntaxNode) -> FmtState {
    fmt_enum_entry_upto(st.put_indent(), node, node.children@.len() as int).put_char(',').ln()
}

fn write_enum_entry(node: &SyntaxNode, writer: &mut Writer)
    requires
        node.wf(),
    ensures
        final(writer)@ == fmt_enum_entry(old(writer)@, *node),
        keeps_mode(old(writer)@, final(writer)@, *node),
{
    writer.write_indent();
    let ghost st0 = writer@;
    let mut i: usize = 0;
    while i < node.children.len()
        invariant
            i <= node.children@.len(),
            node.wf(),
            writer@ == fmt_enum_entry_upto(st0, *node, i as int),
            keeps_mode(st0, writer@, *node),
        decreases node.children@.len() - i,
    {
        proof {
            lemma_child(*node, i as int);
        }
        let child = &node.children[i];
        let kind = child.kind.as_str();
        if str_eq(kind, "builtin_type") || str_eq(kind, "symbol") || str_eq(kind, "identifier") {
            write_node(child, writer);
        } else if str_eq(kind, ":") {
            writer.write_str(": ");
        } else if str_eq(kind, "fixed_dimension") {
            write_fixed_dimension(child, writer, true);
        } else if str_eq(kind, "=") {
            writer.write_str(" = ");
        } else if writer.is_expression(kind) {
            write_expression(child, writer);
        }
        i += 1;
    }
    writer.write(',');
    writer.write_ln();
}

} // verus!
