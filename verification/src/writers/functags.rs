use vstd::prelude::*;

use crate::syntax::{lemma_child, SyntaxNode};
use crate::text::str_eq;
use super::expressions::{fmt_old_type, write_old_type};
use super::functions::{fmt_argument_declarations, wants_breaks, write_argument_declarations};
use super::typedefs::fmt_breaks_before;
use super::{
    fmt_comment, fmt_node, keeps_mode, moves_within, next_kind, next_sibling_kind,
    prev_sibling_kind, tracks_braces, write_comment, write_node, FmtState, Writer,
};

verus! {

broadcast use vstd::std_specs::vec::group_vec_axioms;

pub open spec fn fmt_functag_upto(st: FmtState, node: SyntaxNode, n: int) -> FmtState
    decreases n,
{
    if n <= 0 || n > node.children@.len() {
        st
    } else {
        let s = fmt_functag_upto(st, node, n - 1);
        let child = node.children@[n - 1];
        let k = child.kind@;
        if k == "functag"@ {
            s.put("functag "@)
        } else if k == "public"@ {
            s.put("public"@)
        } else if k == "old_type"@ {
            fmt_old_type(s, child)
        } else if k == "identifier"@ {
            fmt_node(s, child).put_char(' ')
        } else if k == "parameter_declarations"@ {
            fmt_argument_declarations(s, child)
        } else {
            s
        }
    }
}

/// `functag public Type Name (params);` and a line break.
pub open spec fn fmt_functag(st: FmtState, node: SyntaxNode) -> FmtState {
    let st1 = fmt_breaks_before(st, node, st.settings.breaks.after_function_decl);
    fmt_functag_upto(st1, node, node.children@.len() as int).put_char(';').ln()
}

pub fn write_functag(node: &SyntaxNode, writer: &mut Writer)
    requires
        node.wf(),
    ensures
        final(writer)@ == fmt_functag(old(writer)@, *node),
        keeps_mode(old(writer)@, final(writer)@, *node),
{
    let nb_lines = writer.settings.breaks.after_function_decl as usize;
    let prev_kind = prev_sibling_kind(node);
    if wants_breaks(prev_kind.as_str()) {
        // Insert new lines automatically
        writer.write_lns(nb_lines);
    }
    let ghost st0 = writer@;
    let mut i: usize = 0;
    while i < node.children.len()
        invariant
            i <= node.children@.len(),
            node.wf(),
            writer@ == fmt_functag_upto(st0, *node, i as int),
            keeps_mode(st0, writer@, *node),
        decreases node.children@.len() - i,
    {
        proof {
            lemma_child(*node, i as int);
        }
        let child = &node.children[i];
        let kind = child.kind.as_str();
        if str_eq(kind, "functag") {
            writer.write_str("functag ");
        } else if str_eq(kind, "public") {
            writer.write_str("public");
        } else if str_eq(kind, "old_type") {
            write_old_type(child, writer);
        } else if str_eq(kind, "identifier") {
            write_node(child, writer);
            writer.write(' ');
        } else if str_eq(kind, "parameter_declarations") {
            write_argument_declarations(child, writer);
        }
        i += 1;
    }
    writer.write(';');
    writer.write_ln();
}

pub open spec fn fmt_funcenum_upto(st: FmtState, node: SyntaxNode, n: int) -> FmtState
    decreases n,
{
    if n <= 0 || n > node.children@.len() {
        st
    } else {
        let s = fmt_funcenum_upto(st, node, n - 1);
        let child = node.children@[n - 1];
        let k = child.kind@;
        if k == "funcenum"@ {
            s.put("funcenum "@)
        } else if k == "identifier"@ {
            fmt_node(s, child)
        } else if k == "{"@ {
            let s1 = if s.settings.brace_wrapping.before_funcenum {
                s.ln()
            } else {
                s.put_char(' ')
            }.put("{\n"@);
            s1.with_indent(s1.indent + 1)
        } else if k == "}"@ {
            let s1 = s.put("}"@);
            s1.with_indent(s1.indent - 1)
        } else if k == "funcenum_member"@ {
            let s1 = fmt_funcenum_member(s, child).put_char(',');
            if next_kind(child).len() != 0 {
                s1.ln()
            } else {
                s1
            }
        } else if k == "comment"@ {
            fmt_comment(s, child)
        } else {
            s
        }
    }
}

/// `funcenum Name { ... };` with one member per line, and a line break.
pub open spec fn fmt_funcenum(st: FmtState, node: SyntaxNode) -> FmtState {
    let st1 = fmt_breaks_before(st, node, st.settings.breaks.after_function_decl);
    fmt_funcenum_upto(st1, node, node.children@.len() as int).put_char(';').ln()
}

pub fn write_funcenum(node: &SyntaxNode, writer: &mut Writer)
    requires
        node.wf(),
        old(writer).indent + node.size <= usize::MAX,
    ensures
        final(writer)@ == fmt_funcenum(old(writer)@, *node),
        moves_within(old(writer)@, final(writer)@, *node),
{
    let nb_lines = writer.settings.breaks.after_function_decl as usize;
    let prev_kind = prev_sibling_kind(node);
    if wants_breaks(prev_kind.as_str()) {
        // Insert new lines automatically
        writer.write_lns(nb_lines);
    }
    let ghost st0 = writer@;
    let mut i: usize = 0;
    while i < node.children.len()
        invariant
            i <= node.children@.len(),
            node.wf(),
            st0.indent + node.size <= usize::MAX,
            writer@ == fmt_funcenum_upto(st0, *node, i as int),
            tracks_braces(st0, writer@, *node, i as int),
        decreases node.children@.len() - i,
    {
        proof {
            lemma_child(*node, i as int);
            reveal_strlit("{");
            reveal_strlit("}");
            reveal_strlit("funcenum");
            reveal_strlit("identifier");
            assert("}"@[0] != "{"@[0]);
            assert("funcenum"@[0] != "{"@[0] && "funcenum"@[0] != "}"@[0]);
            assert("identifier"@[0] != "{"@[0] && "identifier"@[0] != "}"@[0]);
        }
        let child = &node.children[i];
        let kind = child.kind.as_str();
        if str_eq(kind, "funcenum") {
            writer.write_str("funcenum ");
        } else if str_eq(kind, "identifier") {
            write_node(child, writer);
        } else if str_eq(kind, "{") {
            if writer.settings.brace_wrapping.before_funcenum {
                writer.write_ln();
            } else {
                writer.write(' ');
            }
            writer.write_str("{\n");
            writer.indent = writer.indent + 1;
        } else if str_eq(kind, "}") {
            writer.write_str("}");
            writer.indent = writer.indent - 1;
        } else if str_eq(kind, "funcenum_member") {
            let next_kind = next_sibling_kind(child);
            write_funcenum_member(child, writer);
            writer.write(',');
            if !next_kind.as_str().is_empty() {
                writer.write_ln();
            }
        } else if str_eq(kind, "comment") {
            write_comment(child, writer);
        }
        i += 1;
    }
    writer.write(';');
    writer.write_ln();
}

pub open spec fn fmt_funcenum_member_upto(st: FmtState, node: SyntaxNode, n: int) -> FmtState
    decreases n,
{
    if n <= 0 || n > node.children@.len() {
        st
    } else {
        let s = fmt_funcenum_member_upto(st, node, n - 1);
        let child = node.children@[n - 1];
        let k = child.kind@;
        if k == "public"@ {
            s.put("public "@)
        } else if k == "old_type"@ {
            fmt_old_type(s, child)
        } else if k == "parameter_declarations"@ {
            fmt_argument_declarations(s, child)
        } else {
            s
        }
    }
}

/// An indented `public Type (params)`.
pub open spec fn fmt_funcenum_member(st: FmtState, node: SyntaxNode) -> FmtState {
    fmt_funcenum_member_upto(st.put_indent(), node, node.children@.len() as int)
}

fn write_funcenum_member(node: &SyntaxNode, writer: &mut Writer)
    requires
        node.wf(),
    ensures
        final(writer)@ == fmt_funcenum_member(old(writer)@, *node),
        keeps_mode(old(writer)@, final(writer)@, *node),
{
    writer.write_indent();
    let ghost st0 = writer@;
    let mut i: usize = 0;
    while i < node.children.len()
        invariant
            i <= node.children@.len(),
            node.wf(),
            writer@ == fmt_funcenum_member_upto(st0, *node, i as int),
            keeps_mode(st0, writer@, *node),
        decreases node.children@.len() - i,
    {
        proof {
            lemma_child(*node, i as int);
        }
        let child = &node.children[i];
        let kind = child.kind.as_str();
        if str_eq(kind, "public") {
            writer.write_str("public ");
        } else if str_eq(kind, "old_type") {
            write_old_type(child, writer);
        } else if str_eq(kind, "parameter_declarations") {
            write_argument_declarations(child, writer);
        }
        i += 1;
    }
}

} // verus!
