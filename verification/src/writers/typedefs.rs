use vstd::prelude::*;

use crate::syntax::{lemma_child, SyntaxNode};
use crate::text::str_eq;
use super::functions::{breaks_wanted, fmt_argument_declarations, wants_breaks, write_argument_declarations};
use super::variables::{fmt_type, write_type};
use super::{
    fmt_comment, fmt_dimension, fmt_fixed_dimension, fmt_node, keeps_mode, moves_within,
    next_kind, next_sibling_kind, prev_kind, prev_sibling_kind, tracks_braces, write_comment,
    write_dimension, write_fixed_dimension, write_node, FmtState, Writer,
};

verus! {

broadcast use vstd::std_specs::vec::group_vec_axioms;

/// The empty lines before a top-level item that follows other code.
pub open spec fn fmt_breaks_before(st: FmtState, node: SyntaxNode, nb_lines: u32) -> FmtState {
    if breaks_wanted(prev_kind(node)) {
        st.lns(nb_lines as nat)
    } else {
        st
    }
}

pub open spec fn fmt_typedef_upto(st: FmtState, node: SyntaxNode, n: int) -> FmtState
    decreases n,
{
    if n <= 0 || n > node.children@.len() {
        st
    } else {
        let s = fmt_typedef_upto(st, node, n - 1);
        let child = node.children@[n - 1];
        let k = child.kind@;
        if k == "typedef"@ {
            s.put("typedef "@)
        } else if k == "identifier"@ {
            fmt_node(s, child)
        } else if k == "="@ {
            s.put(" = "@)
        } else if k == "typedef_expression"@ {
            fmt_typedef_expression(s, child)
        } else {
            s
        }
    }
}

/// `typedef Name = function type (params);` and a line break.
pub open spec fn fmt_typedef(st: FmtState, node: SyntaxNode) -> FmtState {
    let st1 = fmt_breaks_before(st, node, st.settings.breaks.after_function_decl);
    fmt_typedef_upto(st1, node, node.children@.len() as int).put_char(';').ln()
}

pub fn write_typedef(node: &SyntaxNode, writer: &mut Writer)
    requires
        node.wf(),
    ensures
        final(writer)@ == fmt_typedef(old(writer)@, *node),
        keeps_mode(old(writer)@, final(writer)@, *node),
{
    let nb_lines = writer.settings.breaks.after_function_decl as usize;
    let prev_kind = prev_sibling_kind(node);
    if wants_breaks(prev_kind.as_str()) {
        // Insert new lines automatically
        writer.write_lns(nb_lines);
    }
    let ghost st0 = writer@;
    let mut i: usize = 0;
    while i < node.children.len()
        invariant
            i <= node.children@.len(),
            node.wf(),
            writer@ == fmt_typedef_upto(st0, *node, i as int),
            keeps_mode(st0, writer@, *node),
        decreases node.children@.len() - i,
    {
        proof {
            lemma_child(*node, i as int);
        }
        let child = &node.children[i];
        let kind = child.kind.as_str();
        if str_eq(kind, "typedef") {
            writer.write_str("typedef ");
        } else if str_eq(kind, "identifier") {
            write_node(child, writer);
        } else if str_eq(kind, "=") {
            writer.write_str(" = ");
        } else if str_eq(kind, "typedef_expression") {
            write_typedef_expression(child, writer);
        }
        i += 1;
    }
    writer.write(';');
    writer.write_ln();
}

pub open spec fn fmt_typeset_upto(st: FmtState, node: SyntaxNode, n: int) -> FmtState
    decreases n,
{
    if n <= 0 || n > node.children@.len() {
        st
    } else {
        let s = fmt_typeset_upto(st, node, n - 1);
        let child = node.children@[n - 1];
        let k = child.kind@;
        if k == "typeset"@ {
            s.put("typeset "@)
        } else if k == "identifier"@ {
            fmt_node(s, child)
        } else if k == "{"@ {
            let s1 = if s.settings.brace_wrapping.before_typeset {
                s.ln()
            } else {
                s.put_char(' ')
            }.put("{\n"@);
            s1.with_indent(s1.indent + 1)
        } else if k == "}"@ {
            let s1 = s.put("}"@);
            s1.with_indent(s1.indent - 1)
        } else if k == "typedef_expression"@ {
            let s1 = fmt_typedef_expression(s, child).put_char(';');
            if next_kind(child).len() != 0 {
                s1.ln()
            } else {
                s1
            }
        } else if k == "comment"@ {
            fmt_comment(s, child)
        } else {
            s
        }
    }
}

/// `typeset Name { ... };` with one function type per line, and a line break.
pub open spec fn fmt_typeset(st: FmtState, node: SyntaxNode) -> FmtState {
    let st1 = fmt_breaks_before(st, node, st.settings.breaks.after_function_decl);
    fmt_typeset_upto(st1, node, node.children@.len() as int).put_char(';').ln()
}

pub fn write_typeset(node: &SyntaxNode, writer: &mut Writer)
    requires
        node.wf(),
        old(writer).indent + node.size <= usize::MAX,
    ensures
        final(writer)@ == fmt_typeset(old(writer)@, *node),
        moves_within(old(writer)@, final(writer)@, *node),
{
    let nb_lines = writer.settings.breaks.after_function_decl as usize;
    let prev_kind = prev_sibling_kind(node);
    if wants_breaks(prev_kind.as_str()) {
        // Insert new lines automatically
        writer.write_lns(nb_lines);
    }
    let ghost st0 = writer@;
    let mut i: usize = 0;
    while i < node.children.len()
        invariant
            i <= node.children@.len(),
            node.wf(),
            st0.indent + node.size <= usize::MAX,
            writer@ == fmt_typeset_upto(st0, *node, i as int),
            tracks_braces(st0, writer@, *node, i as int),
        decreases node.children@.len() - i,
    {
        proof {
            lemma_child(*node, i as int);
            reveal_strlit("{");
            reveal_strlit("}");
            reveal_strlit("typeset");
            reveal_strlit("identifier");
            assert("}"@[0] != "{"@[0]);
            assert("typeset"@[0] != "{"@[0] && "typeset"@[0] != "}"@[0]);
            assert("identifier"@[0] != "{"@[0] && "identifier"@[0] != "}"@[0]);
        }
        let child = &node.children[i];
        let kind = child.kind.as_str();
        if str_eq(kind, "typeset") {
            writer.write_str("typeset ");
        } else if str_eq(kind, "identifier") {
            write_node(child, writer);
        } else if str_eq(kind, "{") {
            if writer.settings.brace_wrapping.before_typeset {
                writer.write_ln();
            } else {
                writer.write(' ');
            }
            writer.write_str("{\n");
            writer.indent = writer.indent + 1;
        } else if str_eq(kind, "}") {
            writer.write_str("}");
            writer.indent = writer.indent - 1;
        } else if str_eq(kind, "typedef_expression") {
            let next_kind = next_sibling_kind(child);
            write_typedef_expression(child, writer);
            writer.write(';');
            if !next_kind.as_str().is_empty() {
                writer.write_ln();
            }
        } else if str_eq(kind, "comment") {
            write_comment(child, writer);
        }
        i += 1;
    }
    writer.write(';');
    writer.write_ln();
}

pub open spec fn fmt_typedef_expression_upto(st: FmtState, node: SyntaxNode, n: int) -> FmtState
    decreases n,
{
    if n <= 0 || n > node.children@.len() {
        st
    } else {
        let s = fmt_typedef_expression_upto(st, node, n - 1);
        let child = node.children@[n - 1];
        let k = child.kind@;
        if k == "function"@ {
            s.put("function "@)
        } else if k == "type"@ {
            fmt_type(s, child)
        } else if k == "dimension"@ {
            fmt_dimension(s, child, false)
        } else if k == "fixed_dimension"@ {
            fmt_fixed_dimension(s, child, false)
        } else if k == "parameter_declarations"@ {
            fmt_argument_declarations(s, child)
        } else {
            s
        }
    }
}

/// An indented `function type (params)`.
pub open spec fn fmt_typedef_expression(st: FmtState, node: SyntaxNode) -> FmtState {
    fmt_typedef_expression_upto(st.put_indent(), node, node.children@.len() as int)
}

fn write_typedef_expression(node: &SyntaxNode, writer: &mut Writer)
    requires
        node.wf(),
    ensures
        final(writer)@ == fmt_typedef_expression(old(writer)@, *node),
        keeps_mode(old(writer)@, final(writer)@, *node),
{
    writer.write_indent();
    let ghost st0 = writer@;
    let mut i: usize = 0;
    while i < node.children.len()
        invariant
            i <= node.children@.len(),
            node.wf(),
            writer@ == fmt_typedef_expression_upto(st0, *node, i as int),
            keeps_mode(st0, writer@, *node),
        decreases node.children@.len() - i,
    {
        proof {
            lemma_child(*node, i as int);
        }
        let child = &node.children[i];
        let kind = child.kind.as_str();
        if str_eq(kind, "function") {
            writer.write_str("function ");
        } else if str_eq(kind, "type") {
            write_type(child, writer);
        } else if str_eq(kind, "dimension") {
            write_dimension(child, writer, false);
        } else if str_eq(kind, "fixed_dimension") {
            write_fixed_dimension(child, writer, false);
        } else if str_eq(kind, "parameter_declarations") {
            write_argument_declarations(child, writer);
        }
        i += 1;
    }
}

} // verus!
