use vstd::prelude::*;

use crate::syntax::{lemma_child, SyntaxNode};
use crate::text::{starts_with, str_eq, str_starts_with};
use super::expressions::{fmt_expression, fmt_old_type, write_expression, write_old_type};
use super::statements::{fmt_block, fmt_statement, write_block, write_statement};
use super::variables::{fmt_type, write_type};
use super::{
    fmt_dimension, fmt_fixed_dimension, fmt_node, keeps_mode, moves_within, next_kind,
    next_sibling_kind, prev_kind, prev_sibling_kind, within_children, write_dimension,
    write_fixed_dimension, write_node, FmtState, Writer,
};

verus! {

broadcast use vstd::std_specs::vec::group_vec_axioms;

/// Whether a declaration after a sibling of kind `prev` gets empty lines
/// before it: not after a preprocessor line, a comment, or nothing.
pub open spec fn breaks_wanted(prev: Seq<char>) -> bool {
    !starts_with(prev, "preproc_"@) && prev.len() != 0 && prev != "comment"@
}

pub fn wants_breaks(prev: &str) -> (r: bool)
    ensures
        r == breaks_wanted(prev@),
{
    !str_starts_with(prev, "preproc_") && !prev.is_empty() && !str_eq(prev, "comment")
}

/// A function body: on a new line where `wrap`, after a space otherwise.
pub open spec fn fmt_function_body(st: FmtState, node: SyntaxNode, wrap: bool) -> FmtState {
    if wrap {
        fmt_block(st.ln(), node, true)
    } else {
        fmt_block(st.put_char(' '), node, false)
    }
}

pub fn write_function_body(node: &SyntaxNode, writer: &mut Writer, wrap: bool)
    requires
        node.wf(),
        old(writer).indent + node.size <= usize::MAX,
    ensures
        final(writer)@ == fmt_function_body(old(writer)@, *node, wrap),
        moves_within(old(writer)@, final(writer)@, *node),
{
    if wrap {
        writer.write_ln();
        write_block(node, writer, true);
    } else {
        writer.write(' ');
        write_block(node, writer, false);
    }
}

pub open spec fn fmt_function_declaration_upto(st: FmtState, node: SyntaxNode, n: int) -> FmtState
    decreases n,
{
    if n <= 0 || n > node.children@.len() {
        st
    } else {
        let s = fmt_function_declaration_upto(st, node, n - 1);
        let child = node.children@[n - 1];
        let k = child.kind@;
        if k == "visibility"@ || k == "function_declaration_kind"@ {
            fmt_function_visibility(s, child)
        } else if k == "type"@ {
            fmt_type(s, child)
        } else if k == "dimension"@ {
            fmt_dimension(s, child, true)
        } else if k == "parameter_declarations"@ {
            fmt_argument_declarations(s, child)
        } else if k == "identifier"@ {
            fmt_node(s, child)
        } else if k == "block"@ {
            fmt_function_body(s, child, s.settings.brace_wrapping.before_function)
        } else {
            fmt_statement(s, child, false, false)
        }
    }
}

/// A function declaration or definition, a line break, then as many empty
/// lines as the settings ask after one that follows other code.
pub open spec fn fmt_function_declaration(st: FmtState, node: SyntaxNode) -> FmtState {
    let nb_lines = st.settings.breaks.after_function_decl;
    let st1 = fmt_function_declaration_upto(st, node, node.children@.len() as int).ln();
    if breaks_wanted(prev_kind(node)) {
        st1.lns(nb_lines as nat)
    } else {
        st1
    }
}

pub fn write_function_declaration(node: &SyntaxNode, writer: &mut Writer)
    requires
        node.wf(),
        old(writer).indent + node.size <= usize::MAX,
    ensures
        final(writer)@ == fmt_function_declaration(old(writer)@, *node),
        moves_within(old(writer)@, final(writer)@, *node),
{
    let nb_lines = writer.settings.breaks.after_function_decl as usize;
    let prev_kind = prev_sibling_kind(node);
    let ghost st0 = writer@;
    let mut i: usize = 0;
    while i < node.children.len()
        invariant
            i <= node.children@.len(),
            node.wf(),
            st0.indent + node.size <= usize::MAX,
            writer@ == fmt_function_declaration_upto(st0, *node, i as int),
            within_children(st0, writer@, *node, i as int),
        decreases node.children@.len() - i,
    {
        proof {
            lemma_child(*node, i as int);
        }
        let child = &node.children[i];
        let kind = child.kind.as_str();
        if str_eq(kind, "visibility") || str_eq(kind, "function_declaration_kind") {
            write_function_visibility(child, writer);
        } else if str_eq(kind, "type") {
            write_type(child, writer);
        } else if str_eq(kind, "dimension") {
            write_dimension(child, writer, true);
        } else if str_eq(kind, "parameter_declarations") {
            write_argument_declarations(child, writer);
        } else if str_eq(kind, "identifier") {
            write_node(child, writer);
        } else if str_eq(kind, "block") {
            let wrap = writer.settings.brace_wrapping.before_function;
            write_function_body(child, writer, wrap);
        } else {
            write_statement(child, writer, false, false);
        }
        i += 1;
    }
    writer.write_ln();
    if wants_breaks(prev_kind.as_str()) {
        writer.write_lns(nb_lines);
    }
}

pub open spec fn fmt_rest_argument_upto(st: FmtState, node: SyntaxNode, n: int) -> FmtState
    decreases n,
{
    if n <= 0 || n > node.children@.len() {
        st
    } else {
        let s = fmt_rest_argument_upto(st, node, n - 1);
        let child = node.children@[n - 1];
        if child.kind@ == "type"@ {
            fmt_node(s, child)
        } else if child.kind@ == "old_type"@ {
            fmt_old_type(s, child)
        } else {
            fmt_node(s, child)
        }
    }
}

pub open spec fn fmt_argument_declarations_upto(st: FmtState, node: SyntaxNode, n: int) -> FmtState
    decreases n,
{
    if n <= 0 || n > node.children@.len() {
        st
    } else {
        let s = fmt_argument_declarations_upto(st, node, n - 1);
        let child = node.children@[n - 1];
        let k = child.kind@;
        if k == "("@ || k == ")"@ {
            fmt_node(s, child)
        } else if k == "rest_argument"@ {
            fmt_rest_argument_upto(s, child, child.children@.len() as int)
        } else if k == "argument_declaration"@ {
            fmt_argument_declaration(s, child)
        } else if k == ","@ {
            s.put(", "@)
        } else {
            fmt_node(s, child)
        }
    }
}

/// The parameters of a function: `(type name, ...)`.
pub open spec fn fmt_argument_declarations(st: FmtState, node: SyntaxNode) -> FmtState {
    fmt_argument_declarations_upto(st, node, node.children@.len() as int)
}

pub fn write_argument_declarations(node: &SyntaxNode, writer: &mut Writer)
    requires
        node.wf(),
    ensures
        final(writer)@ == fmt_argument_declarations(old(writer)@, *node),
        keeps_mode(old(writer)@, final(writer)@, *node),
{
    let ghost st0 = writer@;
    let mut i: usize = 0;
    while i < node.children.len()
        invariant
            i <= node.children@.len(),
            node.wf(),
            writer@ == fmt_argument_declarations_upto(st0, *node, i as int),
            keeps_mode(st0, writer@, *node),
        decreases node.children@.len() - i,
    {
        proof {
            lemma_child(*node, i as int);
        }
        let child = &node.children[i];
        let kind = child.kind.as_str();
        if str_eq(kind, "(") || str_eq(kind, ")") {
            write_node(child, writer);
        } else if str_eq(kind, "rest_argument") {
            let ghost st1 = writer@;
            let mut j: usize = 0;
            while j < child.children.len()
                invariant
                    j <= child.children@.len(),
                    writer@ == fmt_rest_argument_upto(st1, *child, j as int),
                    keeps_mode(st1, writer@, *node),
                decreases child.children@.len() - j,
            {
                let sub_child = &child.children[j];
                let sub_kind = sub_child.kind.as_str();
                if str_eq(sub_kind, "type") {
                    write_node(sub_child, writer);
                } else if str_eq(sub_kind, "old_type") {
                    write_old_type(sub_child, writer);
                } else {
                    write_node(sub_child, writer);
                }
                j += 1;
            }
        } else if str_eq(kind, "argument_declaration") {
            write_argument_declaration(child, writer);
        } else if str_eq(kind, ",") {
            writer.write_str(", ");
        } else {
            write_node(child, writer);
        }
        i += 1;
    }
}

pub open spec fn fmt_argument_declaration_upto(st: FmtState, node: SyntaxNode, n: int) -> FmtState
    decreases n,
{
    if n <= 0 || n > node.children@.len() {
        st
    } else {
        let s = fmt_argument_declaration_upto(st, node, n - 1);
        let child = node.children@[n - 1];
        let k = child.kind@;
        if k == "const"@ {
            s.put("const "@)
        } else if k == "argument_type"@ {
            fmt_argument_type(s, child)
        } else if k == "identifier"@ {
            fmt_node(s, child)
        } else if k == "dimension"@ {
            fmt_dimension(s, child, true)
        } else if k == "fixed_dimension"@ {
            let nk = next_kind(child);
            let s1 = fmt_fixed_dimension(s, child, true);
            if nk != "dimension"@ || nk != "fixed_dimension"@ {
                s1.put_char(' ')
            } else {
                s1
            }
        } else if k == "="@ {
            s.put(" = "@)
        } else {
            fmt_expression(s, child)
        }
    }
}

/// One parameter: `const`, its type, name, dimensions and default value.
pub open spec fn fmt_argument_declaration(st: FmtState, node: SyntaxNode) -> FmtState {
    fmt_argument_declaration_upto(st, node, node.children@.len() as int)
}

fn write_argument_declaration(node: &SyntaxNode, writer: &mut Writer)
    requires
        node.wf(),
    ensures
        final(writer)@ == fmt_argument_declaration(old(writer)@, *node),
        keeps_mode(old(writer)@, final(writer)@, *node),
{
    let ghost st0 = writer@;
    let mut i: usize = 0;
    while i < node.children.len()
        invariant
            i <= node.children@.len(),
            node.wf(),
            writer@ == fmt_argument_declaration_upto(st0, *node, i as int),
            keeps_mode(st0, writer@, *node),
        decreases node.children@.len() - i,
    {
        proof {
            lemma_child(*node, i as int);
        }
        let child = &node.children[i];
        let kind = child.kind.as_str();
        if str_eq(kind, "const") {
            writer.write_str("const ");
        } else if str_eq(kind, "argument_type") {
            write_argument_type(child, writer);
        } else if str_eq(kind, "identifier") {
            write_node(child, writer);
        } else if str_eq(kind, "dimension") {
            write_dimension(child, writer, true);
        } else if str_eq(kind, "fixed_dimension") {
            let next_kind = next_sibling_kind(child);
            write_fixed_dimension(child, writer, true);
            if !str_eq(next_kind.as_str(), "dimension") || !str_eq(
                next_kind.as_str(),
                "fixed_dimension",
            ) {
                writer.write(' ');
            }
        } else if str_eq(kind, "=") {
            writer.write_str(" = ");
        } else {
            write_expression(child, writer);
        }
        i += 1;
    }
}

pub open spec fn fmt_argument_type_upto(st: FmtState, node: SyntaxNode, n: int) -> FmtState
    decreases n,
{
    if n <= 0 || n > node.children@.len() {
        st
    } else {
        let s = fmt_argument_type_upto(st, node, n - 1);
        let child = node.children@[n - 1];
        let k = child.kind@;
        if k == "&"@ {
            let nk = next_kind(child);
            let s1 = s.put_char('&');
            if nk != "old_type"@ && nk.len() != 0 {
                s1.put_char(' ')
            } else {
                s1
            }
        } else if k == "type"@ {
            fmt_type(s, child)
        } else if k == "dimension"@ {
            fmt_dimension(s, child, true)
        } else {
            fmt_node(s, child)
        }
    }
}

/// The type of a parameter: `&`, type and dimensions.
pub open spec fn fmt_argument_type(st: FmtState, node: SyntaxNode) -> FmtState {
    fmt_argument_type_upto(st, node, node.children@.len() as int)
}

fn write_argument_type(node: &SyntaxNode, writer: &mut Writer)
    ensures
        final(writer)@ == fmt_argument_type(old(writer)@, *node),
        keeps_mode(old(writer)@, final(writer)@, *node),
{
    let ghost st0 = writer@;
    let mut i: usize = 0;
    while i < node.children.len()
        invariant
            i <= node.children@.len(),
            writer@ == fmt_argument_type_upto(st0, *node, i as int),
            keeps_mode(st0, writer@, *node),
        decreases node.children@.len() - i,
    {
        let child = &node.children[i];
        let kind = child.kind.as_str();
        if str_eq(kind, "&") {
            let next_kind = next_sibling_kind(child);
            writer.write('&');
            if !str_eq(next_kind.as_str(), "old_type") && !next_kind.as_str().is_empty() {
                writer.write(' ');
            }
        } else if str_eq(kind, "type") {
            write_type(child, writer);
        } else if str_eq(kind, "dimension") {
            write_dimension(child, writer, true);
        } else {
            write_node(child, writer);
        }
        i += 1;
    }
}

pub open spec fn fmt_function_visibility_upto(st: FmtState, node: SyntaxNode, n: int) -> FmtState
    decreases n,
{
    if n <= 0 || n > node.children@.len() {
        st
    } else {
        fmt_node(fmt_function_visibility_upto(st, node, n - 1), node.children@[n - 1]).put_char(' ')
    }
}

/// Each child, followed by a space.
pub open spec fn fmt_function_visibility(st: FmtState, node: SyntaxNode) -> FmtState {
    fmt_function_visibility_upto(st, node, node.children@.len() as int)
}

pub fn write_function_visibility(node: &SyntaxNode, writer: &mut Writer)
    ensures
        final(writer)@ == fmt_function_visibility(old(writer)@, *node),
        keeps_mode(old(writer)@, final(writer)@, *node),
{
    let ghost st0 = writer@;
    let mut i: usize = 0;
    while i < node.children.len()
        invariant
            i <= node.children@.len(),
            writer@ == fmt_function_visibility_upto(st0, *node, i as int),
            keeps_mode(st0, writer@, *node),
        decreases node.children@.len() - i,
    {
        write_node(&node.children[i], writer);
        writer.write(' ');
        i += 1;
    }
}

} // verus!
