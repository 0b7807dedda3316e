use vstd::prelude::*;

use crate::syntax::{lemma_child, SyntaxNode};
use crate::text::str_eq;
use super::expressions::{fmt_old_type, write_old_type};
use super::functions::{
    breaks_wanted, fmt_argument_declarations, fmt_function_body, fmt_function_visibility,
    wants_breaks, write_argument_declarations, write_function_body, write_function_visibility,
};
use super::statements::{fmt_statement, write_statement};
use super::variables::{fmt_type, write_type};
use super::{
    fmt_dimension, fmt_node, moves_within, prev_kind, prev_sibling_kind, within_children,
    write_dimension, write_node, FmtState, Writer,
};

verus! {

broadcast use vstd::std_specs::vec::group_vec_axioms;

/// The empty lines before an alias, unless it follows another of its kind.
pub open spec fn fmt_alias_breaks(st: FmtState, node: SyntaxNode, nb_lines: u32, same: Seq<char>) -> FmtState {
    let pk = prev_kind(node);
    if breaks_wanted(pk) && pk != same {
        st.lns(nb_lines as nat)
    } else {
        st
    }
}

pub fn write_alias_breaks(node: &SyntaxNode, writer: &mut Writer, nb_lines: u32, same: &str)
    ensures
        final(writer)@ == fmt_alias_breaks(old(writer)@, *node, nb_lines, same@),
        super::keeps_mode(old(writer)@, final(writer)@, *node),
{
    let prev_kind = prev_sibling_kind(node);
    if wants_breaks(prev_kind.as_str()) && !str_eq(prev_kind.as_str(), same) {
        // Insert new lines automatically
        writer.write_lns(nb_lines as usize);
    }
}

pub open spec fn fmt_alias_declaration_upto(st: FmtState, node: SyntaxNode, n: int) -> FmtState
    decreases n,
{
    if n <= 0 || n > node.children@.len() {
        st
    } else {
        let s = fmt_alias_declaration_upto(st, node, n - 1);
        let child = node.children@[n - 1];
        let k = child.kind@;
        if k == "function_visibility"@ {
            fmt_function_visibility(s, child)
        } else if k == "type"@ {
            fmt_type(s, child)
        } else if k == "old_type"@ {
            fmt_old_type(s, child)
        } else if k == "dimension"@ {
            fmt_dimension(s, child, true)
        } else if k == "alias_operator"@ || k == "operator"@ {
            fmt_node(s, child)
        } else if k == "parameter_declarations"@ {
            fmt_argument_declarations(s, child)
        } else if k == "block"@ {
            fmt_function_body(s, child, s.settings.brace_wrapping.before_function)
        } else if s.is_statement(k) {
            fmt_statement(s, child, false, false)
        } else {
            s
        }
    }
}

/// An operator alias declaration, and a line break.
pub open spec fn fmt_alias_declaration(st: FmtState, node: SyntaxNode) -> FmtState {
    let st1 = fmt_alias_breaks(
        st,
        node,
        st.settings.breaks.after_function_decl,
        "alias_declaration"@,
    );
    fmt_alias_declaration_upto(st1, node, node.children@.len() as int).ln()
}

pub fn write_alias_declaration(node: &SyntaxNode, writer: &mut Writer)
    requires
        node.wf(),
        old(writer).indent + node.size <= usize::MAX,
    ensures
        final(writer)@ == fmt_alias_declaration(old(writer)@, *node),
        moves_within(old(writer)@, final(writer)@, *node),
{
    let nb_lines = writer.settings.breaks.after_function_decl;
    write_alias_breaks(node, writer, nb_lines, "alias_declaration");
    let ghost st0 = writer@;
    let mut i: usize = 0;
    while i < node.children.len()
        invariant
            i <= node.children@.len(),
            node.wf(),
            st0.indent + node.size <= usize::MAX,
            writer@ == fmt_alias_declaration_upto(st0, *node, i as int),
            within_children(st0, writer@, *node, i as int),
        decreases node.children@.len() - i,
    {
        proof {
            lemma_child(*node, i as int);
        }
        let child = &node.children[i];
        let kind = child.kind.as_str();
        if str_eq(kind, "function_visibility") {
            write_function_visibility(child, writer);
        } else if str_eq(kind, "type") {
            write_type(child, writer);
        } else if str_eq(kind, "old_type") {
            write_old_type(child, writer);
        } else if str_eq(kind, "dimension") {
            write_dimension(child, writer, true);
        } else if str_eq(kind, "alias_operator") || str_eq(kind, "operator") {
            write_node(child, writer);
        } else if str_eq(kind, "parameter_declarations") {
            write_argument_declarations(child, writer);
        } else if str_eq(kind, "block") {
            let wrap = writer.settings.brace_wrapping.before_function;
            write_function_body(child, writer, wrap);
        } else if writer.is_statement(kind) {
            write_statement(child, writer, false, false);
        }
        i += 1;
    }
    writer.write_ln();
}

pub open spec fn fmt_alias_assignment_upto(st: FmtState, node: SyntaxNode, n: int) -> FmtState
    decreases n,
{
    if n <= 0 || n > node.children@.len() {
        st
    } else {
        let s = fmt_alias_assignment_upto(st, node, n - 1);
        let child = node.children@[n - 1];
        let k = child.kind@;
        if k == "function_definition_type"@ {
            fmt_function_visibility(s, child)
        } else if k == "type"@ {
            fmt_type(s, child)
        } else if k == "old_type"@ {
            fmt_old_type(s, child)
        } else if k == "identifier"@ {
            fmt_node(s, child)
        } else if k == "dimension"@ {
            fmt_dimension(s, child, true)
        } else if k == "="@ {
            s.put(" = "@)
        } else if k == "alias_operator"@ || k == "operator"@ {
            fmt_node(s, child)
        } else if k == "parameter_declarations"@ {
            fmt_argument_declarations(s, child)
        } else if k == ";"@ {
            s.put_char(';')
        } else if s.is_statement(k) {
            fmt_statement(s, child, false, false)
        } else {
            s
        }
    }
}

/// An operator alias assignment, and a line break.
pub open spec fn fmt_alias_assignment(st: FmtState, node: SyntaxNode) -> FmtState {
    let st1 = fmt_alias_breaks(
        st,
        node,
        st.settings.breaks.before_function_def,
        "alias_assignment"@,
    );
    fmt_alias_assignment_upto(st1, node, node.children@.len() as int).ln()
}

pub fn write_alias_assignment(node: &SyntaxNode, writer: &mut Writer)
    requires
        node.wf(),
        old(writer).indent + node.size <= usize::MAX,
    ensures
        final(writer)@ == fmt_alias_assignment(old(writer)@, *node),
        moves_within(old(writer)@, final(writer)@, *node),
{
    let nb_lines = writer.settings.breaks.before_function_def;
    write_alias_breaks(node, writer, nb_lines, "alias_assignment");
    let ghost st0 = writer@;
    let mut i: usize = 0;
    while i < node.children.len()
        invariant
            i <= node.children@.len(),
            node.wf(),
            st0.indent + node.size <= usize::MAX,
            writer@ == fmt_alias_assignment_upto(st0, *node, i as int),
            within_children(st0, writer@, *node, i as int),
        decreases node.children@.len() - i,
    {
        proof {
            lemma_child(*node, i as int);
        }
        let child = &node.children[i];
        let kind = child.kind.as_str();
        if str_eq(kind, "function_definition_type") {
            write_function_visibility(child, writer);
        } else if str_eq(kind, "type") {
            write_type(child, writer);
        } else if str_eq(kind, "old_type") {
            write_old_type(child, writer);
        } else if str_eq(kind, "identifier") {
            write_node(child, writer);
        } else if str_eq(kind, "dimension") {
            write_dimension(child, writer, true);
        } else if str_eq(kind, "=") {
            writer.write_str(" = ");
        } else if str_eq(kind, "alias_operator") || str_eq(kind, "operator") {
            write_node(child, writer);
        } else if str_eq(kind, "parameter_declarations") {
            write_argument_declarations(child, writer);
        } else if str_eq(kind, ";") {
            writer.write(';');
        } else if writer.is_statement(kind) {
            write_statement(child, writer, false, false);
        }
        i += 1;
    }
    writer.write_ln();
}

} // verus!
