use vstd::prelude::*;

use crate::syntax::SyntaxNode;
use crate::text::str_eq;
use super::{fmt_node, indent_if, keeps_mode, next_kind, next_sibling_kind, write_node, FmtState, Writer};

verus! {

/// A type: its text, and a space unless a dimension follows it.
pub open spec fn fmt_type(st: FmtState, node: SyntaxNode) -> FmtState {
    let st1 = fmt_node(st, node);
    let nk = next_kind(node);
    if nk != "dimension"@ && nk != "fixed_dimension"@ {
        st1.put_char(' ')
    } else {
        st1
    }
}

/// A variable declaration statement, indented where asked and otherwise
/// kept as it stands.
pub open spec fn fmt_variable_declaration_statement(
    st: FmtState,
    node: SyntaxNode,
    do_indent: bool,
) -> FmtState {
    fmt_node(indent_if(st, do_indent), node)
}

pub fn write_type(node: &SyntaxNode, writer: &mut Writer)
    ensures
        final(writer)@ == fmt_type(old(writer)@, *node),
        keeps_mode(old(writer)@, final(writer)@, *node),
{
    let next_kind = next_sibling_kind(node);
    write_node(node, writer);
    if !str_eq(next_kind.as_str(), "dimension") && !str_eq(next_kind.as_str(), "fixed_dimension") {
        writer.write(' ');
    }
}

pub fn write_variable_declaration_statement(node: &SyntaxNode, writer: &mut Writer, do_indent: bool)
    ensures
        final(writer)@ == fmt_variable_declaration_statement(old(writer)@, *node, do_indent),
        keeps_mode(old(writer)@, final(writer)@, *node),
{
    if do_indent {
        writer.write_indent();
    }
    write_node(node, writer);
}

pub fn write_old_variable_declaration_statement(
    node: &SyntaxNode,
    writer: &mut Writer,
    do_indent: bool,
)
    ensures
        final(writer)@ == fmt_variable_declaration_statement(old(writer)@, *node, do_indent),
        keeps_mode(old(writer)@, final(writer)@, *node),
{
    write_variable_declaration_statement(node, writer, do_indent);
}

} // verus!
