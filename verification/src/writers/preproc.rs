use vstd::prelude::*;

use crate::syntax::{lemma_child, SyntaxNode};
use crate::text::{str_eq, str_trim, trim};
use super::{
    fmt_comment, fmt_node, keeps_indent, keeps_mode, next_kind, next_sibling_kind,
    next_sibling_start, write_comment, write_node, FmtState, Writer,
};

verus! {

broadcast use vstd::std_specs::vec::group_vec_axioms;

/// The line break after a node: none before a comment on the same row, one
/// before anything else, and a second one where an empty row separated the
/// node from what follows; a single line break after the last node.
pub open spec fn fmt_insert_break(st: FmtState, node: SyntaxNode) -> FmtState {
    let nk = next_kind(node);
    if nk.len() == 0 {
        st.ln()
    } else {
        let next_row = node.next_sibling->0.start_position.row;
        let end_row = node.end_position.row;
        if nk == "comment"@ && next_row == end_row {
            st
        } else if next_row - end_row > 1 {
            st.ln().ln()
        } else {
            st.ln()
        }
    }
}

/// Check if there is an inline comment after the statement and don't
/// insert a line break if there is. Otherwise, insert a line break, and
/// an additional one if the following statement is there is more than one
/// empty row.
pub fn insert_break(node: &SyntaxNode, writer: &mut Writer)
    requires
        node.next_sibling matches Some(s) ==> s.start_position.row >= node.end_position.row,
    ensures
        final(writer)@ == fmt_insert_break(old(writer)@, *node),
        super::keeps_mode(old(writer)@, final(writer)@, *node),
{
    let next_kind = next_sibling_kind(node);
    if next_kind.as_str().is_empty() {
        // No next sibling, add a break and return.
        writer.write_ln();
        return ;
    }
    let next_row = next_sibling_start(node).unwrap().row;

    // If the next sibling is an inline comment, make sure it is on
    // the same line to avoid an unnecessary break.
    if str_eq(next_kind.as_str(), "comment") && next_row == node.end_position.row {
        return ;
    }
    // Insert a line break no matter what,
    // consecutive includes cannot be on the same line.
    writer.write_ln();

    // Check if the next sibling is right after this node.
    // If it's not, limit the amount of empty rows to 1.
    if next_row - node.end_position.row > 1 {
        writer.write_ln();
    }
}

pub open spec fn fmt_preproc_include_upto(st: FmtState, node: SyntaxNode, n: int) -> FmtState
    decreases n,
{
    if n <= 0 || n > node.children@.len() {
        st
    } else {
        let s = fmt_preproc_include_upto(st, node, n - 1);
        let child = node.children@[n - 1];
        let k = child.kind@;
        if k == "#include"@ || k == "#tryinclude"@ {
            fmt_node(s, child).put_char(' ')
        } else if k == "string_literal"@ || k == "system_lib_string"@ {
            fmt_node(s, child)
        } else {
            s
        }
    }
}

/// `#include <file>`, then a line break.
pub open spec fn fmt_preproc_include(st: FmtState, node: SyntaxNode) -> FmtState {
    fmt_insert_break(fmt_preproc_include_upto(st, node, node.children@.len() as int), node)
}

/// Write a preprocessor include.
pub fn write_preproc_include(node: &SyntaxNode, writer: &mut Writer)
    requires
        node.wf(),
    ensures
        final(writer)@ == fmt_preproc_include(old(writer)@, *node),
        keeps_mode(old(writer)@, final(writer)@, *node),
{
    let ghost st0 = writer@;
    let mut i: usize = 0;
    while i < node.children.len()
        invariant
            i <= node.children@.len(),
            writer@ == fmt_preproc_include_upto(st0, *node, i as int),
            keeps_mode(st0, writer@, *node),
        decreases node.children@.len() - i,
    {
        let child = &node.children[i];
        let kind = child.kind.as_str();
        if str_eq(kind, "#include") || str_eq(kind, "#tryinclude") {
            write_node(child, writer);
            writer.write(' ');
        } else if str_eq(kind, "string_literal") || str_eq(kind, "system_lib_string") {
            write_node(child, writer);
        }
        i += 1;
    }
    insert_break(node, writer);
}

pub open spec fn fmt_preproc_define_upto(st: FmtState, node: SyntaxNode, n: int) -> FmtState
    decreases n,
{
    if n <= 0 || n > node.children@.len() {
        st
    } else {
        let s = fmt_preproc_define_upto(st, node, n - 1);
        let child = node.children@[n - 1];
        let k = child.kind@;
        if k == "#define"@ {
            s.put("#define "@)
        } else if k == "symbol"@ || k == "identifier"@ || k == "macro_param"@ || k == "("@ || k
            == ")"@ {
            fmt_node(s, child)
        } else if k == "preproc_arg"@ {
            fmt_preproc_arg(s.put_char(' '), child)
        } else if k == ","@ {
            s.put(", "@)
        } else {
            s
        }
    }
}

/// `#define NAME value`, then a line break.
pub open spec fn fmt_preproc_define(st: FmtState, node: SyntaxNode) -> FmtState {
    fmt_insert_break(fmt_preproc_define_upto(st, node, node.children@.len() as int), node)
}

/// Write a preprocessor define or macro.
pub fn write_preproc_define(node: &SyntaxNode, writer: &mut Writer)
    requires
        node.wf(),
    ensures
        final(writer)@ == fmt_preproc_define(old(writer)@, *node),
        keeps_indent(old(writer)@, final(writer)@, *node),
{
    let ghost st0 = writer@;
    let mut i: usize = 0;
    while i < node.children.len()
        invariant
            i <= node.children@.len(),
            writer@ == fmt_preproc_define_upto(st0, *node, i as int),
            keeps_indent(st0, writer@, *node),
        decreases node.children@.len() - i,
    {
        let child = &node.children[i];
        let kind = child.kind.as_str();
        if str_eq(kind, "#define") {
            writer.write_str("#define ");
        } else if str_eq(kind, "symbol") || str_eq(kind, "identifier") || str_eq(kind, "macro_param")
            || str_eq(kind, "(") || str_eq(kind, ")") {
            write_node(child, writer);
        } else if str_eq(kind, "preproc_arg") {
            writer.write(' ');
            write_preproc_arg(child, writer);
        } else if str_eq(kind, ",") {
            writer.write_str(", ");
        }
        i += 1;
    }
    insert_break(node, writer);
}

pub open spec fn fmt_preproc_undefine_upto(st: FmtState, node: SyntaxNode, n: int) -> FmtState
    decreases n,
{
    if n <= 0 || n > node.children@.len() {
        st
    } else {
        let s = fmt_preproc_undefine_upto(st, node, n - 1);
        let child = node.children@[n - 1];
        let k = child.kind@;
        if k == "identifier"@ {
            fmt_node(s, child)
        } else if k == "#undef"@ {
            s.put("#undef "@)
        } else {
            s
        }
    }
}

/// `#undef NAME`, then a line break.
pub open spec fn fmt_preproc_undefine(st: FmtState, node: SyntaxNode) -> FmtState {
    fmt_insert_break(fmt_preproc_undefine_upto(st, node, node.children@.len() as int), node)
}

/// Write a preprocessor undef.
pub fn write_preproc_undefine(node: &SyntaxNode, writer: &mut Writer)
    requires
        node.wf(),
    ensures
        final(writer)@ == fmt_preproc_undefine(old(writer)@, *node),
        keeps_mode(old(writer)@, final(writer)@, *node),
{
    let ghost st0 = writer@;
    let mut i: usize = 0;
    while i < node.children.len()
        invariant
            i <= node.children@.len(),
            writer@ == fmt_preproc_undefine_upto(st0, *node, i as int),
            keeps_mode(st0, writer@, *node),
        decreases node.children@.len() - i,
    {
        let child = &node.children[i];
        let kind = child.kind.as_str();
        if str_eq(kind, "identifier") {
            write_node(child, writer);
        } else if str_eq(kind, "#undef") {
            writer.write_str("#undef ");
        }
        i += 1;
    }
    insert_break(node, writer);
}

pub open spec fn fmt_preproc_generic_upto(st: FmtState, node: SyntaxNode, n: int) -> FmtState
    decreases n,
{
    if n <= 0 || n > node.children@.len() {
        st
    } else {
        let s = fmt_preproc_generic_upto(st, node, n - 1);
        let child = node.children@[n - 1];
        let k = child.kind@;
        if k == "#if"@ || k == "#elseif"@ || k == "#error"@ || k == "#warning"@ || k == "#pragma"@
            || k == "#assert"@ {
            fmt_node(s, child).put_char(' ')
        } else if k == "preproc_arg"@ {
            fmt_preproc_arg(s, child)
        } else if k == "comment"@ {
            fmt_comment(s, child)
        } else {
            s
        }
    }
}

/// `#if`, `#elseif`, `#error`, `#warning`, `#pragma` or `#assert` with its
/// argument, then a line break.
pub open spec fn fmt_preproc_generic(st: FmtState, node: SyntaxNode) -> FmtState {
    fmt_insert_break(fmt_preproc_generic_upto(st, node, node.children@.len() as int), node)
}

/// Write a preprocessor generic: `#if`, `#elseif`, `#error`, `#warning`,
/// `#pragma` or `#assert`.
pub fn write_preproc_generic(node: &SyntaxNode, writer: &mut Writer)
    requires
        node.wf(),
    ensures
        final(writer)@ == fmt_preproc_generic(old(writer)@, *node),
        keeps_indent(old(writer)@, final(writer)@, *node),
{
    let ghost st0 = writer@;
    let mut i: usize = 0;
    while i < node.children.len()
        invariant
            i <= node.children@.len(),
            node.wf(),
            writer@ == fmt_preproc_generic_upto(st0, *node, i as int),
            keeps_indent(st0, writer@, *node),
        decreases node.children@.len() - i,
    {
        proof {
            lemma_child(*node, i as int);
        }
        let child = &node.children[i];
        let kind = child.kind.as_str();
        if str_eq(kind, "#if") || str_eq(kind, "#elseif") || str_eq(kind, "#error") || str_eq(
            kind,
            "#warning",
        ) || str_eq(kind, "#pragma") || str_eq(kind, "#assert") {
            write_node(child, writer);
            writer.write(' ');
        } else if str_eq(kind, "preproc_arg") {
            // got identifier and value together for preproc_arg here
            write_preproc_arg(child, writer);
        } else if str_eq(kind, "comment") {
            write_comment(child, writer);
        }
        i += 1;
    }
    insert_break(node, writer);
}

/// `#else`, `#endif`, `#endinput` or a symbol, then a line break.
pub open spec fn fmt_preproc_symbol(st: FmtState, node: SyntaxNode) -> FmtState {
    let k = node.kind@;
    let st1 = if k == "preproc_endif"@ || k == "preproc_else"@ || k == "preproc_endinput"@ || k
        == "identifier"@ {
        fmt_node(st, node)
    } else {
        st
    };
    fmt_insert_break(st1, node)
}

/// Write a preprocessor symbol: `#else`, `#endif`, `#endinput` or a symbol.
pub fn write_preproc_symbol(node: &SyntaxNode, writer: &mut Writer)
    requires
        node.wf(),
    ensures
        final(writer)@ == fmt_preproc_symbol(old(writer)@, *node),
        keeps_mode(old(writer)@, final(writer)@, *node),
{
    let kind = node.kind.as_str();
    if str_eq(kind, "preproc_endif") || str_eq(kind, "preproc_else") || str_eq(
        kind,
        "preproc_endinput",
    ) || str_eq(kind, "identifier") {
        write_node(node, writer);
    }
    insert_break(node, writer);
}

/// The trimmed arguments of a directive; `semicolon 1` turns on the mode in
/// which statements get a `;`.
pub open spec fn fmt_preproc_arg(st: FmtState, node: SyntaxNode) -> FmtState {
    let args = trim(node.text@);
    let st1 = if args == "semicolon 1"@ {
        FmtState { semicolon: true, ..st }
    } else {
        st
    };
    st1.put(args)
}

/// Write a preprocessor arguments node by trimming it.
fn write_preproc_arg(node: &SyntaxNode, writer: &mut Writer)
    ensures
        final(writer)@ == fmt_preproc_arg(old(writer)@, *node),
        keeps_indent(old(writer)@, final(writer)@, *node),
{
    let args = str_trim(node.text.as_str());
    if str_eq(args, "semicolon 1") {
        writer.semicolon = true;
    }
    writer.write_str(args);
}

} // verus!
