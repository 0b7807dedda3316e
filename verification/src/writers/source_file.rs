use vstd::prelude::*;

use crate::syntax::{lemma_child, SyntaxNode};
use crate::text::str_eq;
use super::alias::{
    fmt_alias_assignment, fmt_alias_declaration, write_alias_assignment, write_alias_declaration,
};
use super::assertions::{fmt_assertion, write_assertion};
use super::enum_structs::{fmt_enum_struct, write_enum_struct};
use super::enums::{fmt_enum, write_enum};
use super::functags::{fmt_funcenum, fmt_functag, write_funcenum, write_functag};
use super::functions::{fmt_function_declaration, write_function_declaration};
use super::hardcoded_symbols::{fmt_hardcoded_symbol, write_hardcoded_symbol};
use super::methodmaps::{fmt_methodmap, write_methodmap};
use super::preproc::{
    fmt_insert_break, fmt_preproc_define, fmt_preproc_generic, fmt_preproc_include,
    fmt_preproc_symbol, fmt_preproc_undefine, insert_break, write_preproc_define,
    write_preproc_generic, write_preproc_include, write_preproc_symbol, write_preproc_undefine,
};
use super::structs::{fmt_struct, fmt_struct_declaration, write_struct, write_struct_declaration};
use super::typedefs::{fmt_typedef, fmt_typeset, write_typedef, write_typeset};
use super::{fmt_comment, fmt_node, moves_at_top, within_items, write_comment, write_node, FmtState, Writer};

verus! {

broadcast use vstd::std_specs::vec::group_vec_axioms;

/// One top-level item, written by the writer of its kind; an item of any
/// other kind (a global variable, for one) is kept as it stands and
/// followed by a line break.
pub open spec fn fmt_top_level_item(st: FmtState, node: SyntaxNode) -> FmtState {
    let k = node.kind@;
    if k == "comment"@ {
        fmt_comment(st, node)
    } else if k == "preproc_include"@ || k == "preproc_tryinclude"@ {
        fmt_preproc_include(st, node)
    } else if k == "preproc_define"@ || k == "preproc_macro"@ {
        fmt_preproc_define(st, node)
    } else if k == "preproc_undefine"@ {
        fmt_preproc_undefine(st, node)
    } else if k == "preproc_if"@ || k == "preproc_elseif"@ || k == "preproc_error"@ || k
        == "preproc_warning"@ || k == "preproc_pragma"@ || k == "preproc_assert"@ {
        fmt_preproc_generic(st, node)
    } else if k == "preproc_endif"@ || k == "preproc_else"@ || k == "preproc_endinput"@ {
        fmt_preproc_symbol(st, node)
    } else if k == "function_declaration"@ || k == "function_definition"@ {
        fmt_function_declaration(st, node)
    } else if k == "enum"@ {
        fmt_enum(st, node)
    } else if k == "enum_struct"@ {
        fmt_enum_struct(st, node)
    } else if k == "typedef"@ {
        fmt_typedef(st, node)
    } else if k == "typeset"@ {
        fmt_typeset(st, node)
    } else if k == "functag"@ {
        fmt_functag(st, node)
    } else if k == "funcenum"@ {
        fmt_funcenum(st, node)
    } else if k == "methodmap"@ {
        fmt_methodmap(st, node)
    } else if k == "struct"@ {
        fmt_struct(st, node)
    } else if k == "struct_declaration"@ {
        fmt_struct_declaration(st, node)
    } else if k == "alias_declaration"@ {
        fmt_alias_declaration(st, node)
    } else if k == "alias_assignment"@ {
        fmt_alias_assignment(st, node)
    } else if k == "hardcoded_symbol"@ {
        fmt_hardcoded_symbol(st, node)
    } else if k == "assertion"@ {
        fmt_assertion(st, node)
    } else {
        fmt_insert_break(fmt_node(st, node), node)
    }
}

pub fn write_top_level_item(node: &SyntaxNode, writer: &mut Writer)
    requires
        node.wf(),
        old(writer).indent + node.size <= usize::MAX,
    ensures
        final(writer)@ == fmt_top_level_item(old(writer)@, *node),
        moves_at_top(old(writer)@, final(writer)@, *node),
{
    let kind = node.kind.as_str();
    if str_eq(kind, "comment") {
        write_comment(node, writer);
    } else if str_eq(kind, "preproc_include") || str_eq(kind, "preproc_tryinclude") {
        write_preproc_include(node, writer);
    } else if str_eq(kind, "preproc_define") || str_eq(kind, "preproc_macro") {
        write_preproc_define(node, writer);
    } else if str_eq(kind, "preproc_undefine") {
        write_preproc_undefine(node, writer);
    } else if str_eq(kind, "preproc_if") || str_eq(kind, "preproc_elseif") || str_eq(
        kind,
        "preproc_error",
    ) || str_eq(kind, "preproc_warning") || str_eq(kind, "preproc_pragma") || str_eq(
        kind,
        "preproc_assert",
    ) {
        write_preproc_generic(node, writer);
    } else if str_eq(kind, "preproc_endif") || str_eq(kind, "preproc_else") || str_eq(
        kind,
        "preproc_endinput",
    ) {
        write_preproc_symbol(node, writer);
    } else if str_eq(kind, "function_declaration") || str_eq(kind, "function_definition") {
        write_function_declaration(node, writer);
    } else if str_eq(kind, "enum") {
        write_enum(node, writer);
    } else if str_eq(kind, "enum_struct") {
        write_enum_struct(node, writer);
    } else if str_eq(kind, "typedef") {
        write_typedef(node, writer);
    } else if str_eq(kind, "typeset") {
        write_typeset(node, writer);
    } else if str_eq(kind, "functag") {
        write_functag(node, writer);
    } else if str_eq(kind, "funcenum") {
        write_funcenum(node, writer);
    } else if str_eq(kind, "methodmap") {
        write_methodmap(node, writer);
    } else if str_eq(kind, "struct") {
        write_struct(node, writer);
    } else if str_eq(kind, "struct_declaration") {
        write_struct_declaration(node, writer);
    } else if str_eq(kind, "alias_declaration") {
        write_alias_declaration(node, writer);
    } else if str_eq(kind, "alias_assignment") {
        write_alias_assignment(node, writer);
    } else if str_eq(kind, "hardcoded_symbol") {
        write_hardcoded_symbol(node, writer);
    } else if str_eq(kind, "assertion") {
        write_assertion(node, writer);
    } else {
        write_node(node, writer);
        insert_break(node, writer);
    }
}

pub open spec fn fmt_source_file_upto(st: FmtState, node: SyntaxNode, n: int) -> FmtState
    decreases n,
{
    if n <= 0 || n > node.children@.len() {
        st
    } else {
        fmt_top_level_item(fmt_source_file_upto(st, node, n - 1), node.children@[n - 1])
    }
}

/// A whole source file: each top-level item in turn.
pub open spec fn fmt_source_file(st: FmtState, node: SyntaxNode) -> FmtState {
    fmt_source_file_upto(st, node, node.children@.len() as int)
}

pub fn write_source_file(node: &SyntaxNode, writer: &mut Writer)
    requires
        node.wf(),
        old(writer).indent + node.size <= usize::MAX,
    ensures
        final(writer)@ == fmt_source_file(old(writer)@, *node),
        moves_at_top(old(writer)@, final(writer)@, *node),
{
    let ghost st0 = writer@;
    let mut i: usize = 0;
    while i < node.children.len()
        invariant
            i <= node.children@.len(),
            node.wf(),
            st0.indent + node.size <= usize::MAX,
            writer@ == fmt_source_file_upto(st0, *node, i as int),
            within_items(st0, writer@, *node, i as int),
        decreases node.children@.len() - i,
    {
        proof {
            lemma_child(*node, i as int);
        }
        write_top_level_item(&node.children[i], writer);
        i += 1;
    }
}

} // verus!
