use vstd::prelude::*;

use crate::syntax::SyntaxNode;
use crate::text::str_eq;
use super::preproc::{fmt_insert_break, insert_break};
use super::{fmt_node, keeps_mode, write_node, FmtState, Writer};

verus! {

broadcast use vstd::std_specs::vec::group_vec_axioms;

pub open spec fn fmt_hardcoded_symbol_upto(st: FmtState, node: SyntaxNode, n: int) -> FmtState
    decreases n,
{
    if n <= 0 || n > node.children@.len() {
        st
    } else {
        let s = fmt_hardcoded_symbol_upto(st, node, n - 1);
        let child = node.children@[n - 1];
        if child.kind@ == "using __intrinsics__.Handle"@ {
            fmt_node(s, child)
        } else {
            s
        }
    }
}

/// `using __intrinsics__.Handle`, then `;` and a line break.
pub open spec fn fmt_hardcoded_symbol(st: FmtState, node: SyntaxNode) -> FmtState {
    fmt_insert_break(
        fmt_hardcoded_symbol_upto(st, node, node.children@.len() as int).put_char(';'),
        node,
    )
}

pub fn write_hardcoded_symbol(node: &SyntaxNode, writer: &mut Writer)
    requires
        node.wf(),
    ensures
        final(writer)@ == fmt_hardcoded_symbol(old(writer)@, *node),
        keeps_mode(old(writer)@, final(writer)@, *node),
{
    let ghost st0 = writer@;
    let mut i: usize = 0;
    while i < node.children.len()
        invariant
            i <= node.children@.len(),
            writer@ == fmt_hardcoded_symbol_upto(st0, *node, i as int),
            keeps_mode(st0, writer@, *node),
        decreases node.children@.len() - i,
    {
        let child = &node.children[i];
        if str_eq(child.kind.as_str(), "using __intrinsics__.Handle") {
            write_node(child, writer);
        }
        i += 1;
    }
    writer.write(';');
    insert_break(node, writer);
}

} // verus!
