use vstd::prelude::*;

use crate::syntax::{lemma_child, SyntaxNode};
use crate::text::str_eq;
use super::expressions::{fmt_function_call_arguments, write_function_call_arguments};
use super::preproc::{fmt_insert_break, insert_break};
use super::{fmt_comment, fmt_node, keeps_mode, write_comment, write_node, FmtState, Writer};

verus! {

broadcast use vstd::std_specs::vec::group_vec_axioms;

pub open spec fn fmt_assertion_upto(st: FmtState, node: SyntaxNode, n: int) -> FmtState
    decreases n,
{
    if n <= 0 || n > node.children@.len() {
        st
    } else {
        let s = fmt_assertion_upto(st, node, n - 1);
        let child = node.children@[n - 1];
        let k = child.kind@;
        if k == "assert"@ || k == "static_assert"@ {
            fmt_node(s, child)
        } else if k == "function_call_arguments"@ {
            fmt_function_call_arguments(s, child)
        } else if k == "comment"@ {
            fmt_comment(s, child)
        } else {
            s
        }
    }
}

/// `assert(...)` or `static_assert(...)`, then `;` and a line break.
pub open spec fn fmt_assertion(st: FmtState, node: SyntaxNode) -> FmtState {
    fmt_insert_break(
        fmt_assertion_upto(st, node, node.children@.len() as int).put_char(';'),
        node,
    )
}

pub fn write_assertion(node: &SyntaxNode, writer: &mut Writer)
    requires
        node.wf(),
    ensures
        final(writer)@ == fmt_assertion(old(writer)@, *node),
        keeps_mode(old(writer)@, final(writer)@, *node),
{
    let ghost st0 = writer@;
    let mut i: usize = 0;
    while i < node.children.len()
        invariant
            i <= node.children@.len(),
            node.wf(),
            writer@ == fmt_assertion_upto(st0, *node, i as int),
            keeps_mode(st0, writer@, *node),
        decreases node.children@.len() - i,
    {
        proof {
            lemma_child(*node, i as int);
        }
        let child = &node.children[i];
        let kind = child.kind.as_str();
        if str_eq(kind, "assert") || str_eq(kind, "static_assert") {
            write_node(child, writer);
        } else if str_eq(kind, "function_call_arguments") {
            write_function_call_arguments(child, writer);
        } else if str_eq(kind, "comment") {
            write_comment(child, writer);
        }
        i += 1;
    }
    writer.write(';');
    insert_break(node, writer);
}

} // verus!
