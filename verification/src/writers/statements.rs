use vstd::prelude::*;

use crate::syntax::{brace_balance, lemma_child, sizes_upto, SyntaxNode};
use crate::text::{str_ends_with, str_eq};
use super::expressions::{fmt_expression, write_expression};
use super::variables::{
    fmt_variable_declaration_statement, write_old_variable_declaration_statement,
    write_variable_declaration_statement,
};
use super::{
    extends, fmt_comment, fmt_node, indent_if, keeps_mode, moves_within, tracks_braces, within_children,
    write_comment, write_node, FmtState, Writer,
};

verus! {

broadcast use vstd::std_specs::vec::group_vec_axioms;

/// The line breaks after a statement: none before a comment on the same row,
/// two where an empty row separates it from the next sibling, one otherwise.
pub open spec fn fmt_statement_break(st: FmtState, node: SyntaxNode) -> FmtState {
    match node.next_sibling {
        None => st.ln(),
        Some(next) => {
            let gap = next.start_position.row - node.end_position.row;
            if next.kind@ == "comment"@ && gap == 0 {
                st
            } else if gap > 1 {
                st.ln().ln()
            } else {
                st.ln()
            }
        },
    }
}

/// A statement kind that never gets a `;` appended.
pub open spec fn ends_without_semicolon(k: Seq<char>) -> bool {
    k == "block"@ || k == "for_statement"@ || k == "while_loop"@ || k == "condition_statement"@
        || k == "switch_statement"@
}

/// A statement: written by the writer of its kind, then `;` where the
/// semicolon mode asks for it, then line breaks where asked.
pub open spec fn fmt_statement(st: FmtState, node: SyntaxNode, do_indent: bool, do_break: bool) -> FmtState
    decreases node, node.children@.len() + 20,
{
    let st1 = fmt_statement_body(st, node, do_indent);
    let st2 = if !ends_without_semicolon(node.kind@) && st1.semicolon {
        st1.put(";"@)
    } else {
        st1
    };
    if do_break {
        fmt_statement_break(st2, node)
    } else {
        st2
    }
}

/// A statement as the writer of its kind writes it.
pub open spec fn fmt_statement_body(st: FmtState, node: SyntaxNode, do_indent: bool) -> FmtState
    decreases node, node.children@.len() + 15,
{
    let k = node.kind@;
    if k == "block"@ {
        fmt_block(st, node, do_indent)
    } else if k == "for_statement"@ {
        fmt_for_loop(st, node, do_indent)
    } else if k == "while_loop"@ {
        fmt_while_loop(st, node, do_indent)
    } else if k == "condition_statement"@ {
        fmt_condition_statement(st, node, do_indent)
    } else if k == "switch_statement"@ {
        fmt_switch_statement(st, node, do_indent)
    } else if k == "variable_declaration_statement"@ || k == "old_variable_declaration_statement"@ {
        fmt_variable_declaration_statement(st, node, do_indent)
    } else if k == "do_while_loop"@ {
        fmt_do_while_loop(st, node, do_indent)
    } else if k == "break_statement"@ {
        indent_if(st, do_indent).put("break"@)
    } else if k == "continue_statement"@ {
        indent_if(st, do_indent).put("continue"@)
    } else if k == "return_statement"@ {
        fmt_return_statement(st, node, do_indent)
    } else if k == "delete_statement"@ {
        fmt_delete_statement(st, node, do_indent)
    } else if k == "expression_statement"@ {
        fmt_expression_statement(indent_if(st, do_indent), node)
    } else {
        fmt_node(st, node)
    }
}

/// A statement on a line of its own, one level deeper.
pub open spec fn fmt_indented_statement(st: FmtState, node: SyntaxNode) -> FmtState
    decreases node, node.children@.len() + 21,
{
    let st1 = st.ln();
    let st2 = fmt_statement(st1.with_indent(st1.indent + 1), node, true, false);
    st2.with_indent(st2.indent - 1)
}

/// The body block of a loop or condition: on a new line where `wrap`, after
/// a space otherwise.
pub open spec fn fmt_body_block(st: FmtState, node: SyntaxNode, wrap: bool) -> FmtState
    decreases node, node.children@.len() + 11,
{
    if wrap {
        fmt_block(st.ln(), node, true)
    } else {
        fmt_block(st.put_char(' '), node, false)
    }
}

/// A space after a `;` that ends the output.
pub open spec fn space_after_semicolon(st: FmtState) -> FmtState {
    if st.ends_with(";"@) {
        st.put_char(' ')
    } else {
        st
    }
}

pub open spec fn fmt_for_upto(st: FmtState, node: SyntaxNode, do_indent: bool, n: int) -> (
    FmtState,
    bool,
    bool,
)
    decreases node, n,
{
    if n <= 0 || n > node.children@.len() {
        (st, false, false)
    } else {
        let (s, end_reached, got_condition) = fmt_for_upto(st, node, do_indent, n - 1);
        let child = node.children@[n - 1];
        let k = child.kind@;
        if k == "for"@ {
            (fmt_node(indent_if(s, do_indent), child), end_reached, got_condition)
        } else if k == "("@ {
            (fmt_node(s, child), end_reached, got_condition)
        } else if k == ")"@ {
            (fmt_node(s, child), true, got_condition)
        } else if s.is_statement(k) {
            if !end_reached {
                (fmt_statement(s, child, false, false), end_reached, got_condition)
            } else if k == "block"@ {
                (
                    fmt_body_block(s, child, s.settings.brace_wrapping.before_loop),
                    end_reached,
                    got_condition,
                )
            } else {
                (fmt_indented_statement(s, child), end_reached, got_condition)
            }
        } else if s.is_expression(k) {
            let s1 = fmt_expression(space_after_semicolon(s), child);
            if !got_condition {
                (s1.put("; "@), end_reached, true)
            } else {
                (s1, end_reached, got_condition)
            }
        } else {
            (fmt_node(s, child), end_reached, got_condition)
        }
    }
}

/// A `for` loop: header, then its body.
pub open spec fn fmt_for_loop(st: FmtState, node: SyntaxNode, do_indent: bool) -> FmtState
    decreases node, node.children@.len() + 10,
{
    fmt_for_upto(st, node, do_indent, node.children@.len() as int).0
}

pub open spec fn fmt_while_upto(st: FmtState, node: SyntaxNode, do_indent: bool, n: int) -> (
    FmtState,
    bool,
)
    decreases node, n,
{
    if n <= 0 || n > node.children@.len() {
        (st, false)
    } else {
        let (s, end_reached) = fmt_while_upto(st, node, do_indent, n - 1);
        let child = node.children@[n - 1];
        let k = child.kind@;
        if k == "while"@ {
            (fmt_node(indent_if(s, do_indent), child), end_reached)
        } else if k == "("@ {
            (fmt_node(s, child), end_reached)
        } else if k == ")"@ {
            (fmt_node(s, child), true)
        } else if s.is_statement(k) {
            if end_reached {
                if k == "block"@ {
                    (fmt_body_block(s, child, s.settings.brace_wrapping.before_loop), end_reached)
                } else {
                    (fmt_indented_statement(s, child), end_reached)
                }
            } else {
                (fmt_statement(s, child, false, false), end_reached)
            }
        } else if s.is_expression(k) {
            (fmt_expression(space_after_semicolon(s), child), end_reached)
        } else {
            (fmt_node(s, child), end_reached)
        }
    }
}

/// A `while` loop: header, then its body.
pub open spec fn fmt_while_loop(st: FmtState, node: SyntaxNode, do_indent: bool) -> FmtState
    decreases node, node.children@.len() + 10,
{
    fmt_while_upto(st, node, do_indent, node.children@.len() as int).0
}

pub open spec fn fmt_do_while_upto(st: FmtState, node: SyntaxNode, do_indent: bool, n: int) -> (
    FmtState,
    bool,
)
    decreases node, n,
{
    if n <= 0 || n > node.children@.len() {
        (st, false)
    } else {
        let (s, in_condition) = fmt_do_while_upto(st, node, do_indent, n - 1);
        let child = node.children@[n - 1];
        let k = child.kind@;
        if k == "do"@ {
            (indent_if(s, do_indent).put("do"@), in_condition)
        } else if k == "while"@ {
            (s.put_indent().put("while"@), true)
        } else if k == "("@ || k == ")"@ {
            (fmt_node(s, child), in_condition)
        } else if s.is_statement(k) {
            if in_condition {
                (fmt_statement(s, child, false, false), in_condition)
            } else if k == "block"@ {
                (fmt_body_block(s, child, s.settings.brace_wrapping.before_loop).ln(), in_condition)
            } else {
                (fmt_indented_statement(s, child), in_condition)
            }
        } else if s.is_expression(k) {
            (fmt_expression(space_after_semicolon(s), child), in_condition)
        } else {
            (fmt_node(s, child), in_condition)
        }
    }
}

/// A `do ... while (...)` loop.
pub open spec fn fmt_do_while_loop(st: FmtState, node: SyntaxNode, do_indent: bool) -> FmtState
    decreases node, node.children@.len() + 10,
{
    fmt_do_while_upto(st, node, do_indent, node.children@.len() as int).0
}

pub open spec fn fmt_switch_upto(st: FmtState, node: SyntaxNode, do_indent: bool, n: int) -> FmtState
    decreases node, n,
{
    if n <= 0 || n > node.children@.len() {
        st
    } else {
        let s = fmt_switch_upto(st, node, do_indent, n - 1);
        let child = node.children@[n - 1];
        let k = child.kind@;
        if k == "switch"@ {
            indent_if(s, do_indent).put("switch"@)
        } else if k == "("@ || k == ")"@ {
            fmt_node(s, child)
        } else if k == "{"@ {
            let s1 = if s.settings.brace_wrapping.before_condition {
                s.ln().put_indent()
            } else {
                s.put_char(' ')
            };
            let s2 = s1.put_char('{').ln();
            s2.with_indent(s2.indent + 1)
        } else if k == "}"@ {
            s.with_indent(s.indent - 1).put_indent().put_char('}')
        } else if k == "switch_case"@ {
            fmt_switch_case(s, child)
        } else if k == "switch_default_case"@ {
            fmt_switch_default_case(s, child)
        } else if s.is_expression(k) {
            fmt_expression(s, child)
        } else {
            fmt_node(s, child)
        }
    }
}

/// A `switch` statement: its cases one level deeper than the braces.
pub open spec fn fmt_switch_statement(st: FmtState, node: SyntaxNode, do_indent: bool) -> FmtState
    decreases node, node.children@.len() + 10,
{
    fmt_switch_upto(st, node, do_indent, node.children@.len() as int)
}

pub open spec fn fmt_switch_case_upto(st: FmtState, node: SyntaxNode, n: int) -> FmtState
    decreases node, n,
{
    if n <= 0 || n > node.children@.len() {
        st
    } else {
        let s = fmt_switch_case_upto(st, node, n - 1);
        let child = node.children@[n - 1];
        let k = child.kind@;
        if k == "case"@ {
            fmt_node(s.put_indent(), child).put_char(' ')
        } else if k == ":"@ {
            s.put(":\n"@)
        } else if k == "switch_case_values"@ {
            fmt_switch_case_values(s, child)
        } else if k == "comment"@ {
            fmt_comment(s, child)
        } else if k == "block"@ {
            fmt_statement(s, child, true, true)
        } else if s.is_statement(k) {
            let s1 = fmt_statement(s.with_indent(s.indent + 1), child, true, true);
            s1.with_indent(s1.indent - 1)
        } else {
            fmt_node(s, child)
        }
    }
}

/// A `case` of a switch: its statements one level deeper.
pub open spec fn fmt_switch_case(st: FmtState, node: SyntaxNode) -> FmtState
    decreases node, node.children@.len() + 10,
{
    fmt_switch_case_upto(st, node, node.children@.len() as int)
}

pub open spec fn fmt_switch_default_upto(st: FmtState, node: SyntaxNode, n: int) -> FmtState
    decreases node, n,
{
    if n <= 0 || n > node.children@.len() {
        st
    } else {
        let s = fmt_switch_default_upto(st, node, n - 1);
        let child = node.children@[n - 1];
        let k = child.kind@;
        if k == "default"@ {
            fmt_node(s.put_indent(), child)
        } else if k == ":"@ {
            s.put(":\n"@)
        } else if k == "block"@ {
            fmt_statement(s, child, true, true)
        } else if s.is_statement(k) {
            let s1 = fmt_statement(s.with_indent(s.indent + 1), child, true, true);
            s1.with_indent(s1.indent - 1)
        } else {
            fmt_node(s, child)
        }
    }
}

/// The `default` case of a switch.
pub open spec fn fmt_switch_default_case(st: FmtState, node: SyntaxNode) -> FmtState
    decreases node, node.children@.len() + 10,
{
    fmt_switch_default_upto(st, node, node.children@.len() as int)
}

pub open spec fn fmt_switch_case_values_upto(st: FmtState, node: SyntaxNode, n: int) -> FmtState
    decreases n,
{
    if n <= 0 || n > node.children@.len() {
        st
    } else {
        let s = fmt_switch_case_values_upto(st, node, n - 1);
        let child = node.children@[n - 1];
        let k = child.kind@;
        if k == "comment"@ {
            fmt_comment(s, child)
        } else if k == "identifier"@ {
            fmt_node(s, child)
        } else if k == ","@ {
            s.put(", "@)
        } else if s.is_expression(k) {
            fmt_expression(s, child)
        } else {
            fmt_node(s, child)
        }
    }
}

/// The values of a `case`, separated by `, `.
pub open spec fn fmt_switch_case_values(st: FmtState, node: SyntaxNode) -> FmtState {
    fmt_switch_case_values_upto(st, node, node.children@.len() as int)
}

/// The writing of `return` and `delete` statements: the keyword (indented
/// where asked) followed by a space, then the rest.
pub open spec fn fmt_keyword_statement_upto(
    st: FmtState,
    node: SyntaxNode,
    keyword: Seq<char>,
    do_indent: bool,
    n: int,
) -> FmtState
    decreases n,
{
    if n <= 0 || n > node.children@.len() {
        st
    } else {
        let s = fmt_keyword_statement_upto(st, node, keyword, do_indent, n - 1);
        let child = node.children@[n - 1];
        let k = child.kind@;
        if k == "comment"@ {
            fmt_comment(s, child)
        } else if k == keyword {
            indent_if(s, do_indent).put(keyword).put_char(' ')
        } else if k == ";"@ {
            s.put_char(';')
        } else if s.is_expression(k) {
            fmt_expression(s, child)
        } else {
            fmt_node(s, child)
        }
    }
}

/// `return value`.
pub open spec fn fmt_return_statement(st: FmtState, node: SyntaxNode, do_indent: bool) -> FmtState {
    fmt_keyword_statement_upto(st, node, "return"@, do_indent, node.children@.len() as int)
}

/// `delete value`.
pub open spec fn fmt_delete_statement(st: FmtState, node: SyntaxNode, do_indent: bool) -> FmtState {
    fmt_keyword_statement_upto(st, node, "delete"@, do_indent, node.children@.len() as int)
}

pub open spec fn fmt_expression_statement_upto(st: FmtState, node: SyntaxNode, n: int) -> FmtState
    decreases n,
{
    if n <= 0 || n > node.children@.len() {
        st
    } else {
        let s = fmt_expression_statement_upto(st, node, n - 1);
        let child = node.children@[n - 1];
        let k = child.kind@;
        if k == "comment"@ {
            fmt_comment(s, child)
        } else if s.is_expression(k) {
            fmt_expression(s, child)
        } else {
            fmt_node(s, child)
        }
    }
}

/// An expression statement: its expressions and comments.
pub open spec fn fmt_expression_statement(st: FmtState, node: SyntaxNode) -> FmtState {
    fmt_expression_statement_upto(st, node, node.children@.len() as int)
}

pub open spec fn fmt_condition_upto(st: FmtState, node: SyntaxNode, do_indent: bool, n: int) -> (
    FmtState,
    bool,
    bool,
)
    decreases node, n,
{
    if n <= 0 || n > node.children@.len() {
        (st, false, false)
    } else {
        let (s, out_of_condition, else_statement) = fmt_condition_upto(st, node, do_indent, n - 1);
        let child = node.children@[n - 1];
        let k = child.kind@;
        if k == "if"@ {
            let s1 = if s.ends_with("else"@) {
                s.put_char(' ')
            } else {
                indent_if(s, do_indent)
            };
            (fmt_node(s1, child), out_of_condition, else_statement)
        } else if k == "else"@ {
            (fmt_node(s.ln().put_indent(), child), true, true)
        } else if k == "("@ {
            (fmt_node(s, child), out_of_condition, else_statement)
        } else if k == ")"@ {
            (fmt_node(s, child), true, else_statement)
        } else if s.is_statement(k) {
            if out_of_condition {
                if k == "block"@ {
                    (
                        fmt_body_block(s, child, s.settings.brace_wrapping.before_condition),
                        out_of_condition,
                        else_statement,
                    )
                } else if else_statement && k == "condition_statement"@ {
                    (fmt_statement(s, child, true, false), out_of_condition, else_statement)
                } else {
                    (fmt_indented_statement(s, child), out_of_condition, else_statement)
                }
            } else {
                (fmt_statement(s, child, false, false), out_of_condition, else_statement)
            }
        } else if s.is_expression(k) {
            (fmt_expression(space_after_semicolon(s), child), out_of_condition, else_statement)
        } else {
            (fmt_node(s, child), out_of_condition, else_statement)
        }
    }
}

/// An `if` statement, with its `else` branches.
pub open spec fn fmt_condition_statement(st: FmtState, node: SyntaxNode, do_indent: bool) -> FmtState
    decreases node, node.children@.len() + 10,
{
    fmt_condition_upto(st, node, do_indent, node.children@.len() as int).0
}

pub open spec fn fmt_block_upto(st: FmtState, node: SyntaxNode, do_indent: bool, n: int) -> FmtState
    decreases node, n,
{
    if n <= 0 || n > node.children@.len() {
        st
    } else {
        let s = fmt_block_upto(st, node, do_indent, n - 1);
        let child = node.children@[n - 1];
        let k = child.kind@;
        if k == "{"@ {
            let s1 = fmt_node(indent_if(s, do_indent), child).ln();
            s1.with_indent(s1.indent + 1)
        } else if k == "}"@ {
            fmt_node(s.with_indent(s.indent - 1).put_indent(), child)
        } else if k == "comment"@ {
            fmt_comment(s, child)
        } else if s.is_statement(k) {
            fmt_statement(s, child, true, true)
        } else {
            fmt_node(s, child)
        }
    }
}

/// A block: `{`, its statements one level deeper, each on its own line, `}`.
pub open spec fn fmt_block(st: FmtState, node: SyntaxNode, do_indent: bool) -> FmtState
    decreases node, node.children@.len() + 10,
{
    fmt_block_upto(st, node, do_indent, node.children@.len() as int)
}

fn is_kind(node: &SyntaxNode, kind: &str) -> (r: bool)
    ensures
        r == (node.kind@ == kind@),
{
    str_eq(node.kind.as_str(), kind)
}

fn write_space_after_semicolon(writer: &mut Writer)
    ensures
        final(writer)@ == space_after_semicolon(old(writer)@),
        final(writer)@.indent == old(writer)@.indent,
        final(writer)@.semicolon == old(writer)@.semicolon,
        extends(old(writer)@.out, final(writer)@.out),
{
    if str_ends_with(writer.output.as_str(), ";") {
        writer.write(' ');
    }
}

pub fn write_statement(node: &SyntaxNode, writer: &mut Writer, do_indent: bool, do_break: bool)
    requires
        node.wf(),
        old(writer).indent + node.size <= usize::MAX,
    ensures
        final(writer)@ == fmt_statement(old(writer)@, *node, do_indent, do_break),
        moves_within(old(writer)@, final(writer)@, *node),
    decreases node, node.children@.len() + 20,
{
    let kind = node.kind.as_str();
    let maybe_has_semicolon = !(str_eq(kind, "block") || str_eq(kind, "for_statement") || str_eq(
        kind,
        "while_loop",
    ) || str_eq(kind, "condition_statement") || str_eq(kind, "switch_statement"));
    write_statement_body(node, writer, do_indent);

    if maybe_has_semicolon && writer.semicolon {
        writer.write_str(";");
    }

    if do_break {
        match &node.next_sibling {
            None => {
                writer.write_ln();
            },
            Some(next_sibling) => {
                let st = next_sibling.start_position.row;
                let sp = node.end_position.row;
                // Don't add a break if the next sibling is a trailing comment.
                if str_eq(next_sibling.kind.as_str(), "comment") && st - sp == 0 {
                } else {
                    // Add another break if the next sibling is not right below/next
                    // to the current sibling.
                    if st - sp > 1 {
                        writer.write_ln();
                    }
                    writer.write_ln();
                }
            },
        }
    }
}

fn write_statement_body(node: &SyntaxNode, writer: &mut Writer, do_indent: bool)
    requires
        node.wf(),
        old(writer).indent + node.size <= usize::MAX,
    ensures
        final(writer)@ == fmt_statement_body(old(writer)@, *node, do_indent),
        moves_within(old(writer)@, final(writer)@, *node),
    decreases node, node.children@.len() + 15,
{
    let kind = node.kind.as_str();
    if str_eq(kind, "block") {
        // these may not need ; at the end
        write_block(node, writer, do_indent);
    } else if str_eq(kind, "for_statement") {
        write_for_loop(node, writer, do_indent);
    } else if str_eq(kind, "while_loop") {
        write_while_loop(node, writer, do_indent);
    } else if str_eq(kind, "condition_statement") {
        write_condition_statement(node, writer, do_indent);
    } else if str_eq(kind, "switch_statement") {
        write_switch_statement(node, writer, do_indent);
    } else if str_eq(kind, "variable_declaration_statement") {
        // and these may need
        write_variable_declaration_statement(node, writer, do_indent);
    } else if str_eq(kind, "old_variable_declaration_statement") {
        write_old_variable_declaration_statement(node, writer, do_indent);
    } else if str_eq(kind, "do_while_loop") {
        write_do_while_loop(node, writer, do_indent);
    } else if str_eq(kind, "break_statement") {
        if do_indent {
            writer.write_indent();
        }
        writer.write_str("break");
    } else if str_eq(kind, "continue_statement") {
        if do_indent {
            writer.write_indent();
        }
        writer.write_str("continue");
    } else if str_eq(kind, "return_statement") {
        write_return_statement(node, writer, do_indent);
    } else if str_eq(kind, "delete_statement") {
        write_delete_statement(node, writer, do_indent);
    } else if str_eq(kind, "expression_statement") {
        if do_indent {
            writer.write_indent();
        }
        write_expression_statement(node, writer);
    } else {
        write_node(node, writer);
    }
}

fn write_indented_statement(node: &SyntaxNode, writer: &mut Writer)
    requires
        node.wf(),
        old(writer).indent + 1 + node.size <= usize::MAX,
    ensures
        final(writer)@ == fmt_indented_statement(old(writer)@, *node),
        moves_within(old(writer)@, final(writer)@, *node),
    decreases node, node.children@.len() + 21,
{
    writer.write_ln();
    writer.indent = writer.indent + 1;
    write_statement(node, writer, true, false);
    writer.indent = writer.indent - 1;
}

fn write_body_block(node: &SyntaxNode, writer: &mut Writer, wrap: bool)
    requires
        node.wf(),
        old(writer).indent + node.size <= usize::MAX,
    ensures
        final(writer)@ == fmt_body_block(old(writer)@, *node, wrap),
        moves_within(old(writer)@, final(writer)@, *node),
    decreases node, node.children@.len() + 11,
{
    if wrap {
        writer.write_ln();
        write_block(node, writer, true);
    } else {
        writer.write(' ');
        write_block(node, writer, false);
    }
}

fn write_for_loop(node: &SyntaxNode, writer: &mut Writer, do_indent: bool)
    requires
        node.wf(),
        old(writer).indent + node.size <= usize::MAX,
    ensures
        final(writer)@ == fmt_for_loop(old(writer)@, *node, do_indent),
        moves_within(old(writer)@, final(writer)@, *node),
    decreases node, node.children@.len() + 10,
{
    let ghost st0 = writer@;
    let mut end_of_conditions_reached = false;
    let mut got_condition_expr = false;
    let mut i: usize = 0;
    while i < node.children.len()
        invariant
            i <= node.children@.len(),
            node.wf(),
            st0.indent + node.size <= usize::MAX,
            (writer@, end_of_conditions_reached, got_condition_expr) == fmt_for_upto(
                st0,
                *node,
                do_indent,
                i as int,
            ),
            within_children(st0, writer@, *node, i as int),
        decreases node.children@.len() - i,
    {
        proof {
            lemma_child(*node, i as int);
        }
        let child = &node.children[i];
        let kind = child.kind.as_str();
        if str_eq(kind, "for") {
            if do_indent {
                writer.write_indent();
            }
            write_node(child, writer);
        } else if str_eq(kind, "(") {
            write_node(child, writer);
        } else if str_eq(kind, ")") {
            end_of_conditions_reached = true;
            write_node(child, writer);
        } else if writer.is_statement(kind) {
            if !end_of_conditions_reached {
                // an initializer
                write_statement(child, writer, false, false);
            } else if str_eq(kind, "block") {
                // something to do in for loop
                let wrap = writer.settings.brace_wrapping.before_loop;
                write_body_block(child, writer, wrap);
            } else {
                write_indented_statement(child, writer);
            }
        } else if writer.is_expression(kind) {
            // condition or iteration
            write_space_after_semicolon(writer);
            write_expression(child, writer);
            if !got_condition_expr {
                writer.write_str("; ");
                got_condition_expr = true;
            }
        } else {
            write_node(child, writer);
        }
        i += 1;
    }
}

fn write_while_loop(node: &SyntaxNode, writer: &mut Writer, do_indent: bool)
    requires
        node.wf(),
        old(writer).indent + node.size <= usize::MAX,
    ensures
        final(writer)@ == fmt_while_loop(old(writer)@, *node, do_indent),
        moves_within(old(writer)@, final(writer)@, *node),
    decreases node, node.children@.len() + 10,
{
    let ghost st0 = writer@;
    let mut end_condition_reached = false;
    let mut i: usize = 0;
    while i < node.children.len()
        invariant
            i <= node.children@.len(),
            node.wf(),
            st0.indent + node.size <= usize::MAX,
            (writer@, end_condition_reached) == fmt_while_upto(st0, *node, do_indent, i as int),
            within_children(st0, writer@, *node, i as int),
        decreases node.children@.len() - i,
    {
        proof {
            lemma_child(*node, i as int);
        }
        let child = &node.children[i];
        let kind = child.kind.as_str();
        if str_eq(kind, "while") {
            if do_indent {
                writer.write_indent();
            }
            write_node(child, writer);
        } else if str_eq(kind, "(") {
            write_node(child, writer);
        } else if str_eq(kind, ")") {
            end_condition_reached = true;
            write_node(child, writer);
        } else if writer.is_statement(kind) {
            if end_condition_reached {
                if str_eq(kind, "block") {
                    let wrap = writer.settings.brace_wrapping.before_loop;
                    write_body_block(child, writer, wrap);
                } else {
                    write_indented_statement(child, writer);
                }
            } else {
                write_statement(child, writer, false, false);
            }
        } else if writer.is_expression(kind) {
            write_space_after_semicolon(writer);
            write_expression(child, writer);
        } else {
            write_node(child, writer);
        }
        i += 1;
    }
}

fn write_do_while_loop(node: &SyntaxNode, writer: &mut Writer, do_indent: bool)
    requires
        node.wf(),
        old(writer).indent + node.size <= usize::MAX,
    ensures
        final(writer)@ == fmt_do_while_loop(old(writer)@, *node, do_indent),
        moves_within(old(writer)@, final(writer)@, *node),
    decreases node, node.children@.len() + 10,
{
    let ghost st0 = writer@;
    let mut in_condition = false;
    let mut i: usize = 0;
    while i < node.children.len()
        invariant
            i <= node.children@.len(),
            node.wf(),
            st0.indent + node.size <= usize::MAX,
            (writer@, in_condition) == fmt_do_while_upto(st0, *node, do_indent, i as int),
            within_children(st0, writer@, *node, i as int),
        decreases node.children@.len() - i,
    {
        proof {
            lemma_child(*node, i as int);
        }
        let child = &node.children[i];
        let kind = child.kind.as_str();
        if str_eq(kind, "do") {
            if do_indent {
                writer.write_indent();
            }
            writer.write_str("do");
        } else if str_eq(kind, "while") {
            in_condition = true;
            writer.write_indent();
            writer.write_str("while");
        } else if str_eq(kind, "(") || str_eq(kind, ")") {
            write_node(child, writer);
        } else if writer.is_statement(kind) {
            if in_condition {
                write_statement(child, writer, false, false);
            } else if str_eq(kind, "block") {
                let wrap = writer.settings.brace_wrapping.before_loop;
                write_body_block(child, writer, wrap);
                writer.write_ln();
            } else {
                write_indented_statement(child, writer);
            }
        } else if writer.is_expression(kind) {
            write_space_after_semicolon(writer);
            write_expression(child, writer);
        } else {
            write_node(child, writer);
        }
        i += 1;
    }
}

fn write_switch_statement(node: &SyntaxNode, writer: &mut Writer, do_indent: bool)
    requires
        node.wf(),
        old(writer).indent + node.size <= usize::MAX,
    ensures
        final(writer)@ == fmt_switch_statement(old(writer)@, *node, do_indent),
        moves_within(old(writer)@, final(writer)@, *node),
    decreases node, node.children@.len() + 10,
{
    let ghost st0 = writer@;
    let mut i: usize = 0;
    while i < node.children.len()
        invariant
            i <= node.children@.len(),
            node.wf(),
            st0.indent + node.size <= usize::MAX,
            writer@ == fmt_switch_upto(st0, *node, do_indent, i as int),
            tracks_braces(st0, writer@, *node, i as int),
        decreases node.children@.len() - i,
    {
        proof {
            lemma_child(*node, i as int);
            reveal_strlit("{");
            reveal_strlit("}");
            reveal_strlit("(");
            reveal_strlit(")");
            reveal_strlit("switch");
            assert("}"@[0] != "{"@[0]);
            assert("("@[0] != "{"@[0] && "("@[0] != "}"@[0]);
            assert(")"@[0] != "{"@[0] && ")"@[0] != "}"@[0]);
            assert("switch"@[0] != "{"@[0] && "switch"@[0] != "}"@[0]);
        }
        let child = &node.children[i];
        let kind = child.kind.as_str();
        if str_eq(kind, "switch") {
            if do_indent {
                writer.write_indent();
            }
            writer.write_str("switch");
        } else if str_eq(kind, "(") || str_eq(kind, ")") {
            write_node(child, writer);
        } else if str_eq(kind, "{") {
            if writer.settings.brace_wrapping.before_condition {
                writer.write_ln();
                writer.write_indent();
            } else {
                writer.write(' ');
            }
            writer.write('{');
            writer.write_ln();
            writer.indent = writer.indent + 1;
        } else if str_eq(kind, "}") {
            writer.indent = writer.indent - 1;
            writer.write_indent();
            writer.write('}');
        } else if str_eq(kind, "switch_case") {
            write_switch_case(child, writer);
        } else if str_eq(kind, "switch_default_case") {
            write_switch_default_case(child, writer);
        } else if writer.is_expression(kind) {
            write_expression(child, writer);
        } else {
            write_node(child, writer);
        }
        i += 1;
    }
}

fn write_switch_case(node: &SyntaxNode, writer: &mut Writer)
    requires
        node.wf(),
        old(writer).indent + node.size <= usize::MAX,
    ensures
        final(writer)@ == fmt_switch_case(old(writer)@, *node),
        moves_within(old(writer)@, final(writer)@, *node),
    decreases node, node.children@.len() + 10,
{
    let ghost st0 = writer@;
    let mut i: usize = 0;
    while i < node.children.len()
        invariant
            i <= node.children@.len(),
            node.wf(),
            st0.indent + node.size <= usize::MAX,
            writer@ == fmt_switch_case_upto(st0, *node, i as int),
            within_children(st0, writer@, *node, i as int),
        decreases node.children@.len() - i,
    {
        proof {
            lemma_child(*node, i as int);
        }
        let child = &node.children[i];
        let kind = child.kind.as_str();
        if str_eq(kind, "case") {
            writer.write_indent();
            write_node(child, writer);
            writer.write(' ');
        } else if str_eq(kind, ":") {
            writer.write_str(":\n");
        } else if str_eq(kind, "switch_case_values") {
            write_switch_case_values(child, writer);
        } else if str_eq(kind, "comment") {
            write_comment(child, writer);
        } else if str_eq(kind, "block") {
            write_statement(child, writer, true, true);
        } else if writer.is_statement(kind) {
            writer.indent = writer.indent + 1;
            write_statement(child, writer, true, true);
            writer.indent = writer.indent - 1;
        } else {
            write_node(child, writer);
        }
        i += 1;
    }
}

fn write_switch_default_case(node: &SyntaxNode, writer: &mut Writer)
    requires
        node.wf(),
        old(writer).indent + node.size <= usize::MAX,
    ensures
        final(writer)@ == fmt_switch_default_case(old(writer)@, *node),
        moves_within(old(writer)@, final(writer)@, *node),
    decreases node, node.children@.len() + 10,
{
    let ghost st0 = writer@;
    let mut i: usize = 0;
    while i < node.children.len()
        invariant
            i <= node.children@.len(),
            node.wf(),
            st0.indent + node.size <= usize::MAX,
            writer@ == fmt_switch_default_upto(st0, *node, i as int),
            within_children(st0, writer@, *node, i as int),
        decreases node.children@.len() - i,
    {
        proof {
            lemma_child(*node, i as int);
        }
        let child = &node.children[i];
        let kind = child.kind.as_str();
        if str_eq(kind, "default") {
            writer.write_indent();
            write_node(child, writer);
        } else if str_eq(kind, ":") {
            writer.write_str(":\n");
        } else if str_eq(kind, "block") {
            write_statement(child, writer, true, true);
        } else if writer.is_statement(kind) {
            writer.indent = writer.indent + 1;
            write_statement(child, writer, true, true);
            writer.indent = writer.indent - 1;
        } else {
            write_node(child, writer);
        }
        i += 1;
    }
}

fn write_switch_case_values(node: &SyntaxNode, writer: &mut Writer)
    requires
        node.wf(),
    ensures
        final(writer)@ == fmt_switch_case_values(old(writer)@, *node),
        keeps_mode(old(writer)@, final(writer)@, *node),
{
    let ghost st0 = writer@;
    let mut i: usize = 0;
    while i < node.children.len()
        invariant
            i <= node.children@.len(),
            node.wf(),
            writer@ == fmt_switch_case_values_upto(st0, *node, i as int),
            keeps_mode(st0, writer@, *node),
        decreases node.children@.len() - i,
    {
        proof {
            lemma_child(*node, i as int);
        }
        let child = &node.children[i];
        let kind = child.kind.as_str();
        if str_eq(kind, "comment") {
            write_comment(child, writer);
        } else if str_eq(kind, "identifier") {
            write_node(child, writer);
        } else if str_eq(kind, ",") {
            writer.write_str(", ");
        } else if writer.is_expression(kind) {
            write_expression(child, writer);
        } else {
            write_node(child, writer);
        }
        i += 1;
    }
}

fn write_keyword_statement(node: &SyntaxNode, writer: &mut Writer, keyword: &str, do_indent: bool)
    requires
        node.wf(),
    ensures
        final(writer)@ == fmt_keyword_statement_upto(
            old(writer)@,
            *node,
            keyword@,
            do_indent,
            node.children@.len() as int,
        ),
        keeps_mode(old(writer)@, final(writer)@, *node),
{
    let ghost st0 = writer@;
    let mut i: usize = 0;
    while i < node.children.len()
        invariant
            i <= node.children@.len(),
            node.wf(),
            writer@ == fmt_keyword_statement_upto(st0, *node, keyword@, do_indent, i as int),
            keeps_mode(st0, writer@, *node),
        decreases node.children@.len() - i,
    {
        proof {
            lemma_child(*node, i as int);
        }
        let child = &node.children[i];
        let kind = child.kind.as_str();
        if str_eq(kind, "comment") {
            write_comment(child, writer);
        } else if str_eq(kind, keyword) {
            if do_indent {
                writer.write_indent();
            }
            writer.write_str(keyword);
            writer.write(' ');
        } else if str_eq(kind, ";") {
            writer.write(';');
        } else if writer.is_expression(kind) {
            write_expression(child, writer);
        } else {
            write_node(child, writer);
        }
        i += 1;
    }
}

fn write_return_statement(node: &SyntaxNode, writer: &mut Writer, do_indent: bool)
    requires
        node.wf(),
    ensures
        final(writer)@ == fmt_return_statement(old(writer)@, *node, do_indent),
        keeps_mode(old(writer)@, final(writer)@, *node),
{
    write_keyword_statement(node, writer, "return", do_indent);
}

fn write_delete_statement(node: &SyntaxNode, writer: &mut Writer, do_indent: bool)
    requires
        node.wf(),
    ensures
        final(writer)@ == fmt_delete_statement(old(writer)@, *node, do_indent),
        keeps_mode(old(writer)@, final(writer)@, *node),
{
    write_keyword_statement(node, writer, "delete", do_indent);
}

fn write_expression_statement(node: &SyntaxNode, writer: &mut Writer)
    requires
        node.wf(),
    ensures
        final(writer)@ == fmt_expression_statement(old(writer)@, *node),
        keeps_mode(old(writer)@, final(writer)@, *node),
{
    let ghost st0 = writer@;
    let mut i: usize = 0;
    while i < node.children.len()
        invariant
            i <= node.children@.len(),
            node.wf(),
            writer@ == fmt_expression_statement_upto(st0, *node, i as int),
            keeps_mode(st0, writer@, *node),
        decreases node.children@.len() - i,
    {
        proof {
            lemma_child(*node, i as int);
        }
        let child = &node.children[i];
        let kind = child.kind.as_str();
        if str_eq(kind, "comment") {
            write_comment(child, writer);
        } else if writer.is_expression(kind) {
            write_expression(child, writer);
        } else {
            write_node(child, writer);
        }
        i += 1;
    }
}

fn write_condition_statement(node: &SyntaxNode, writer: &mut Writer, do_indent: bool)
    requires
        node.wf(),
        old(writer).indent + node.size <= usize::MAX,
    ensures
        final(writer)@ == fmt_condition_statement(old(writer)@, *node, do_indent),
        moves_within(old(writer)@, final(writer)@, *node),
    decreases node, node.children@.len() + 10,
{
    let ghost st0 = writer@;
    let mut out_of_condition = false;
    let mut else_statement = false;
    let mut i: usize = 0;
    while i < node.children.len()
        invariant
            i <= node.children@.len(),
            node.wf(),
            st0.indent + node.size <= usize::MAX,
            (writer@, out_of_condition, else_statement) == fmt_condition_upto(
                st0,
                *node,
                do_indent,
                i as int,
            ),
            within_children(st0, writer@, *node, i as int),
        decreases node.children@.len() - i,
    {
        proof {
            lemma_child(*node, i as int);
        }
        let child = &node.children[i];
        let kind = child.kind.as_str();
        if str_eq(kind, "if") {
            if str_ends_with(writer.output.as_str(), "else") {
                writer.write(' ');
            } else if do_indent {
                writer.write_indent();
            }
            write_node(child, writer);
        } else if str_eq(kind, "else") {
            writer.write_ln();
            writer.write_indent();
            write_node(child, writer);
            out_of_condition = true;
            else_statement = true;
        } else if str_eq(kind, "(") {
            write_node(child, writer);
        } else if str_eq(kind, ")") {
            write_node(child, writer);
            out_of_condition = true;
        } else if writer.is_statement(kind) {
            if out_of_condition {
                if str_eq(kind, "block") {
                    let wrap = writer.settings.brace_wrapping.before_condition;
                    write_body_block(child, writer, wrap);
                } else if else_statement && str_eq(kind, "condition_statement") {
                    write_statement(child, writer, true, false);
                } else {
                    write_indented_statement(child, writer);
                }
            } else {
                write_statement(child, writer, false, false);
            }
        } else if writer.is_expression(kind) {
            write_space_after_semicolon(writer);
            write_expression(child, writer);
        } else {
            write_node(child, writer);
        }
        i += 1;
    }
}

pub fn write_block(node: &SyntaxNode, writer: &mut Writer, do_indent: bool)
    requires
        node.wf(),
        old(writer).indent + node.size <= usize::MAX,
    ensures
        final(writer)@ == fmt_block(old(writer)@, *node, do_indent),
        moves_within(old(writer)@, final(writer)@, *node),
    decreases node, node.children@.len() + 10,
{
    let ghost st0 = writer@;
    let mut i: usize = 0;
    while i < node.children.len()
        invariant
            i <= node.children@.len(),
            node.wf(),
            st0.indent + node.size <= usize::MAX,
            writer@ == fmt_block_upto(st0, *node, do_indent, i as int),
            tracks_braces(st0, writer@, *node, i as int),
        decreases node.children@.len() - i,
    {
        proof {
            lemma_child(*node, i as int);
            reveal_strlit("{");
            reveal_strlit("}");
            assert("}"@[0] != "{"@[0]);
        }
        let child = &node.children[i];
        let kind = child.kind.as_str();
        if str_eq(kind, "{") {
            if do_indent {
                writer.write_indent();
            }
            write_node(child, writer);
            writer.write_ln();
            writer.indent = writer.indent + 1;
        } else if str_eq(kind, "}") {
            writer.indent = writer.indent - 1;
            writer.write_indent();
            write_node(child, writer);
        } else if str_eq(kind, "comment") {
            write_comment(child, writer);
        } else if writer.is_statement(kind) {
            write_statement(child, writer, true, true);
        } else {
            write_node(child, writer);
        }
        i += 1;
    }
}

} // verus!
