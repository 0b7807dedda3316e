use vstd::prelude::*;

use crate::syntax::{lemma_child, SyntaxNode};
use crate::text::{str_ends_with, str_eq};
use super::expressions::{fmt_expression, write_expression};
use super::{
    fmt_comment, fmt_dimension, fmt_fixed_dimension, fmt_node, keeps_mode, moves_within,
    tracks_braces, within_children, write_comment, write_dimension, write_fixed_dimension,
    write_node, FmtState, Writer,
};

verus! {

broadcast use vstd::std_specs::vec::group_vec_axioms;

/// A comment after a tab.
pub open spec fn fmt_tab_comment(st: FmtState, node: SyntaxNode) -> FmtState {
    fmt_comment(st.put_char('\t'), node)
}

fn write_tab_comment(node: &SyntaxNode, writer: &mut Writer)
    requires
        node.wf(),
    ensures
        final(writer)@ == fmt_tab_comment(old(writer)@, *node),
        keeps_mode(old(writer)@, final(writer)@, *node),
{
    writer.write('\t');
    write_comment(node, writer);
}

pub open spec fn fmt_struct_declaration_upto(st: FmtState, node: SyntaxNode, n: int) -> FmtState
    decreases n,
{
    if n <= 0 || n > node.children@.len() {
        st
    } else {
        let s = fmt_struct_declaration_upto(st, node, n - 1);
        let child = node.children@[n - 1];
        let k = child.kind@;
        if k == "public"@ || k == "identifier"@ {
            fmt_node(s, child).put_char(' ')
        } else if k == "comment"@ {
            fmt_tab_comment(s, child)
        } else if k == "="@ {
            let s1 = s.put("="@);
            if s1.settings.brace_wrapping.before_struct_ctor {
                s1.ln()
            } else {
                s1.put_char(' ')
            }
        } else if k == "struct_constructor"@ {
            fmt_struct_constructor(s, child)
        } else {
            s
        }
    }
}

/// `public Type name = { field = value, ... };`
pub open spec fn fmt_struct_declaration(st: FmtState, node: SyntaxNode) -> FmtState {
    fmt_struct_declaration_upto(st, node, node.children@.len() as int)
}

pub fn write_struct_declaration(node: &SyntaxNode, writer: &mut Writer)
    requires
        node.wf(),
        old(writer).indent + node.size <= usize::MAX,
    ensures
        final(writer)@ == fmt_struct_declaration(old(writer)@, *node),
        moves_within(old(writer)@, final(writer)@, *node),
{
    let ghost st0 = writer@;
    let mut i: usize = 0;
    while i < node.children.len()
        invariant
            i <= node.children@.len(),
            node.wf(),
            st0.indent + node.size <= usize::MAX,
            writer@ == fmt_struct_declaration_upto(st0, *node, i as int),
            within_children(st0, writer@, *node, i as int),
        decreases node.children@.len() - i,
    {
        proof {
            lemma_child(*node, i as int);
        }
        let sub_node = &node.children[i];
        let kind = sub_node.kind.as_str();
        if str_eq(kind, "public") || str_eq(kind, "identifier") {
            write_node(sub_node, writer);
            writer.write(' ');
        } else if str_eq(kind, "comment") {
            write_tab_comment(sub_node, writer);
        } else if str_eq(kind, "=") {
            writer.write_str("=");
            if writer.settings.brace_wrapping.before_struct_ctor {
                writer.write_ln();
            } else {
                writer.write(' ');
            }
        } else if str_eq(kind, "struct_constructor") {
            write_struct_constructor(sub_node, writer);
        }
        i += 1;
    }
}

pub open spec fn fmt_struct_constructor_upto(st: FmtState, node: SyntaxNode, n: int) -> FmtState
    decreases n,
{
    if n <= 0 || n > node.children@.len() {
        st
    } else {
        let s = fmt_struct_constructor_upto(st, node, n - 1);
        let child = node.children@[n - 1];
        let k = child.kind@;
        if k == "comment"@ {
            fmt_tab_comment(s, child)
        } else if k == "struct_field_value"@ {
            fmt_struct_field_value(s, child)
        } else if k == "{"@ {
            s.with_indent(s.indent + 1).put("{\n"@)
        } else if k == "}"@ {
            s.with_indent(s.indent - 1).put_char('}')
        } else if k == ";"@ {
            s.put_char(';')
        } else {
            s
        }
    }
}

/// `{`, one `field = value,` per line, `}`, and a closing `;` with a line
/// break where none was written.
pub open spec fn fmt_struct_constructor(st: FmtState, node: SyntaxNode) -> FmtState {
    let st1 = fmt_struct_constructor_upto(st, node, node.children@.len() as int);
    if !st1.ends_with(";"@) {
        st1.put(";\n"@)
    } else {
        st1
    }
}

fn write_struct_constructor(node: &SyntaxNode, writer: &mut Writer)
    requires
        node.wf(),
        old(writer).indent + node.size <= usize::MAX,
    ensures
        final(writer)@ == fmt_struct_constructor(old(writer)@, *node),
        moves_within(old(writer)@, final(writer)@, *node),
{
    let ghost st0 = writer@;
    let mut i: usize = 0;
    while i < node.children.len()
        invariant
            i <= node.children@.len(),
            node.wf(),
            st0.indent + node.size <= usize::MAX,
            writer@ == fmt_struct_constructor_upto(st0, *node, i as int),
            tracks_braces(st0, writer@, *node, i as int),
        decreases node.children@.len() - i,
    {
        proof {
            lemma_child(*node, i as int);
            reveal_strlit("{");
            reveal_strlit("}");
            reveal_strlit("comment");
            reveal_strlit("struct_field_value");
            assert("}"@[0] != "{"@[0]);
            assert("comment"@[0] != "{"@[0] && "comment"@[0] != "}"@[0]);
            assert("struct_field_value"@[0] != "{"@[0] && "struct_field_value"@[0] != "}"@[0]);
        }
        let sub_node = &node.children[i];
        let kind = sub_node.kind.as_str();
        if str_eq(kind, "comment") {
            write_tab_comment(sub_node, writer);
        } else if str_eq(kind, "struct_field_value") {
            write_struct_field_value(sub_node, writer);
        } else if str_eq(kind, "{") {
            writer.indent = writer.indent + 1;
            writer.write_str("{\n");
        } else if str_eq(kind, "}") {
            writer.indent = writer.indent - 1;
            writer.write('}');
        } else if str_eq(kind, ";") {
            writer.write(';');
        }
        i += 1;
    }
    if !str_ends_with(writer.output.as_str(), ";") {
        writer.write_str(";\n");
    }
}

pub open spec fn fmt_struct_field_value_upto(st: FmtState, node: SyntaxNode, n: int) -> (
    FmtState,
    bool,
)
    decreases n,
{
    if n <= 0 || n > node.children@.len() {
        (st, true)
    } else {
        let (s, key) = fmt_struct_field_value_upto(st, node, n - 1);
        let child = node.children@[n - 1];
        let k = child.kind@;
        if k == "comment"@ {
            (fmt_tab_comment(s, child), key)
        } else if k == "identifier"@ {
            if key {
                (fmt_node(s.put_indent(), child), false)
            } else {
                (fmt_node(s, child).put(",\n"@), true)
            }
        } else if k == "="@ {
            (s.put(" = "@), key)
        } else {
            (fmt_expression(s, child).put(",\n"@), key)
        }
    }
}

/// An indented `field = value,` and a line break.
pub open spec fn fmt_struct_field_value(st: FmtState, node: SyntaxNode) -> FmtState {
    fmt_struct_field_value_upto(st, node, node.children@.len() as int).0
}

fn write_struct_field_value(node: &SyntaxNode, writer: &mut Writer)
    requires
        node.wf(),
    ensures
        final(writer)@ == fmt_struct_field_value(old(writer)@, *node),
        keeps_mode(old(writer)@, final(writer)@, *node),
{
    let ghost st0 = writer@;
    let mut key = true;
    let mut i: usize = 0;
    while i < node.children.len()
        invariant
            i <= node.children@.len(),
            node.wf(),
            (writer@, key) == fmt_struct_field_value_upto(st0, *node, i as int),
            keeps_mode(st0, writer@, *node),
        decreases node.children@.len() - i,
    {
        proof {
            lemma_child(*node, i as int);
        }
        let sub_node = &node.children[i];
        let kind = sub_node.kind.as_str();
        if str_eq(kind, "comment") {
            write_tab_comment(sub_node, writer);
        } else if str_eq(kind, "identifier") {
            if key {
                key = false;
                writer.write_indent();
                write_node(sub_node, writer);
            } else {
                key = true;
                write_node(sub_node, writer);
                writer.write_str(",\n");
            }
        } else if str_eq(kind, "=") {
            writer.write_str(" = ");
        } else {
            // value
            write_expression(sub_node, writer);
            writer.write_str(",\n");
        }
        i += 1;
    }
}

pub open spec fn fmt_struct_upto(st: FmtState, node: SyntaxNode, n: int) -> FmtState
    decreases n,
{
    if n <= 0 || n > node.children@.len() {
        st
    } else {
        let s = fmt_struct_upto(st, node, n - 1);
        let child = node.children@[n - 1];
        let k = child.kind@;
        if k == "comment"@ {
            fmt_tab_comment(s, child)
        } else if k == "struct"@ {
            s.put("struct "@)
        } else if k == "identifier"@ {
            fmt_node(s, child)
        } else if k == "{"@ {
            s.with_indent(s.indent + 1).put("\n{\n"@)
        } else if k == "}"@ {
            s.with_indent(s.indent - 1).put_char('}')
        } else if k == "struct_field"@ {
            fmt_struct_field(s, child)
        } else {
            s.put(";\n"@)
        }
    }
}

/// `struct Name`, then its fields between braces on lines of their own.
pub open spec fn fmt_struct(st: FmtState, node: SyntaxNode) -> FmtState {
    fmt_struct_upto(st, node, node.children@.len() as int)
}

pub fn write_struct(node: &SyntaxNode, writer: &mut Writer)
    requires
        node.wf(),
        old(writer).indent + node.size <= usize::MAX,
    ensures
        final(writer)@ == fmt_struct(old(writer)@, *node),
        moves_within(old(writer)@, final(writer)@, *node),
{
    let ghost st0 = writer@;
    let mut i: usize = 0;
    while i < node.children.len()
        invariant
            i <= node.children@.len(),
            node.wf(),
            st0.indent + node.size <= usize::MAX,
            writer@ == fmt_struct_upto(st0, *node, i as int),
            tracks_braces(st0, writer@, *node, i as int),
        decreases node.children@.len() - i,
    {
        proof {
            lemma_child(*node, i as int);
            reveal_strlit("{");
            reveal_strlit("}");
            reveal_strlit("comment");
            reveal_strlit("struct");
            reveal_strlit("identifier");
            assert("}"@[0] != "{"@[0]);
            assert("comment"@[0] != "{"@[0] && "comment"@[0] != "}"@[0]);
            assert("struct"@[0] != "{"@[0] && "struct"@[0] != "}"@[0]);
            assert("identifier"@[0] != "{"@[0] && "identifier"@[0] != "}"@[0]);
        }
        let sub_node = &node.children[i];
        let kind = sub_node.kind.as_str();
        if str_eq(kind, "comment") {
            write_tab_comment(sub_node, writer);
        } else if str_eq(kind, "struct") {
            writer.write_str("struct ");
        } else if str_eq(kind, "identifier") {
            write_node(sub_node, writer);
        } else if str_eq(kind, "{") {
            writer.indent = writer.indent + 1;
            writer.write_str("\n{\n");
        } else if str_eq(kind, "}") {
            writer.indent = writer.indent - 1;
            writer.write('}');
        } else if str_eq(kind, "struct_field") {
            write_struct_field(sub_node, writer);
        } else {
            writer.write_str(";\n");
        }
        i += 1;
    }
}

pub open spec fn fmt_struct_field_upto(st: FmtState, node: SyntaxNode, n: int) -> FmtState
    decreases n,
{
    if n <= 0 || n > node.children@.len() {
        st
    } else {
        let s = fmt_struct_field_upto(st, node, n - 1);
        let child = node.children@[n - 1];
        let k = child.kind@;
        if k == "public"@ {
            s.put("public "@)
        } else if k == "const"@ {
            s.put("const "@)
        } else if k == "type"@ {
            fmt_node(s, child)
        } else if k == "identifier"@ {
            fmt_node(s.put_char(' '), child)
        } else if k == "fixed_dimension"@ {
            fmt_fixed_dimension(s, child, true)
        } else if k == "dimension"@ {
            fmt_dimension(s, child, true)
        } else if k == ";"@ {
            s.put_char(';')
        } else {
            s
        }
    }
}

/// An indented `public const type name[];`.
pub open spec fn fmt_struct_field(st: FmtState, node: SyntaxNode) -> FmtState {
    fmt_struct_field_upto(st.put_indent(), node, node.children@.len() as int)
}

fn write_struct_field(node: &SyntaxNode, writer: &mut Writer)
    requires
        node.wf(),
    ensures
        final(writer)@ == fmt_struct_field(old(writer)@, *node),
        keeps_mode(old(writer)@, final(writer)@, *node),
{
    writer.write_indent();
    let ghost st0 = writer@;
    let mut i: usize = 0;
    while i < node.children.len()
        invariant
            i <= node.children@.len(),
            node.wf(),
            writer@ == fmt_struct_field_upto(st0, *node, i as int),
            keeps_mode(st0, writer@, *node),
        decreases node.children@.len() - i,
    {
        proof {
            lemma_child(*node, i as int);
        }
        let sub_node = &node.children[i];
        let kind = sub_node.kind.as_str();
        if str_eq(kind, "public") {
            writer.write_str("public ");
        } else if str_eq(kind, "const") {
            writer.write_str("const ");
        } else if str_eq(kind, "type") {
            write_node(sub_node, writer);
        } else if str_eq(kind, "identifier") {
            writer.write(' ');
            write_node(sub_node, writer);
        } else if str_eq(kind, "fixed_dimension") {
            write_fixed_dimension(sub_node, writer, true);
        } else if str_eq(kind, "dimension") {
            write_dimension(sub_node, writer, true);
        } else if str_eq(kind, ";") {
            writer.write(';');
        }
        i += 1;
    }
}

} // verus!
