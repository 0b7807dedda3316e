use vstd::prelude::*;

use crate::syntax::{lemma_child, SyntaxNode};
use crate::text::str_eq;
use super::alias::{fmt_alias_breaks, write_alias_breaks};
use super::functions::{
    fmt_argument_declarations, fmt_function_body, wants_breaks, write_argument_declarations,
    write_function_body,
};
use super::typedefs::fmt_breaks_before;
use super::variables::{fmt_type, write_type};
use super::{
    fmt_comment, fmt_node, keeps_mode, moves_within, prev_sibling_kind, tracks_braces,
    within_children, write_comment, write_node, FmtState, Writer,
};

verus! {

broadcast use vstd::std_specs::vec::group_vec_axioms;

pub open spec fn fmt_methodmap_upto(st: FmtState, node: SyntaxNode, n: int) -> FmtState
    decreases n,
{
    if n <= 0 || n > node.children@.len() {
        st
    } else {
        let s = fmt_methodmap_upto(st, node, n - 1);
        let child = node.children@[n - 1];
        let k = child.kind@;
        if k == "methodmap"@ {
            s.put("methodmap "@)
        } else if k == "identifier"@ {
            fmt_node(s, child)
        } else if k == "<"@ {
            s.put(" < "@)
        } else if k == "__nullable__"@ {
            s.put(" __nullable__ "@)
        } else if k == "{"@ {
            let s1 = if s.settings.brace_wrapping.before_methodmap {
                s.ln()
            } else {
                s.put_char(' ')
            }.put("{\n"@);
            s1.with_indent(s1.indent + 1)
        } else if k == "}"@ {
            let s1 = s.put("}"@);
            s1.with_indent(s1.indent - 1)
        } else if k == "methodmap_alias"@ {
            fmt_methodmap_alias(s, child)
        } else if k == "methodmap_native"@ || k == "methodmap_native_destructor"@ || k
            == "methodmap_native_constructor"@ {
            fmt_methodmap_native(s, child)
        } else if k == "methodmap_method"@ || k == "methodmap_method_destructor"@ || k
            == "methodmap_method_constructor"@ {
            fmt_methodmap_method(s, child)
        } else if k == "methodmap_property"@ {
            fmt_methodmap_property(s, child)
        } else if k == "comment"@ {
            fmt_comment(s, child)
        } else {
            s
        }
    }
}

/// `methodmap Name < Parent { ... };` with its members inside, and a line break.
pub open spec fn fmt_methodmap(st: FmtState, node: SyntaxNode) -> FmtState {
    let st1 = fmt_alias_breaks(
        st,
        node,
        st.settings.breaks.before_methodmap,
        "alias_declaration"@,
    );
    fmt_methodmap_upto(st1, node, node.children@.len() as int).put_char(';').ln()
}

pub fn write_methodmap(node: &SyntaxNode, writer: &mut Writer)
    requires
        node.wf(),
        old(writer).indent + node.size <= usize::MAX,
    ensures
        final(writer)@ == fmt_methodmap(old(writer)@, *node),
        moves_within(old(writer)@, final(writer)@, *node),
{
    let nb_lines = writer.settings.breaks.before_methodmap;
    write_alias_breaks(node, writer, nb_lines, "alias_declaration");
    let ghost st0 = writer@;
    let mut i: usize = 0;
    while i < node.children.len()
        invariant
            i <= node.children@.len(),
            node.wf(),
            st0.indent + node.size <= usize::MAX,
            writer@ == fmt_methodmap_upto(st0, *node, i as int),
            tracks_braces(st0, writer@, *node, i as int),
        decreases node.children@.len() - i,
    {
        proof {
            lemma_child(*node, i as int);
            reveal_strlit("{");
            reveal_strlit("}");
            reveal_strlit("methodmap");
            reveal_strlit("identifier");
            reveal_strlit("<");
            reveal_strlit("__nullable__");
            assert("}"@[0] != "{"@[0]);
            assert("methodmap"@[0] != "{"@[0] && "methodmap"@[0] != "}"@[0]);
            assert("identifier"@[0] != "{"@[0] && "identifier"@[0] != "}"@[0]);
            assert("<"@[0] != "{"@[0] && "<"@[0] != "}"@[0]);
            assert("__nullable__"@[0] != "{"@[0] && "__nullable__"@[0] != "}"@[0]);
        }
        let child = &node.children[i];
        let kind = child.kind.as_str();
        if str_eq(kind, "methodmap") {
            writer.write_str("methodmap ");
        } else if str_eq(kind, "identifier") {
            write_node(child, writer);
        } else if str_eq(kind, "<") {
            writer.write_str(" < ");
        } else if str_eq(kind, "__nullable__") {
            writer.write_str(" __nullable__ ");
        } else if str_eq(kind, "{") {
            if writer.settings.brace_wrapping.before_methodmap {
                writer.write_ln();
            } else {
                writer.write(' ');
            }
            writer.write_str("{\n");
            writer.indent = writer.indent + 1;
        } else if str_eq(kind, "}") {
            writer.write_str("}");
            writer.indent = writer.indent - 1;
        } else if str_eq(kind, "methodmap_alias") {
            write_methodmap_alias(child, writer);
        } else if str_eq(kind, "methodmap_native") || str_eq(kind, "methodmap_native_destructor")
            || str_eq(kind, "methodmap_native_constructor") {
            write_methodmap_native(child, writer);
        } else if str_eq(kind, "methodmap_method") || str_eq(kind, "methodmap_method_destructor")
            || str_eq(kind, "methodmap_method_constructor") {
            write_methodmap_method(child, writer);
        } else if str_eq(kind, "methodmap_property") {
            write_methodmap_property(child, writer);
        } else if str_eq(kind, "comment") {
            write_comment(child, writer);
        }
        i += 1;
    }
    writer.write(';');
    writer.write_ln();
}

/// The empty lines and the indentation before a member of a methodmap.
pub open spec fn fmt_member_start(st: FmtState, node: SyntaxNode) -> FmtState {
    fmt_breaks_before(st, node, st.settings.breaks.before_function_def).put_indent()
}

fn write_member_start(node: &SyntaxNode, writer: &mut Writer)
    ensures
        final(writer)@ == fmt_member_start(old(writer)@, *node),
        keeps_mode(old(writer)@, final(writer)@, *node),
{
    let nb_lines = writer.settings.breaks.before_function_def as usize;
    let prev_kind = prev_sibling_kind(node);
    if wants_breaks(prev_kind.as_str()) {
        // Insert two new lines automatically
        writer.write_lns(nb_lines);
    }
    writer.write_indent();
}

pub open spec fn fmt_methodmap_alias_upto(st: FmtState, node: SyntaxNode, n: int) -> FmtState
    decreases n,
{
    if n <= 0 || n > node.children@.len() {
        st
    } else {
        let s = fmt_methodmap_alias_upto(st, node, n - 1);
        let child = node.children@[n - 1];
        let k = child.kind@;
        if k == "public"@ {
            s.put("public "@)
        } else if k == "~"@ || k == "("@ || k == ")"@ || k == "identifier"@ {
            fmt_node(s, child)
        } else if k == "="@ {
            s.put(" = "@)
        } else {
            s
        }
    }
}

/// An indented `public ~Name() = Other;` and a line break.
pub open spec fn fmt_methodmap_alias(st: FmtState, node: SyntaxNode) -> FmtState {
    fmt_methodmap_alias_upto(fmt_member_start(st, node), node, node.children@.len() as int).put_char(
        ';',
    ).ln()
}

fn write_methodmap_alias(node: &SyntaxNode, writer: &mut Writer)
    ensures
        final(writer)@ == fmt_methodmap_alias(old(writer)@, *node),
        keeps_mode(old(writer)@, final(writer)@, *node),
{
    write_member_start(node, writer);
    let ghost st0 = writer@;
    let mut i: usize = 0;
    while i < node.children.len()
        invariant
            i <= node.children@.len(),
            writer@ == fmt_methodmap_alias_upto(st0, *node, i as int),
            keeps_mode(st0, writer@, *node),
        decreases node.children@.len() - i,
    {
        let child = &node.children[i];
        let kind = child.kind.as_str();
        if str_eq(kind, "public") {
            writer.write_str("public ");
        } else if str_eq(kind, "~") || str_eq(kind, "(") || str_eq(kind, ")") || str_eq(
            kind,
            "identifier",
        ) {
            write_node(child, writer);
        } else if str_eq(kind, "=") {
            writer.write_str(" = ");
        }
        i += 1;
    }
    writer.write(';');
    writer.write_ln();
}

pub open spec fn fmt_methodmap_native_upto(st: FmtState, node: SyntaxNode, n: int) -> FmtState
    decreases n,
{
    if n <= 0 || n > node.children@.len() {
        st
    } else {
        let s = fmt_methodmap_native_upto(st, node, n - 1);
        let child = node.children@[n - 1];
        let k = child.kind@;
        if k == "public"@ {
            s.put("public "@)
        } else if k == "static"@ || k == "native"@ {
            fmt_node(s, child).put_char(' ')
        } else if k == "type"@ {
            fmt_type(s, child)
        } else if k == "("@ || k == ")"@ || k == "symbol"@ || k == "~"@ {
            fmt_node(s, child)
        } else if k == "="@ {
            s.put(" = "@)
        } else if k == "parameter_declarations"@ {
            fmt_argument_declarations(s, child)
        } else {
            s
        }
    }
}

/// An indented `public native Type Name(params);` and a line break.
pub open spec fn fmt_methodmap_native(st: FmtState, node: SyntaxNode) -> FmtState {
    fmt_methodmap_native_upto(fmt_member_start(st, node), node, node.children@.len() as int).put_char(
        ';',
    ).ln()
}

fn write_methodmap_native(node: &SyntaxNode, writer: &mut Writer)
    requires
        node.wf(),
    ensures
        final(writer)@ == fmt_methodmap_native(old(writer)@, *node),
        keeps_mode(old(writer)@, final(writer)@, *node),
{
    write_member_start(node, writer);
    let ghost st0 = writer@;
    let mut i: usize = 0;
    while i < node.children.len()
        invariant
            i <= node.children@.len(),
            node.wf(),
            writer@ == fmt_methodmap_native_upto(st0, *node, i as int),
            keeps_mode(st0, writer@, *node),
        decreases node.children@.len() - i,
    {
        proof {
            lemma_child(*node, i as int);
        }
        let child = &node.children[i];
        let kind = child.kind.as_str();
        if str_eq(kind, "public") {
            writer.write_str("public ");
        } else if str_eq(kind, "static") || str_eq(kind, "native") {
            write_node(child, writer);
            writer.write(' ');
        } else if str_eq(kind, "type") {
            write_type(child, writer);
        } else if str_eq(kind, "(") || str_eq(kind, ")") || str_eq(kind, "symbol") || str_eq(
            kind,
            "~",
        ) {
            write_node(child, writer);
        } else if str_eq(kind, "=") {
            writer.write_str(" = ");
        } else if str_eq(kind, "parameter_declarations") {
            write_argument_declarations(child, writer);
        }
        i += 1;
    }
    writer.write(';');
    writer.write_ln();
}

pub open spec fn fmt_methodmap_method_upto(st: FmtState, node: SyntaxNode, n: int) -> FmtState
    decreases n,
{
    if n <= 0 || n > node.children@.len() {
        st
    } else {
        let s = fmt_methodmap_method_upto(st, node, n - 1);
        let child = node.children@[n - 1];
        let k = child.kind@;
        if k == "public"@ {
            s.put("public "@)
        } else if k == "static"@ {
            fmt_node(s, child).put_char(' ')
        } else if k == "type"@ {
            fmt_type(s, child)
        } else if k == "("@ || k == ")"@ || k == "symbol"@ || k == "~"@ {
            fmt_node(s, child)
        } else if k == "="@ {
            s.put(" = "@)
        } else if k == "parameter_declarations"@ {
            fmt_argument_declarations(s, child)
        } else if k == "block"@ {
            fmt_function_body(s, child, s.settings.brace_wrapping.before_function)
        } else {
            s
        }
    }
}

/// An indented method with its body, and a line break.
pub open spec fn fmt_methodmap_method(st: FmtState, node: SyntaxNode) -> FmtState {
    fmt_methodmap_method_upto(fmt_member_start(st, node), node, node.children@.len() as int).ln()
}

fn write_methodmap_method(node: &SyntaxNode, writer: &mut Writer)
    requires
        node.wf(),
        old(writer).indent + node.size <= usize::MAX,
    ensures
        final(writer)@ == fmt_methodmap_method(old(writer)@, *node),
        moves_within(old(writer)@, final(writer)@, *node),
{
    write_member_start(node, writer);
    let ghost st0 = writer@;
    let mut i: usize = 0;
    while i < node.children.len()
        invariant
            i <= node.children@.len(),
            node.wf(),
            st0.indent + node.size <= usize::MAX,
            writer@ == fmt_methodmap_method_upto(st0, *node, i as int),
            within_children(st0, writer@, *node, i as int),
        decreases node.children@.len() - i,
    {
        proof {
            lemma_child(*node, i as int);
        }
        let child = &node.children[i];
        let kind = child.kind.as_str();
        if str_eq(kind, "public") {
            writer.write_str("public ");
        } else if str_eq(kind, "static") {
            write_node(child, writer);
            writer.write(' ');
        } else if str_eq(kind, "type") {
            write_type(child, writer);
        } else if str_eq(kind, "(") || str_eq(kind, ")") || str_eq(kind, "symbol") || str_eq(
            kind,
            "~",
        ) {
            write_node(child, writer);
        } else if str_eq(kind, "=") {
            writer.write_str(" = ");
        } else if str_eq(kind, "parameter_declarations") {
            write_argument_declarations(child, writer);
        } else if str_eq(kind, "block") {
            let wrap = writer.settings.brace_wrapping.before_function;
            write_function_body(child, writer, wrap);
        }
        i += 1;
    }
    writer.write_ln();
}

pub open spec fn fmt_methodmap_property_upto(st: FmtState, node: SyntaxNode, n: int) -> FmtState
    decreases n,
{
    if n <= 0 || n > node.children@.len() {
        st
    } else {
        let s = fmt_methodmap_property_upto(st, node, n - 1);
        let child = node.children@[n - 1];
        let k = child.kind@;
        if k == "property"@ {
            fmt_node(s, child).put_char(' ')
        } else if k == "type"@ {
            fmt_type(s, child)
        } else if k == "("@ || k == ")"@ || k == "symbol"@ || k == "~"@ {
            fmt_node(s, child)
        } else if k == "{"@ {
            let s1 = if s.settings.brace_wrapping.before_methodmap_property {
                s.ln()
            } else {
                s.put_char(' ')
            }.put("{\n"@);
            s1.with_indent(s1.indent + 1)
        } else if k == "}"@ {
            let s1 = s.put("}"@);
            s1.with_indent(s1.indent - 1)
        } else if k == "="@ {
            s.put(" = "@)
        } else if k == "parameter_declarations"@ {
            fmt_argument_declarations(s, child)
        } else if k == "methodmap_property_alias"@ {
            fmt_methodmap_property_alias(s, child)
        } else if k == "methodmap_property_method"@ || k == "methodmap_property_native"@ {
            fmt_methodmap_property_method(s, child)
        } else {
            s
        }
    }
}

/// An indented `property Type Name { ... };` with its accessors inside, and a line break.
pub open spec fn fmt_methodmap_property(st: FmtState, node: SyntaxNode) -> FmtState {
    fmt_methodmap_property_upto(fmt_member_start(st, node), node, node.children@.len() as int).put_char(
        ';',
    ).ln()
}

fn write_methodmap_property(node: &SyntaxNode, writer: &mut Writer)
    requires
        node.wf(),
        old(writer).indent + node.size <= usize::MAX,
    ensures
        final(writer)@ == fmt_methodmap_property(old(writer)@, *node),
        moves_within(old(writer)@, final(writer)@, *node),
{
    write_member_start(node, writer);
    let ghost st0 = writer@;
    let mut i: usize = 0;
    while i < node.children.len()
        invariant
            i <= node.children@.len(),
            node.wf(),
            st0.indent + node.size <= usize::MAX,
            writer@ == fmt_methodmap_property_upto(st0, *node, i as int),
            tracks_braces(st0, writer@, *node, i as int),
        decreases node.children@.len() - i,
    {
        proof {
            lemma_child(*node, i as int);
            reveal_strlit("{");
            reveal_strlit("}");
            reveal_strlit("property");
            reveal_strlit("type");
            reveal_strlit("(");
            reveal_strlit(")");
            reveal_strlit("symbol");
            reveal_strlit("~");
            assert("}"@[0] != "{"@[0]);
            assert("property"@[0] != "{"@[0] && "property"@[0] != "}"@[0]);
            assert("type"@[0] != "{"@[0] && "type"@[0] != "}"@[0]);
            assert("("@[0] != "{"@[0] && "("@[0] != "}"@[0]);
            assert(")"@[0] != "{"@[0] && ")"@[0] != "}"@[0]);
            assert("symbol"@[0] != "{"@[0] && "symbol"@[0] != "}"@[0]);
            assert("~"@[0] != "{"@[0] && "~"@[0] != "}"@[0]);
        }
        let child = &node.children[i];
        let kind = child.kind.as_str();
        if str_eq(kind, "property") {
            write_node(child, writer);
            writer.write(' ');
        } else if str_eq(kind, "type") {
            write_type(child, writer);
        } else if str_eq(kind, "(") || str_eq(kind, ")") || str_eq(kind, "symbol") || str_eq(
            kind,
            "~",
        ) {
            write_node(child, writer);
        } else if str_eq(kind, "{") {
            if writer.settings.brace_wrapping.before_methodmap_property {
                writer.write_ln();
            } else {
                writer.write(' ');
            }
            writer.write_str("{\n");
            writer.indent = writer.indent + 1;
        } else if str_eq(kind, "}") {
            writer.write_str("}");
            writer.indent = writer.indent - 1;
        } else if str_eq(kind, "=") {
            writer.write_str(" = ");
        } else if str_eq(kind, "parameter_declarations") {
            write_argument_declarations(child, writer);
        } else if str_eq(kind, "methodmap_property_alias") {
            write_methodmap_property_alias(child, writer);
        } else if str_eq(kind, "methodmap_property_method") || str_eq(
            kind,
            "methodmap_property_native",
        ) {
            write_methodmap_property_method(child, writer);
        }
        i += 1;
    }
    writer.write(';');
    writer.write_ln();
}

pub open spec fn fmt_methodmap_property_alias_upto(st: FmtState, node: SyntaxNode, n: int) -> FmtState
    decreases n,
{
    if n <= 0 || n > node.children@.len() {
        st
    } else {
        let s = fmt_methodmap_property_alias_upto(st, node, n - 1);
        let child = node.children@[n - 1];
        let k = child.kind@;
        if k == "public"@ {
            s.put("public "@)
        } else if k == "methodmap_property_getter"@ {
            s.put("get()"@)
        } else if k == "identifier"@ {
            fmt_node(s, child)
        } else if k == "="@ {
            s.put(" = "@)
        } else {
            s
        }
    }
}

/// An indented `public get() = Name;` and a line break.
pub open spec fn fmt_methodmap_property_alias(st: FmtState, node: SyntaxNode) -> FmtState {
    fmt_methodmap_property_alias_upto(
        fmt_member_start(st, node),
        node,
        node.children@.len() as int,
    ).put_char(';').ln()
}

fn write_methodmap_property_alias(node: &SyntaxNode, writer: &mut Writer)
    ensures
        final(writer)@ == fmt_methodmap_property_alias(old(writer)@, *node),
        keeps_mode(old(writer)@, final(writer)@, *node),
{
    write_member_start(node, writer);
    let ghost st0 = writer@;
    let mut i: usize = 0;
    while i < node.children.len()
        invariant
            i <= node.children@.len(),
            writer@ == fmt_methodmap_property_alias_upto(st0, *node, i as int),
            keeps_mode(st0, writer@, *node),
        decreases node.children@.len() - i,
    {
        let child = &node.children[i];
        let kind = child.kind.as_str();
        if str_eq(kind, "public") {
            writer.write_str("public ");
        } else if str_eq(kind, "methodmap_property_getter") {
            writer.write_str("get()");
        } else if str_eq(kind, "identifier") {
            write_node(child, writer);
        } else if str_eq(kind, "=") {
            writer.write_str(" = ");
        }
        i += 1;
    }
    writer.write(';');
    writer.write_ln();
}

pub open spec fn fmt_methodmap_property_method_upto(st: FmtState, node: SyntaxNode, n: int) -> FmtState
    decreases n,
{
    if n <= 0 || n > node.children@.len() {
        st
    } else {
        let s = fmt_methodmap_property_method_upto(st, node, n - 1);
        let child = node.children@[n - 1];
        let k = child.kind@;
        if k == "public"@ {
            s.put("public "@)
        } else if k == "native"@ {
            fmt_node(s, child).put_char(' ')
        } else if k == "methodmap_property_getter"@ {
            s.put("get()"@)
        } else if k == "methodmap_property_setter"@ {
            fmt_methodmap_property_setter(s, child)
        } else if k == "identifier"@ {
            fmt_node(s, child)
        } else if k == "="@ {
            s.put(" = "@)
        } else if k == "block"@ {
            fmt_function_body(s, child, s.settings.brace_wrapping.before_function)
        } else if k == ";"@ {
            s.put_char(';')
        } else {
            s
        }
    }
}

/// An indented getter or setter, with its body, and a line break.
pub open spec fn fmt_methodmap_property_method(st: FmtState, node: SyntaxNode) -> FmtState {
    fmt_methodmap_property_method_upto(
        fmt_member_start(st, node),
        node,
        node.children@.len() as int,
    ).ln()
}

fn write_methodmap_property_method(node: &SyntaxNode, writer: &mut Writer)
    requires
        node.wf(),
        old(writer).indent + node.size <= usize::MAX,
    ensures
        final(writer)@ == fmt_methodmap_property_method(old(writer)@, *node),
        moves_within(old(writer)@, final(writer)@, *node),
{
    write_member_start(node, writer);
    let ghost st0 = writer@;
    let mut i: usize = 0;
    while i < node.children.len()
        invariant
            i <= node.children@.len(),
            node.wf(),
            st0.indent + node.size <= usize::MAX,
            writer@ == fmt_methodmap_property_method_upto(st0, *node, i as int),
            within_children(st0, writer@, *node, i as int),
        decreases node.children@.len() - i,
    {
        proof {
            lemma_child(*node, i as int);
        }
        let child = &node.children[i];
        let kind = child.kind.as_str();
        if str_eq(kind, "public") {
            writer.write_str("public ");
        } else if str_eq(kind, "native") {
            write_node(child, writer);
            writer.write(' ');
        } else if str_eq(kind, "methodmap_property_getter") {
            writer.write_str("get()");
        } else if str_eq(kind, "methodmap_property_setter") {
            write_methodmap_property_setter(child, writer);
        } else if str_eq(kind, "identifier") {
            write_node(child, writer);
        } else if str_eq(kind, "=") {
            writer.write_str(" = ");
        } else if str_eq(kind, "block") {
            let wrap = writer.settings.brace_wrapping.before_function;
            write_function_body(child, writer, wrap);
        } else if str_eq(kind, ";") {
            writer.write(';');
        }
        i += 1;
    }
    writer.write_ln();
}

pub open spec fn fmt_methodmap_property_setter_upto(st: FmtState, node: SyntaxNode, n: int) -> FmtState
    decreases n,
{
    if n <= 0 || n > node.children@.len() {
        st
    } else {
        let s = fmt_methodmap_property_setter_upto(st, node, n - 1);
        let child = node.children@[n - 1];
        let k = child.kind@;
        if k == "set"@ {
            s.put("set"@)
        } else if k == "symbol"@ || k == "("@ || k == ")"@ {
            fmt_node(s, child)
        } else if k == "type"@ {
            fmt_type(s, child)
        } else {
            s
        }
    }
}

/// `set(Type value)`.
pub open spec fn fmt_methodmap_property_setter(st: FmtState, node: SyntaxNode) -> FmtState {
    fmt_methodmap_property_setter_upto(st, node, node.children@.len() as int)
}

fn write_methodmap_property_setter(node: &SyntaxNode, writer: &mut Writer)
    ensures
        final(writer)@ == fmt_methodmap_property_setter(old(writer)@, *node),
        keeps_mode(old(writer)@, final(writer)@, *node),
{
    let ghost st0 = writer@;
    let mut i: usize = 0;
    while i < node.children.len()
        invariant
            i <= node.children@.len(),
            writer@ == fmt_methodmap_property_setter_upto(st0, *node, i as int),
            keeps_mode(st0, writer@, *node),
        decreases node.children@.len() - i,
    {
        let child = &node.children[i];
        let kind = child.kind.as_str();
        if str_eq(kind, "set") {
            writer.write_str("set");
        } else if str_eq(kind, "symbol") || str_eq(kind, "(") || str_eq(kind, ")") {
            write_node(child, writer);
        } else if str_eq(kind, "type") {
            write_type(child, writer);
        }
        i += 1;
    }
}

} // verus!
