use vstd::prelude::*;

use crate::syntax::{field_index_from, opened_upto, point_is_le, point_le, SyntaxNode};
use crate::text::{str_ends_with, str_eq, string_pop};
use super::{
    fmt_dimension, fmt_dynamic_array, fmt_node, write_dimension, write_dynamic_array, write_node,
    extends, keeps_mode, FmtState, Writer,
};

verus! {

broadcast use vstd::std_specs::vec::group_vec_axioms;

/// The child held under field `name`, found by a scan of the children.
pub fn child_by_field_name<'a>(node: &'a SyntaxNode, name: &str) -> (r: &'a SyntaxNode)
    requires
        node.has_field(name@),
    ensures
        *r == node.field(name@),
        0 <= node.field_index(name@)->0 < node.children@.len(),
{
    let ghost s = node.children@;
    let mut i: usize = 0;
    while i < node.children.len()
        invariant
            i <= s.len(),
            s == node.children@,
            field_index_from(s, name@, 0) == field_index_from(s, name@, i as int),
            field_index_from(s, name@, 0) is Some,
        decreases s.len() - i,
    {
        let found = match &node.children[i].field_name {
            Some(f) => str_eq(f.as_str(), name),
            None => false,
        };
        if found {
            return &node.children[i];
        }
        i += 1;
    }
    &node.children[0]
}

/// The expression under field `name` (nothing where there is none).
pub open spec fn fmt_expression_field(st: FmtState, node: SyntaxNode, name: Seq<char>) -> FmtState
    decreases node, node.children@.len() + 1,
{
    match node.field_index(name) {
        Some(i) => if 0 <= i < node.children@.len() {
            fmt_expression(st, node.children@[i])
        } else {
            st
        },
        None => st,
    }
}

/// The text of the child under field `name`.
pub open spec fn fmt_node_field(st: FmtState, node: SyntaxNode, name: Seq<char>) -> FmtState {
    fmt_node(st, node.field(name))
}

/// An expression, dispatched on its kind; unknown kinds, and the `view_as`
/// keyword, keep their text.
pub open spec fn fmt_expression(st: FmtState, node: SyntaxNode) -> FmtState
    decreases node, node.children@.len() + 10,
{
    let k = node.kind@;
    if k == "symbol"@ || k == "null"@ || k == "this"@ || k == "int_literal "@ || k
        == "bool_literal"@ || k == "char_literal"@ || k == "float_literal"@ || k
        == "string_literal"@ {
        fmt_node(st, node)
    } else if k == "binary_expression"@ {
        fmt_binary_expression(st, node)
    } else if k == "unary_expression"@ {
        fmt_unary_expression(st, node)
    } else if k == "update_expression"@ {
        fmt_update_expression(st, node)
    } else if k == "parenthesized_expression"@ {
        fmt_parenthesized_expression(st, node)
    } else if k == "comma_expression"@ {
        fmt_comma_expression(st, node)
    } else if k == "scope_access"@ {
        fmt_scope_access(st, node)
    } else if k == "view_as"@ && node.named {
        fmt_view_as(st, node)
    } else if k == "old_type_cast"@ {
        fmt_old_type_cast(st, node)
    } else if k == "ternary_expression"@ {
        fmt_ternary_expression(st, node)
    } else if k == "concatenated_string"@ {
        fmt_concatenated_string(st, node)
    } else if k == "array_indexed_access"@ {
        fmt_array_indexed_access(st, node)
    } else if k == "field_access"@ {
        fmt_field_access(st, node)
    } else if k == "new_instance"@ {
        fmt_new_instance(st, node)
    } else if k == "function_call"@ {
        fmt_function_call(st, node)
    } else if k == "assignment_expression"@ {
        fmt_assignment_expression(st, node)
    } else if k == "array_literal"@ {
        fmt_array_literal(st, node)
    } else if k == "sizeof_expression"@ {
        fmt_sizeof_expression(st, node)
    } else {
        fmt_node(st, node)
    }
}

/// `left op right`.
pub open spec fn fmt_binary_expression(st: FmtState, node: SyntaxNode) -> FmtState
    decreases node, node.children@.len() + 5,
{
    let st1 = fmt_expression_field(st, node, "left"@).put_char(' ');
    let st2 = fmt_node_field(st1, node, "operator"@).put_char(' ');
    fmt_expression_field(st2, node, "right"@)
}

/// The old-style type with a space after it, then the value.
pub open spec fn fmt_old_type_cast(st: FmtState, node: SyntaxNode) -> FmtState
    decreases node, node.children@.len() + 5,
{
    fmt_expression_field(fmt_old_type(st, node.field("type"@)), node, "value"@)
}

/// The node's text and a space.
pub open spec fn fmt_old_type(st: FmtState, node: SyntaxNode) -> FmtState {
    st.put(node.text@).put_char(' ')
}

/// `left op right`, where a dynamic array on the right is written as one.
pub open spec fn fmt_assignment_expression(st: FmtState, node: SyntaxNode) -> FmtState
    decreases node, node.children@.len() + 5,
{
    let st1 = fmt_expression_field(st, node, "left"@).put_char(' ');
    let st2 = fmt_node_field(st1, node, "operator"@).put_char(' ');
    let right = node.field("right"@);
    if right.kind@ == "dynamic_array"@ {
        fmt_dynamic_array(st2, right)
    } else {
        fmt_expression_field(st2, node, "right"@)
    }
}

/// `array[index]`, where the array is itself an indexed access or kept as is.
pub open spec fn fmt_array_indexed_access(st: FmtState, node: SyntaxNode) -> FmtState
    decreases node, node.children@.len() + 5,
{
    let st1 = match node.field_index("array"@) {
        Some(i) => if 0 <= i < node.children@.len() {
            let array = node.children@[i];
            if array.kind@ == "array_indexed_access"@ {
                fmt_array_indexed_access(st, array)
            } else {
                fmt_node(st, array)
            }
        } else {
            st
        },
        None => st,
    };
    fmt_expression_field(st1.put_char('['), node, "index"@).put_char(']')
}

/// `target.field`.
pub open spec fn fmt_field_access(st: FmtState, node: SyntaxNode) -> FmtState
    decreases node, node.children@.len() + 5,
{
    fmt_node_field(fmt_expression_field(st, node, "target"@).put_char('.'), node, "field"@)
}

/// `new Class(arguments)`.
pub open spec fn fmt_new_instance(st: FmtState, node: SyntaxNode) -> FmtState
    decreases node, node.children@.len() + 5,
{
    let st1 = fmt_node_field(st.put("new "@), node, "class"@);
    fmt_arguments_field(st1, node)
}

/// The call arguments under field `arguments`.
pub open spec fn fmt_arguments_field(st: FmtState, node: SyntaxNode) -> FmtState
    decreases node, node.children@.len() + 1,
{
    match node.field_index("arguments"@) {
        Some(i) => if 0 <= i < node.children@.len() {
            fmt_function_call_arguments(st, node.children@[i])
        } else {
            st
        },
        None => st,
    }
}

/// `function(arguments)`.
pub open spec fn fmt_function_call(st: FmtState, node: SyntaxNode) -> FmtState
    decreases node, node.children@.len() + 5,
{
    fmt_arguments_field(fmt_expression_field(st, node, "function"@), node)
}

/// The operator, then the argument.
pub open spec fn fmt_unary_expression(st: FmtState, node: SyntaxNode) -> FmtState
    decreases node, node.children@.len() + 5,
{
    fmt_expression_field(fmt_node_field(st, node, "operator"@), node, "argument"@)
}

/// `(expression)`.
pub open spec fn fmt_parenthesized_expression(st: FmtState, node: SyntaxNode) -> FmtState
    decreases node, node.children@.len() + 5,
{
    let st1 = st.put_char('(');
    let st2 = match node.field_index("expression"@) {
        Some(i) => if 0 <= i < node.children@.len() {
            let e = node.children@[i];
            if e.kind@ == "comma_expression"@ {
                fmt_comma_expression(st1, e)
            } else {
                fmt_expression(st1, e)
            }
        } else {
            st1
        },
        None => st1,
    };
    st2.put_char(')')
}

/// `left, right`.
pub open spec fn fmt_comma_expression(st: FmtState, node: SyntaxNode) -> FmtState
    decreases node, node.children@.len() + 5,
{
    fmt_expression_field(fmt_expression_field(st, node, "left"@).put(", "@), node, "right"@)
}

/// `left ... right`, the parts kept as they are.
pub open spec fn fmt_concatenated_string(st: FmtState, node: SyntaxNode) -> FmtState
    decreases node, node.children@.len() + 5,
{
    let st1 = fmt_node_field(st, node, "left"@).put(" ... "@);
    match node.field_index("right"@) {
        Some(i) => if 0 <= i < node.children@.len() {
            let right = node.children@[i];
            if right.kind@ == "concatenated_string"@ {
                fmt_concatenated_string(st1, right)
            } else {
                fmt_node(st1, right)
            }
        } else {
            st1
        },
        None => st1,
    }
}

/// The operator and the argument, in the order in which they stand.
pub open spec fn fmt_update_expression(st: FmtState, node: SyntaxNode) -> FmtState
    decreases node, node.children@.len() + 5,
{
    let argument = node.field("argument"@);
    let operator = node.field("operator"@);
    if point_le(operator.end_position, argument.start_position) {
        fmt_expression_field(fmt_node(st, operator), node, "argument"@)
    } else {
        fmt_node(fmt_expression_field(st, node, "argument"@), operator)
    }
}

/// `condition ? consequence : alternative`.
pub open spec fn fmt_ternary_expression(st: FmtState, node: SyntaxNode) -> FmtState
    decreases node, node.children@.len() + 5,
{
    let st1 = fmt_expression_field(st, node, "condition"@).put(" ? "@);
    let st2 = fmt_expression_field(st1, node, "consequence"@).put(" : "@);
    fmt_expression_field(st2, node, "alternative"@)
}

/// `scope::field`.
pub open spec fn fmt_scope_access(st: FmtState, node: SyntaxNode) -> FmtState
    decreases node, node.children@.len() + 5,
{
    fmt_expression_field(fmt_expression_field(st, node, "scope"@).put("::"@), node, "field"@)
}

/// `view_as<type>(value)`.
pub open spec fn fmt_view_as(st: FmtState, node: SyntaxNode) -> FmtState
    decreases node, node.children@.len() + 5,
{
    let st1 = fmt_node_field(st.put("view_as<"@), node, "type"@).put(">("@);
    fmt_expression_field(st1, node, "value"@).put_char(')')
}

pub open spec fn fmt_array_literal_upto(st: FmtState, node: SyntaxNode, n: int) -> FmtState
    decreases node, n,
{
    if n <= 0 || n > node.children@.len() {
        st
    } else {
        let prev = fmt_array_literal_upto(st, node, n - 1);
        let child = node.children@[n - 1];
        let k = child.kind@;
        if k == "{"@ || k == "}"@ {
            prev
        } else if k == ","@ {
            prev.put(", "@)
        } else {
            fmt_expression(prev, child)
        }
    }
}

/// `{ a, b }`: braces around, `, ` between the elements.
pub open spec fn fmt_array_literal(st: FmtState, node: SyntaxNode) -> FmtState
    decreases node, node.children@.len() + 5,
{
    fmt_array_literal_upto(st.put("{ "@), node, node.children@.len() as int).put(" }"@)
}

pub open spec fn fmt_sizeof_upto(st: FmtState, node: SyntaxNode, n: int) -> FmtState
    decreases node, n,
{
    if n <= 0 || n > node.children@.len() {
        st
    } else {
        let prev = fmt_sizeof_upto(st, node, n - 1);
        let child = node.children@[n - 1];
        if child.field_name matches Some(f) && f@ == "type"@ {
            if child.kind@ == "dimension"@ {
                fmt_dimension(prev, child, true)
            } else {
                fmt_expression(prev, child)
            }
        } else {
            prev
        }
    }
}

/// `sizeof ` and then each child under field `type`.
pub open spec fn fmt_sizeof_expression(st: FmtState, node: SyntaxNode) -> FmtState
    decreases node, node.children@.len() + 5,
{
    fmt_sizeof_upto(st.put("sizeof "@), node, node.children@.len() as int)
}

/// The output without a trailing `, ` before a closing parenthesis.
pub open spec fn drop_trailing_comma(st: FmtState) -> FmtState {
    if st.ends_with(", "@) {
        FmtState { out: st.out.drop_last().drop_last(), ..st }
    } else {
        st
    }
}

pub open spec fn fmt_call_arguments_upto(st: FmtState, node: SyntaxNode, n: int) -> FmtState
    decreases node, n,
{
    if n <= 0 || n > node.children@.len() {
        st
    } else {
        let prev = fmt_call_arguments_upto(st, node, n - 1);
        let child = node.children@[n - 1];
        let k = child.kind@;
        if k == "("@ {
            prev.put_char('(')
        } else if k == ")"@ {
            drop_trailing_comma(prev).put_char(')')
        } else if k == ","@ {
            prev.put(", "@)
        } else if k == "symbol"@ || k == "ignore_argument"@ {
            fmt_node(prev, child)
        } else if k == "named_arg"@ {
            fmt_named_arg(prev, child)
        } else if prev.is_expression(k) {
            fmt_expression(prev, child)
        } else {
            fmt_node(prev, child)
        }
    }
}

/// The arguments of a call: `(a, b)`, without a `, ` before the `)`.
pub open spec fn fmt_function_call_arguments(st: FmtState, node: SyntaxNode) -> FmtState
    decreases node, node.children@.len() + 5,
{
    fmt_call_arguments_upto(st, node, node.children@.len() as int)
}

/// `.name = value`, both kept as they are.
pub open spec fn fmt_named_arg(st: FmtState, node: SyntaxNode) -> FmtState {
    fmt_node_field(fmt_node_field(st.put_char('.'), node, "name"@).put(" = "@), node, "value"@)
}

fn write_expression_field(node: &SyntaxNode, name: &str, writer: &mut Writer)
    requires
        node.wf(),
        node.has_field(name@),
    ensures
        final(writer)@ == fmt_expression_field(old(writer)@, *node, name@),
        keeps_mode(old(writer)@, final(writer)@, *node),
    decreases node, node.children@.len() + 1,
{
    let child = child_by_field_name(node, name);
    write_expression(child, writer);
}

fn write_node_field(node: &SyntaxNode, name: &str, writer: &mut Writer)
    requires
        node.has_field(name@),
    ensures
        final(writer)@ == fmt_node_field(old(writer)@, *node, name@),
        keeps_mode(old(writer)@, final(writer)@, *node),
{
    write_node(child_by_field_name(node, name), writer);
}

pub fn write_expression(node: &SyntaxNode, writer: &mut Writer)
    requires
        node.wf(),
    ensures
        final(writer)@ == fmt_expression(old(writer)@, *node),
        keeps_mode(old(writer)@, final(writer)@, *node),
    decreases node, node.children@.len() + 10,
{
    let k = node.kind.as_str();
    if str_eq(k, "symbol") || str_eq(k, "null") || str_eq(k, "this") || str_eq(k, "int_literal ")
        || str_eq(k, "bool_literal") || str_eq(k, "char_literal") || str_eq(k, "float_literal")
        || str_eq(k, "string_literal") {
        write_node(node, writer);
    } else if str_eq(k, "binary_expression") {
        write_binary_expression(node, writer);
    } else if str_eq(k, "unary_expression") {
        write_unary_expression(node, writer);
    } else if str_eq(k, "update_expression") {
        write_update_expression(node, writer);
    } else if str_eq(k, "parenthesized_expression") {
        write_parenthesized_expression(node, writer);
    } else if str_eq(k, "comma_expression") {
        write_comma_expression(node, writer);
    } else if str_eq(k, "scope_access") {
        write_scope_access(node, writer);
    } else if str_eq(k, "view_as") && node.named {
        write_view_as(node, writer);
    } else if str_eq(k, "old_type_cast") {
        write_old_type_cast(node, writer);
    } else if str_eq(k, "ternary_expression") {
        write_ternary_expression(node, writer);
    } else if str_eq(k, "concatenated_string") {
        write_concatenated_string(node, writer);
    } else if str_eq(k, "array_indexed_access") {
        write_array_indexed_access(node, writer);
    } else if str_eq(k, "field_access") {
        write_field_access(node, writer);
    } else if str_eq(k, "new_instance") {
        write_new_instance(node, writer);
    } else if str_eq(k, "function_call") {
        write_function_call(node, writer);
    } else if str_eq(k, "assignment_expression") {
        write_assignment_expression(node, writer);
    } else if str_eq(k, "array_literal") {
        write_array_literal(node, writer);
    } else if str_eq(k, "sizeof_expression") {
        write_sizeof_expression(node, writer);
    } else {
        write_node(node, writer);
    }
}

fn write_binary_expression(node: &SyntaxNode, writer: &mut Writer)
    requires
        node.wf(),
        node.kind@ == "binary_expression"@,
    ensures
        final(writer)@ == fmt_binary_expression(old(writer)@, *node),
        keeps_mode(old(writer)@, final(writer)@, *node),
    decreases node, node.children@.len() + 5,
{
    write_expression_field(node, "left", writer);
    writer.write(' ');
    write_node_field(node, "operator", writer);
    writer.write(' ');
    write_expression_field(node, "right", writer);
}

fn write_old_type_cast(node: &SyntaxNode, writer: &mut Writer)
    requires
        node.wf(),
        node.kind@ == "old_type_cast"@,
    ensures
        final(writer)@ == fmt_old_type_cast(old(writer)@, *node),
        keeps_mode(old(writer)@, final(writer)@, *node),
    decreases node, node.children@.len() + 5,
{
    write_old_type(child_by_field_name(node, "type"), writer);
    write_expression_field(node, "value", writer);
}

pub fn write_old_type(node: &SyntaxNode, writer: &mut Writer)
    ensures
        final(writer)@ == fmt_old_type(old(writer)@, *node),
        keeps_mode(old(writer)@, final(writer)@, *node),
{
    writer.write_str(node.text.as_str());
    writer.write(' ');
}

fn write_assignment_expression(node: &SyntaxNode, writer: &mut Writer)
    requires
        node.wf(),
        node.kind@ == "assignment_expression"@,
    ensures
        final(writer)@ == fmt_assignment_expression(old(writer)@, *node),
        keeps_mode(old(writer)@, final(writer)@, *node),
    decreases node, node.children@.len() + 5,
{
    write_expression_field(node, "left", writer);
    writer.write(' ');
    write_node_field(node, "operator", writer);
    writer.write(' ');
    let right_node = child_by_field_name(node, "right");
    if str_eq(right_node.kind.as_str(), "dynamic_array") {
        write_dynamic_array(right_node, writer);
    } else {
        write_expression(right_node, writer);
    }
}

fn write_array_indexed_access(node: &SyntaxNode, writer: &mut Writer)
    requires
        node.wf(),
        node.kind@ == "array_indexed_access"@,
    ensures
        final(writer)@ == fmt_array_indexed_access(old(writer)@, *node),
        keeps_mode(old(writer)@, final(writer)@, *node),
    decreases node, node.children@.len() + 5,
{
    let array_node = child_by_field_name(node, "array");
    if str_eq(array_node.kind.as_str(), "array_indexed_access") {
        write_array_indexed_access(array_node, writer);
    } else {
        write_node(array_node, writer);
    }
    writer.write('[');
    write_expression_field(node, "index", writer);
    writer.write(']');
}

fn write_field_access(node: &SyntaxNode, writer: &mut Writer)
    requires
        node.wf(),
        node.kind@ == "field_access"@,
    ensures
        final(writer)@ == fmt_field_access(old(writer)@, *node),
        keeps_mode(old(writer)@, final(writer)@, *node),
    decreases node, node.children@.len() + 5,
{
    write_expression_field(node, "target", writer);
    writer.write('.');
    write_node_field(node, "field", writer);
}

fn write_arguments_field(node: &SyntaxNode, writer: &mut Writer)
    requires
        node.wf(),
        node.has_field("arguments"@),
    ensures
        final(writer)@ == fmt_arguments_field(old(writer)@, *node),
        keeps_mode(old(writer)@, final(writer)@, *node),
    decreases node, node.children@.len() + 1,
{
    write_function_call_arguments(child_by_field_name(node, "arguments"), writer);
}

fn write_new_instance(node: &SyntaxNode, writer: &mut Writer)
    requires
        node.wf(),
        node.kind@ == "new_instance"@,
    ensures
        final(writer)@ == fmt_new_instance(old(writer)@, *node),
        keeps_mode(old(writer)@, final(writer)@, *node),
    decreases node, node.children@.len() + 5,
{
    writer.write_str("new ");
    write_node_field(node, "class", writer);
    write_arguments_field(node, writer);
}

fn write_function_call(node: &SyntaxNode, writer: &mut Writer)
    requires
        node.wf(),
        node.kind@ == "function_call"@,
    ensures
        final(writer)@ == fmt_function_call(old(writer)@, *node),
        keeps_mode(old(writer)@, final(writer)@, *node),
    decreases node, node.children@.len() + 5,
{
    write_expression_field(node, "function", writer);
    write_arguments_field(node, writer);
}

fn write_unary_expression(node: &SyntaxNode, writer: &mut Writer)
    requires
        node.wf(),
        node.kind@ == "unary_expression"@,
    ensures
        final(writer)@ == fmt_unary_expression(old(writer)@, *node),
        keeps_mode(old(writer)@, final(writer)@, *node),
    decreases node, node.children@.len() + 5,
{
    write_node_field(node, "operator", writer);
    write_expression_field(node, "argument", writer);
}

fn write_parenthesized_expression(node: &SyntaxNode, writer: &mut Writer)
    requires
        node.wf(),
        node.kind@ == "parenthesized_expression"@,
    ensures
        final(writer)@ == fmt_parenthesized_expression(old(writer)@, *node),
        keeps_mode(old(writer)@, final(writer)@, *node),
    decreases node, node.children@.len() + 5,
{
    writer.write('(');
    let expression_node = child_by_field_name(node, "expression");
    if str_eq(expression_node.kind.as_str(), "comma_expression") {
        write_comma_expression(expression_node, writer);
    } else {
        write_expression(expression_node, writer);
    }
    writer.write(')');
}

fn write_comma_expression(node: &SyntaxNode, writer: &mut Writer)
    requires
        node.wf(),
        node.kind@ == "comma_expression"@,
    ensures
        final(writer)@ == fmt_comma_expression(old(writer)@, *node),
        keeps_mode(old(writer)@, final(writer)@, *node),
    decreases node, node.children@.len() + 5,
{
    write_expression_field(node, "left", writer);
    writer.write_str(", ");
    write_expression_field(node, "right", writer);
}

fn write_concatenated_string(node: &SyntaxNode, writer: &mut Writer)
    requires
        node.wf(),
        node.kind@ == "concatenated_string"@,
    ensures
        final(writer)@ == fmt_concatenated_string(old(writer)@, *node),
        keeps_mode(old(writer)@, final(writer)@, *node),
    decreases node, node.children@.len() + 5,
{
    write_node_field(node, "left", writer);
    writer.write_str(" ... ");
    let right_node = child_by_field_name(node, "right");
    if str_eq(right_node.kind.as_str(), "concatenated_string") {
        write_concatenated_string(right_node, writer);
    } else {
        write_node(right_node, writer);
    }
}

fn write_update_expression(node: &SyntaxNode, writer: &mut Writer)
    requires
        node.wf(),
        node.kind@ == "update_expression"@,
    ensures
        final(writer)@ == fmt_update_expression(old(writer)@, *node),
        keeps_mode(old(writer)@, final(writer)@, *node),
    decreases node, node.children@.len() + 5,
{
    let argument_node = child_by_field_name(node, "argument");
    let operator_node = child_by_field_name(node, "operator");
    if point_is_le(operator_node.end_position, argument_node.start_position) {
        write_node(operator_node, writer);
        write_expression(argument_node, writer);
    } else {
        write_expression(argument_node, writer);
        write_node(operator_node, writer);
    }
}

fn write_ternary_expression(node: &SyntaxNode, writer: &mut Writer)
    requires
        node.wf(),
        node.kind@ == "ternary_expression"@,
    ensures
        final(writer)@ == fmt_ternary_expression(old(writer)@, *node),
        keeps_mode(old(writer)@, final(writer)@, *node),
    decreases node, node.children@.len() + 5,
{
    write_expression_field(node, "condition", writer);
    writer.write_str(" ? ");
    write_expression_field(node, "consequence", writer);
    writer.write_str(" : ");
    write_expression_field(node, "alternative", writer);
}

fn write_scope_access(node: &SyntaxNode, writer: &mut Writer)
    requires
        node.wf(),
        node.kind@ == "scope_access"@,
    ensures
        final(writer)@ == fmt_scope_access(old(writer)@, *node),
        keeps_mode(old(writer)@, final(writer)@, *node),
    decreases node, node.children@.len() + 5,
{
    write_expression_field(node, "scope", writer);
    writer.write_str("::");
    write_expression_field(node, "field", writer);
}

fn write_view_as(node: &SyntaxNode, writer: &mut Writer)
    requires
        node.wf(),
        node.kind@ == "view_as"@,
        node.named,
    ensures
        final(writer)@ == fmt_view_as(old(writer)@, *node),
        keeps_mode(old(writer)@, final(writer)@, *node),
    decreases node, node.children@.len() + 5,
{
    writer.write_str("view_as<");
    write_node_field(node, "type", writer);
    writer.write_str(">(");
    write_expression_field(node, "value", writer);
    writer.write(')');
}

fn write_array_literal(node: &SyntaxNode, writer: &mut Writer)
    requires
        node.wf(),
    ensures
        final(writer)@ == fmt_array_literal(old(writer)@, *node),
        keeps_mode(old(writer)@, final(writer)@, *node),
    decreases node, node.children@.len() + 5,
{
    writer.write_str("{ ");
    let ghost st1 = writer@;
    let mut i: usize = 0;
    while i < node.children.len()
        invariant
            i <= node.children@.len(),
            node.wf(),
            writer@ == fmt_array_literal_upto(st1, *node, i as int),
            keeps_mode(st1, writer@, *node),
        decreases node.children@.len() - i,
    {
        let child = &node.children[i];
        let k = child.kind.as_str();
        if str_eq(k, "{") || str_eq(k, "}") {
        } else if str_eq(k, ",") {
            writer.write_str(", ");
        } else {
            write_expression(child, writer);
        }
        i += 1;
    }
    writer.write_str(" }");
}

fn write_sizeof_expression(node: &SyntaxNode, writer: &mut Writer)
    requires
        node.wf(),
    ensures
        final(writer)@ == fmt_sizeof_expression(old(writer)@, *node),
        keeps_mode(old(writer)@, final(writer)@, *node),
    decreases node, node.children@.len() + 5,
{
    writer.write_str("sizeof ");
    let ghost st1 = writer@;
    let mut i: usize = 0;
    while i < node.children.len()
        invariant
            i <= node.children@.len(),
            node.wf(),
            writer@ == fmt_sizeof_upto(st1, *node, i as int),
            keeps_mode(st1, writer@, *node),
        decreases node.children@.len() - i,
    {
        let child = &node.children[i];
        let is_type = match &child.field_name {
            Some(f) => str_eq(f.as_str(), "type"),
            None => false,
        };
        if is_type {
            if str_eq(child.kind.as_str(), "dimension") {
                write_dimension(child, writer, true);
            } else {
                write_expression(child, writer);
            }
        }
        i += 1;
    }
}

pub fn write_function_call_arguments(node: &SyntaxNode, writer: &mut Writer)
    requires
        node.wf(),
    ensures
        final(writer)@ == fmt_function_call_arguments(old(writer)@, *node),
        keeps_mode(old(writer)@, final(writer)@, *node),
    decreases node, node.children@.len() + 5,
{
    let ghost st1 = writer@;
    let mut i: usize = 0;
    while i < node.children.len()
        invariant
            i <= node.children@.len(),
            node.wf(),
            writer@ == fmt_call_arguments_upto(st1, *node, i as int),
            keeps_mode(st1, writer@, *node),
            node.parens_first() && opened_upto(node.children@, i as int) ==> exists|p: int|
                st1.out.len() <= p < writer@.out.len() && #[trigger] writer@.out[p] == '(',
        decreases node.children@.len() - i,
    {
        let child = &node.children[i];
        let k = child.kind.as_str();
        let ghost pre = writer@;
        if str_eq(k, "(") {
            writer.write('(');
        } else if str_eq(k, ")") {
            if str_ends_with(writer.output.as_str(), ", ") {
                proof {
                    reveal_strlit(", ");
                }
                let ghost before = writer@;
                string_pop(&mut writer.output);
                string_pop(&mut writer.output);
                assert(writer@ == drop_trailing_comma(before));
            }
            writer.write(')');
        } else if str_eq(k, ",") {
            writer.write_str(", ");
        } else if str_eq(k, "symbol") || str_eq(k, "ignore_argument") {
            write_node(child, writer);
        } else if str_eq(k, "named_arg") {
            write_named_arg(child, writer);
        } else if writer.is_expression(k) {
            write_expression(child, writer);
        } else {
            write_node(child, writer);
        }
        proof {
            if node.parens_first() {
                call_arguments_step_keeps_text(st1, pre, writer@, *node, i as int);
            }
        }
        i += 1;
    }
}

/// One step of writing call arguments keeps the text written before the
/// arguments, and the `(` written among them, when every `)` follows a `(`.
proof fn call_arguments_step_keeps_text(
    st1: FmtState,
    pre: FmtState,
    post: FmtState,
    node: SyntaxNode,
    i: int,
)
    requires
        node.wf(),
        node.parens_first(),
        0 <= i < node.children@.len(),
        pre == fmt_call_arguments_upto(st1, node, i),
        post == fmt_call_arguments_upto(st1, node, i + 1),
        extends(st1.out, pre.out),
        opened_upto(node.children@, i) ==> exists|p: int|
            st1.out.len() <= p < pre.out.len() && #[trigger] pre.out[p] == '(',
        keeps_mode(pre, post, node.children@[i]) || node.children@[i].kind@ == ")"@
            || node.children@[i].kind@ == "("@,
    ensures
        extends(st1.out, post.out),
        opened_upto(node.children@, i + 1) ==> exists|p: int|
            st1.out.len() <= p < post.out.len() && #[trigger] post.out[p] == '(',
{
    reveal_strlit(", ");
    let ch = node.children@[i];
    assert(ch.parens_first());
    if ch.kind@ == "("@ {
        assert(post.out == pre.out.push('('));
        assert(post.out[pre.out.len() as int] == '(');
    } else if ch.kind@ == ")"@ {
        assert(opened_upto(node.children@, i));
        let p = choose|p: int| st1.out.len() <= p < pre.out.len() && #[trigger] pre.out[p] == '(';
        let n = pre.out.len();
        if pre.ends_with(", "@) {
            assert(pre.out.subrange(n - 2, n as int) == ", "@);
            assert(pre.out[n - 2] == pre.out.subrange(n - 2, n as int)[0]);
            assert(pre.out[n - 1] == pre.out.subrange(n - 2, n as int)[1]);
            assert(p < n - 2);
        }
        assert(post.out[p] == '(');
    } else {
        assert(extends(pre.out, post.out));
        if opened_upto(node.children@, i) {
            let p = choose|p: int|
                st1.out.len() <= p < pre.out.len() && #[trigger] pre.out[p] == '(';
            assert(post.out[p] == '(');
        }
    }
}

fn write_named_arg(node: &SyntaxNode, writer: &mut Writer)
    requires
        node.wf(),
        node.kind@ == "named_arg"@,
    ensures
        final(writer)@ == fmt_named_arg(old(writer)@, *node),
        keeps_mode(old(writer)@, final(writer)@, *node),
{
    writer.write('.');
    write_node_field(node, "name", writer);
    writer.write_str(" = ");
    // The value is kept as it is.
    write_node_field(node, "value", writer);
}

} // verus!
