use sp_format::settings::{BraceWrappingSettings, BreakSettings, Settings};
use sp_format::syntax::{Point, Sibling, SyntaxNode};
use sp_format::writers::expressions::{write_expression, write_function_call_arguments};
use sp_format::writers::preproc::{insert_break, write_preproc_generic};
use sp_format::writers::statements::{write_block, write_statement};
use sp_format::writers::{node_len, write_comment, write_dimension, Writer};

fn settings(use_space: bool) -> Settings {
    Settings {
        use_space,
        space_size: 4,
        breaks: BreakSettings {
            after_function_decl: 1,
            before_function_def: 1,
            before_enum: 1,
            before_enum_struct: 1,
            before_methodmap: 1,
        },
        brace_wrapping: BraceWrappingSettings {
            before_function: false,
            before_loop: false,
            before_condition: false,
            before_enum_struct: false,
            before_enum: false,
            before_typeset: false,
            before_funcenum: false,
            before_methodmap: false,
            before_methodmap_property: false,
            before_struct_ctor: false,
        },
    }
}

/// A node on one row, from `col` on, with no children.
fn leaf(kind: &str, text: &str, row: usize, col: usize) -> SyntaxNode {
    node(kind, text, Point { row, column: col }, Point { row, column: col + text.len() }, vec![])
}

fn sibling(n: &SyntaxNode) -> Sibling {
    Sibling { kind: n.kind.clone(), start_position: n.start_position, end_position: n.end_position }
}

/// A node with the given children, which get their neighbours filled in.
fn node(kind: &str, text: &str, start: Point, end: Point, mut children: Vec<SyntaxNode>) -> SyntaxNode {
    let mut size = 1;
    let mut last_named: Option<usize> = None;
    for i in 0..children.len() {
        let prev = if i > 0 { Some(sibling(&children[i - 1])) } else { None };
        let next = if i + 1 < children.len() { Some(sibling(&children[i + 1])) } else { None };
        let prev_named = last_named.map(|j| sibling(&children[j]));
        children[i].prev_sibling = prev;
        children[i].next_sibling = next;
        children[i].prev_named_sibling = prev_named;
        size += children[i].size;
        if children[i].named {
            last_named = Some(i);
        }
    }
    let named = kind.chars().next().map(|c| c.is_ascii_lowercase()).unwrap_or(false);
    SyntaxNode {
        kind: kind.to_string(),
        text: text.to_string(),
        named,
        field_name: None,
        start_byte: 0,
        end_byte: text.len(),
        start_position: start,
        end_position: end,
        prev_sibling: None,
        next_sibling: None,
        prev_named_sibling: None,
        has_error: false,
        size,
        children,
    }
}

fn field(mut n: SyntaxNode, name: &str) -> SyntaxNode {
    n.field_name = Some(name.to_string());
    n
}

fn at(row: usize, column: usize) -> Point {
    Point { row, column }
}

#[test]
fn writer_appends_what_it_is_given() {
    let s = settings(true);
    let mut w = Writer::new(&s);
    assert_eq!(w.indent_string, "    ");
    w.write_str("ab");
    w.write('c');
    w.write_ln();
    w.indent = 2;
    w.write_indent();
    assert_eq!(w.output, "abc\n        ");
    w.write_lns(2);
    assert_eq!(w.output, "abc\n        \n\n");
}

#[test]
fn writer_indents_with_a_tab_without_spaces() {
    let s = settings(false);
    let mut w = Writer::new(&s);
    assert_eq!(w.indent_string, "\t");
    w.indent = 3;
    w.write_indent();
    assert_eq!(w.output, "\t\t\t");
}

#[test]
fn kinds_of_statements_expressions_and_literals() {
    let s = settings(false);
    let w = Writer::new(&s);
    assert!(w.is_statement("block"));
    assert!(w.is_statement("expression_statement"));
    assert!(!w.is_statement("while_loop"));
    assert!(w.is_literal("string_literal"));
    assert!(!w.is_literal("symbol"));
    assert!(w.is_expression("symbol"));
    assert!(w.is_expression("int_literal"));
    assert!(!w.is_expression("block"));
}

#[test]
fn binary_expression_gets_spaces_around_its_operator() {
    let s = settings(false);
    let mut w = Writer::new(&s);
    let e = node(
        "binary_expression",
        "a+1",
        at(0, 0),
        at(0, 3),
        vec![
            field(leaf("symbol", "a", 0, 0), "left"),
            field(leaf("+", "+", 0, 1), "operator"),
            field(leaf("int_literal", "1", 0, 2), "right"),
        ],
    );
    write_expression(&e, &mut w);
    assert_eq!(w.output, "a + 1");
}

#[test]
fn call_arguments_lose_a_trailing_comma() {
    let s = settings(false);
    let mut w = Writer::new(&s);
    let args = node(
        "call_arguments",
        "(a,b,)",
        at(0, 0),
        at(0, 6),
        vec![
            leaf("(", "(", 0, 0),
            leaf("symbol", "a", 0, 1),
            leaf(",", ",", 0, 2),
            leaf("symbol", "b", 0, 3),
            leaf(",", ",", 0, 4),
            leaf(")", ")", 0, 5),
        ],
    );
    write_function_call_arguments(&args, &mut w);
    assert_eq!(w.output, "(a, b)");
}

#[test]
fn ternary_and_view_as() {
    let s = settings(false);
    let mut w = Writer::new(&s);
    let t = node(
        "ternary_expression",
        "c?x:y",
        at(0, 0),
        at(0, 5),
        vec![
            field(leaf("symbol", "c", 0, 0), "condition"),
            leaf("?", "?", 0, 1),
            field(leaf("symbol", "x", 0, 2), "consequence"),
            leaf(":", ":", 0, 3),
            field(leaf("symbol", "y", 0, 4), "alternative"),
        ],
    );
    write_expression(&t, &mut w);
    assert_eq!(w.output, "c ? x : y");
    let v = node(
        "view_as",
        "view_as<int>(f)",
        at(0, 0),
        at(0, 15),
        vec![
            leaf("view_as", "view_as", 0, 0),
            field(leaf("type", "int", 0, 8), "type"),
            field(leaf("symbol", "f", 0, 13), "value"),
        ],
    );
    let mut w2 = Writer::new(&s);
    write_expression(&v, &mut w2);
    assert_eq!(w2.output, "view_as<int>(f)");
}

#[test]
fn array_literal_and_dimension() {
    let s = settings(false);
    let mut w = Writer::new(&s);
    let a = node(
        "array_literal",
        "{1,2}",
        at(0, 0),
        at(0, 5),
        vec![
            leaf("{", "{", 0, 0),
            leaf("int_literal", "1", 0, 1),
            leaf(",", ",", 0, 2),
            leaf("int_literal", "2", 0, 3),
            leaf("}", "}", 0, 4),
        ],
    );
    write_expression(&a, &mut w);
    assert_eq!(w.output, "{ 1, 2 }");
    let parent = node(
        "argument_type",
        "int[] x",
        at(0, 0),
        at(0, 7),
        vec![leaf("dimension", "[]", 0, 3), leaf("identifier", "x", 0, 6)],
    );
    let mut w2 = Writer::new(&s);
    write_dimension(&parent.children[0], &mut w2, true);
    assert_eq!(w2.output, "[] ");
}

fn simple_block() -> SyntaxNode {
    let stmt = node(
        "expression_statement",
        "x",
        at(1, 0),
        at(1, 1),
        vec![leaf("symbol", "x", 1, 0)],
    );
    node(
        "block",
        "{\nx\n}",
        at(0, 0),
        at(2, 1),
        vec![leaf("{", "{", 0, 0), stmt, leaf("}", "}", 2, 0)],
    )
}

#[test]
fn block_indents_its_statements_and_restores_the_indentation() {
    let s = settings(false);
    let mut w = Writer::new(&s);
    let b = simple_block();
    write_block(&b, &mut w, false);
    assert_eq!(w.output, "{\n\tx\n}");
    assert_eq!(w.indent, 0);
}

#[test]
fn statements_get_a_semicolon_in_semicolon_mode() {
    let s = settings(false);
    let mut w = Writer::new(&s);
    w.semicolon = true;
    let b = simple_block();
    write_statement(&b, &mut w, false, false);
    assert_eq!(w.output, "{\n\tx;\n}");
    assert!(w.semicolon);
}

#[test]
fn if_else_puts_else_on_its_own_line() {
    let s = settings(false);
    let mut w = Writer::new(&s);
    let mut then_block = simple_block();
    then_block.start_position = at(0, 7);
    let else_block = simple_block();
    let cond = node(
        "condition_statement",
        "if(c){x}else{x}",
        at(0, 0),
        at(2, 1),
        vec![
            leaf("if", "if", 0, 0),
            leaf("(", "(", 0, 2),
            leaf("symbol", "c", 0, 3),
            leaf(")", ")", 0, 4),
            then_block,
            leaf("else", "else", 0, 6),
            else_block,
        ],
    );
    write_statement(&cond, &mut w, true, false);
    assert_eq!(w.output, "if(c) {\n\tx\n}\nelse {\n\tx\n}");
    assert_eq!(w.indent, 0);
}

#[test]
fn break_after_a_node_depends_on_what_follows() {
    let s = settings(false);
    let parent = node(
        "source_file",
        "",
        at(0, 0),
        at(4, 0),
        vec![
            leaf("symbol", "a", 0, 0),
            leaf("comment", "// c", 0, 2),
            leaf("symbol", "b", 1, 0),
            leaf("symbol", "d", 3, 0),
        ],
    );
    let mut w = Writer::new(&s);
    insert_break(&parent.children[0], &mut w);
    assert_eq!(w.output, "");
    insert_break(&parent.children[1], &mut w);
    assert_eq!(w.output, "\n");
    insert_break(&parent.children[2], &mut w);
    assert_eq!(w.output, "\n\n\n");
    insert_break(&parent.children[3], &mut w);
    assert_eq!(w.output, "\n\n\n\n");
}

#[test]
fn comment_is_trimmed_and_follows_its_row() {
    let s = settings(true);
    let parent = node(
        "source_file",
        "",
        at(0, 0),
        at(2, 0),
        vec![leaf("symbol", "a", 0, 0), leaf("comment", "  // hi  ", 0, 2)],
    );
    let mut w = Writer::new(&s);
    write_comment(&parent.children[1], &mut w);
    assert_eq!(w.output, "    // hi\n");
}

#[test]
fn pragma_semicolon_turns_on_semicolon_mode() {
    let s = settings(false);
    let parent = node(
        "source_file",
        "",
        at(0, 0),
        at(1, 0),
        vec![node(
            "preproc_pragma",
            "#pragma semicolon 1",
            at(0, 0),
            at(0, 19),
            vec![leaf("#pragma", "#pragma", 0, 0), leaf("preproc_arg", " semicolon 1 ", 0, 7)],
        )],
    );
    let mut w = Writer::new(&s);
    write_preproc_generic(&parent.children[0], &mut w);
    assert_eq!(w.output, "#pragma semicolon 1\n");
    assert!(w.semicolon);
}

#[test]
fn node_len_is_its_byte_span() {
    let n = leaf("symbol", "abc", 0, 0);
    assert_eq!(node_len(&n), 3);
}

#[test]
fn earlier_text_stays_when_a_node_is_written() {
    let s = settings(false);
    let mut w = Writer::new(&s);
    w.write_str("int a = ");
    let args = node(
        "function_call_arguments",
        "(x,)",
        at(0, 0),
        at(0, 4),
        vec![leaf("(", "(", 0, 0), leaf("symbol", "x", 0, 1), leaf(",", ",", 0, 2), leaf(")", ")", 0, 3)],
    );
    write_function_call_arguments(&args, &mut w);
    assert_eq!(w.output, "int a = (x)");
    let b = simple_block();
    write_block(&b, &mut w, false);
    assert!(w.output.starts_with("int a = (x)"));
}

#[test]
fn a_close_paren_without_an_open_one_may_take_back_earlier_text() {
    let s = settings(false);
    let mut w = Writer::new(&s);
    w.write_str("f(a,");
    let args = node(
        "function_call_arguments",
        " )",
        at(0, 0),
        at(0, 2),
        vec![leaf("symbol", " ", 0, 0), leaf(")", ")", 0, 1)],
    );
    write_function_call_arguments(&args, &mut w);
    assert_eq!(w.output, "f(a)");
}

#[test]
fn writing_keeps_the_skip_counter_and_the_configuration() {
    let s = settings(false);
    let mut w = Writer::new(&s);
    w.skip = 3;
    w.semicolon = true;
    let b = simple_block();
    write_block(&b, &mut w, false);
    assert_eq!(w.skip, 3);
    assert!(w.semicolon);
    assert_eq!(w.indent, 0);
    assert_eq!(w.indent_string, "\t");
    assert_eq!(w.output, "{\n\tx;\n}");
}
