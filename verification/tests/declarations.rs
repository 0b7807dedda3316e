use sp_format::settings::{BraceWrappingSettings, BreakSettings, Settings};
use sp_format::syntax::{Point, Sibling, SyntaxNode};
use sp_format::formatter::format_tree;
use sp_format::writers::assertions::write_assertion;
use sp_format::writers::enums::write_enum;
use sp_format::writers::functions::write_function_declaration;
use sp_format::writers::hardcoded_symbols::write_hardcoded_symbol;
use sp_format::writers::methodmaps::write_methodmap;
use sp_format::writers::preproc::{write_preproc_define, write_preproc_include};
use sp_format::writers::statements::write_statement;
use sp_format::writers::structs::{write_struct, write_struct_declaration};
use sp_format::writers::typedefs::write_typedef;
use sp_format::writers::Writer;

fn settings() -> Settings {
    Settings {
        use_space: false,
        space_size: 4,
        breaks: BreakSettings {
            after_function_decl: 1,
            before_function_def: 1,
            before_enum: 2,
            before_enum_struct: 1,
            before_methodmap: 1,
        },
        brace_wrapping: BraceWrappingSettings {
            before_function: false,
            before_loop: false,
            before_condition: false,
            before_enum_struct: false,
            before_enum: false,
            before_typeset: false,
            before_funcenum: false,
            before_methodmap: false,
            before_methodmap_property: false,
            before_struct_ctor: false,
        },
    }
}

fn at(row: usize, column: usize) -> Point {
    Point { row, column }
}

/// A node on one row, from `col` on, with no children.
fn leaf(kind: &str, text: &str, row: usize, col: usize) -> SyntaxNode {
    node(kind, text, at(row, col), at(row, col + text.len()), vec![])
}

fn sibling(n: &SyntaxNode) -> Sibling {
    Sibling { kind: n.kind.clone(), start_position: n.start_position, end_position: n.end_position }
}

/// A node with the given children, which get their neighbours filled in.
fn node(kind: &str, text: &str, start: Point, end: Point, mut children: Vec<SyntaxNode>) -> SyntaxNode {
    let mut size = 1;
    let mut last_named: Option<usize> = None;
    for i in 0..children.len() {
        let prev = if i > 0 { Some(sibling(&children[i - 1])) } else { None };
        let next = if i + 1 < children.len() { Some(sibling(&children[i + 1])) } else { None };
        let prev_named = last_named.map(|j| sibling(&children[j]));
        children[i].prev_sibling = prev;
        children[i].next_sibling = next;
        children[i].prev_named_sibling = prev_named;
        size += children[i].size;
        if children[i].named {
            last_named = Some(i);
        }
    }
    let named = kind.chars().next().map(|c| c.is_ascii_lowercase()).unwrap_or(false);
    SyntaxNode {
        kind: kind.to_string(),
        text: text.to_string(),
        named,
        field_name: None,
        start_byte: 0,
        end_byte: text.len(),
        start_position: start,
        end_position: end,
        prev_sibling: None,
        next_sibling: None,
        prev_named_sibling: None,
        has_error: false,
        size,
        children,
    }
}

fn field(mut n: SyntaxNode, name: &str) -> SyntaxNode {
    n.field_name = Some(name.to_string());
    n
}

/// `{ x }` over three rows, starting at `row`.
fn block_at(row: usize) -> SyntaxNode {
    let stmt = node(
        "expression_statement",
        "x",
        at(row + 1, 0),
        at(row + 1, 1),
        vec![leaf("symbol", "x", row + 1, 0)],
    );
    node(
        "block",
        "{\nx\n}",
        at(row, 0),
        at(row + 2, 1),
        vec![leaf("{", "{", row, 0), stmt, leaf("}", "}", row + 2, 0)],
    )
}

fn binary(left: SyntaxNode, op: SyntaxNode, right: SyntaxNode) -> SyntaxNode {
    let start = left.start_position;
    let end = right.end_position;
    node(
        "binary_expression",
        "",
        start,
        end,
        vec![field(left, "left"), field(op, "operator"), field(right, "right")],
    )
}

#[test]
fn for_loop_separates_its_clauses() {
    let s = settings();
    let mut w = Writer::new(&s);
    let init = leaf("variable_declaration_statement", "int i = 0;", 0, 4);
    let cond = binary(leaf("symbol", "i", 0, 15), leaf("<", "<", 0, 17), leaf("symbol", "n", 0, 19));
    let update = node(
        "update_expression",
        "i++",
        at(0, 22),
        at(0, 25),
        vec![field(leaf("symbol", "i", 0, 22), "argument"), field(leaf("++", "++", 0, 23), "operator")],
    );
    let for_loop = node(
        "for_statement",
        "",
        at(0, 0),
        at(2, 1),
        vec![
            leaf("for", "for", 0, 0),
            leaf("(", "(", 0, 3),
            init,
            cond,
            update,
            leaf(")", ")", 0, 25),
            block_at(0),
        ],
    );
    write_statement(&for_loop, &mut w, true, false);
    assert_eq!(w.output, "for(int i = 0; i < n; i++) {\n\tx\n}");
    assert_eq!(w.indent, 0);
}

#[test]
fn while_loop_indents_a_body_without_braces() {
    let s = settings();
    let mut w = Writer::new(&s);
    let body = node("expression_statement", "x", at(1, 4), at(1, 5), vec![leaf("symbol", "x", 1, 4)]);
    let while_loop = node(
        "while_loop",
        "",
        at(0, 0),
        at(1, 5),
        vec![
            leaf("while", "while", 0, 0),
            leaf("(", "(", 0, 5),
            leaf("symbol", "c", 0, 6),
            leaf(")", ")", 0, 7),
            body,
        ],
    );
    write_statement(&while_loop, &mut w, true, false);
    assert_eq!(w.output, "while(c)\n\tx");
    assert_eq!(w.indent, 0);
}

#[test]
fn do_while_loop_puts_its_condition_below_the_body() {
    let s = settings();
    let mut w = Writer::new(&s);
    let mut body = block_at(0);
    body.start_position = at(0, 3);
    let do_while = node(
        "do_while_loop",
        "",
        at(0, 0),
        at(3, 9),
        vec![
            leaf("do", "do", 0, 0),
            body,
            leaf("while", "while", 3, 0),
            leaf("(", "(", 3, 5),
            leaf("symbol", "c", 3, 6),
            leaf(")", ")", 3, 7),
            leaf(";", ";", 3, 8),
        ],
    );
    write_statement(&do_while, &mut w, true, false);
    assert_eq!(w.output, "do {\n\tx\n}\nwhile(c);");
}

#[test]
fn switch_indents_its_cases_and_their_statements() {
    let s = settings();
    let mut w = Writer::new(&s);
    let values = node("switch_case_values", "9", at(1, 5), at(1, 6), vec![leaf("int_literal", "9", 1, 5)]);
    let case = node(
        "switch_case",
        "",
        at(1, 0),
        at(2, 1),
        vec![
            leaf("case", "case", 1, 0),
            values,
            leaf(":", ":", 1, 6),
            node("expression_statement", "x", at(2, 0), at(2, 1), vec![leaf("symbol", "x", 2, 0)]),
        ],
    );
    let default = node(
        "switch_default_case",
        "",
        at(3, 0),
        at(4, 1),
        vec![
            leaf("default", "default", 3, 0),
            leaf(":", ":", 3, 7),
            node("expression_statement", "y", at(4, 0), at(4, 1), vec![leaf("symbol", "y", 4, 0)]),
        ],
    );
    let switch = node(
        "switch_statement",
        "",
        at(0, 0),
        at(5, 1),
        vec![
            leaf("switch", "switch", 0, 0),
            leaf("(", "(", 0, 6),
            leaf("symbol", "c", 0, 7),
            leaf(")", ")", 0, 8),
            leaf("{", "{", 0, 10),
            case,
            default,
            leaf("}", "}", 5, 0),
        ],
    );
    write_statement(&switch, &mut w, true, false);
    assert_eq!(w.output, "switch(c) {\n\tcase 9:\n\t\tx\n\tdefault:\n\t\ty\n}");
    assert_eq!(w.indent, 0);
}

#[test]
fn return_statement_keeps_its_semicolon() {
    let s = settings();
    let mut w = Writer::new(&s);
    w.indent = 1;
    let ret = node(
        "return_statement",
        "return 0;",
        at(0, 0),
        at(0, 9),
        vec![leaf("return", "return", 0, 0), leaf("int_literal", "0", 0, 7), leaf(";", ";", 0, 8)],
    );
    write_statement(&ret, &mut w, true, false);
    assert_eq!(w.output, "\treturn 0;");
}

fn color_enum() -> SyntaxNode {
    let red = node("enum_entry", "Red", at(1, 0), at(1, 3), vec![leaf("symbol", "Red", 1, 0)]);
    let green = node(
        "enum_entry",
        "Green = 2",
        at(2, 0),
        at(2, 9),
        vec![leaf("symbol", "Green", 2, 0), leaf("=", "=", 2, 6), leaf("int_literal", "2", 2, 8)],
    );
    let entries = node(
        "enum_entries",
        "",
        at(0, 11),
        at(3, 1),
        vec![leaf("{", "{", 0, 11), red, leaf(",", ",", 1, 3), green, leaf("}", "}", 3, 0)],
    );
    node(
        "enum",
        "",
        at(0, 0),
        at(3, 1),
        vec![leaf("enum", "enum", 0, 0), leaf("symbol", "Color", 0, 5), entries],
    )
}

#[test]
fn enum_lists_one_entry_per_line() {
    let s = settings();
    let mut w = Writer::new(&s);
    write_enum(&color_enum(), &mut w);
    assert_eq!(w.output, "enum Color {\n\tRed,\n\tGreen = 2,\n}\n");
    assert_eq!(w.indent, 0);
}

#[test]
fn enum_after_a_declaration_gets_the_configured_breaks() {
    let s = settings();
    let mut w = Writer::new(&s);
    let mut e = color_enum();
    e.prev_sibling = Some(Sibling { kind: "function_definition".to_string(), start_position: at(0, 0), end_position: at(0, 0) });
    write_enum(&e, &mut w);
    assert_eq!(w.output, "\n\nenum Color {\n\tRed,\n\tGreen = 2,\n}\n");

    // After a preprocessor line or a comment, no break is added.
    let mut w2 = Writer::new(&s);
    let mut e2 = color_enum();
    e2.prev_sibling = Some(Sibling { kind: "preproc_include".to_string(), start_position: at(0, 0), end_position: at(0, 0) });
    write_enum(&e2, &mut w2);
    assert_eq!(w2.output, "enum Color {\n\tRed,\n\tGreen = 2,\n}\n");
}

fn plugin_start() -> SyntaxNode {
    let visibility = node("visibility", "public", at(0, 0), at(0, 6), vec![leaf("public", "public", 0, 0)]);
    let params = node(
        "parameter_declarations",
        "()",
        at(0, 25),
        at(0, 27),
        vec![leaf("(", "(", 0, 25), leaf(")", ")", 0, 26)],
    );
    let mut body = block_at(0);
    body.start_position = at(0, 28);
    node(
        "function_definition",
        "",
        at(0, 0),
        at(2, 1),
        vec![visibility, leaf("type", "void", 0, 7), leaf("identifier", "OnPluginStart", 0, 12), params, body],
    )
}

#[test]
fn function_definition_keeps_its_body_on_the_header_line() {
    let s = settings();
    let mut w = Writer::new(&s);
    write_function_declaration(&plugin_start(), &mut w);
    assert_eq!(w.output, "public void OnPluginStart() {\n\tx\n}\n");
    assert_eq!(w.indent, 0);
}

#[test]
fn function_after_another_item_is_followed_by_the_configured_breaks() {
    let s = settings();
    let mut w = Writer::new(&s);
    let mut f = plugin_start();
    f.prev_sibling = Some(Sibling { kind: "function_definition".to_string(), start_position: at(0, 0), end_position: at(0, 0) });
    write_function_declaration(&f, &mut w);
    assert_eq!(w.output, "public void OnPluginStart() {\n\tx\n}\n\n");
}

#[test]
fn typedef_of_a_function_type() {
    let s = settings();
    let mut w = Writer::new(&s);
    let arg_type = node("argument_type", "int", at(0, 27), at(0, 30), vec![leaf("type", "int", 0, 27)]);
    let arg = node(
        "argument_declaration",
        "int a",
        at(0, 27),
        at(0, 32),
        vec![arg_type, leaf("identifier", "a", 0, 31)],
    );
    let params = node(
        "parameter_declarations",
        "(int a)",
        at(0, 26),
        at(0, 33),
        vec![leaf("(", "(", 0, 26), arg, leaf(")", ")", 0, 32)],
    );
    let expr = node(
        "typedef_expression",
        "",
        at(0, 13),
        at(0, 33),
        vec![leaf("function", "function", 0, 13), leaf("type", "void", 0, 22), params],
    );
    let typedef = node(
        "typedef",
        "",
        at(0, 0),
        at(0, 34),
        vec![
            leaf("typedef", "typedef", 0, 0),
            leaf("identifier", "Cb", 0, 8),
            leaf("=", "=", 0, 11),
            expr,
            leaf(";", ";", 0, 33),
        ],
    );
    write_typedef(&typedef, &mut w);
    assert_eq!(w.output, "typedef Cb = function void (int a);\n");
}

#[test]
fn struct_declaration_lists_its_field_values() {
    let s = settings();
    let mut w = Writer::new(&s);
    let value = node(
        "struct_field_value",
        "",
        at(1, 0),
        at(1, 10),
        vec![
            leaf("identifier", "name", 1, 0),
            leaf("=", "=", 1, 5),
            leaf("string_literal", "\"x\"", 1, 7),
        ],
    );
    let ctor = node(
        "struct_constructor",
        "",
        at(0, 23),
        at(2, 2),
        vec![leaf("{", "{", 0, 23), value, leaf("}", "}", 2, 0), leaf(";", ";", 2, 1)],
    );
    let decl = node(
        "struct_declaration",
        "",
        at(0, 0),
        at(2, 2),
        vec![
            leaf("public", "public", 0, 0),
            leaf("identifier", "Plugin", 0, 7),
            leaf("identifier", "myinfo", 0, 14),
            leaf("=", "=", 0, 21),
            ctor,
        ],
    );
    write_struct_declaration(&decl, &mut w);
    assert_eq!(w.output, "public Plugin myinfo = {\n\tname = \"x\",\n};");
    assert_eq!(w.indent, 0);
}

#[test]
fn struct_writes_its_fields_indented() {
    let s = settings();
    let mut w = Writer::new(&s);
    let field_node = node(
        "struct_field",
        "",
        at(1, 0),
        at(1, 13),
        vec![
            leaf("public", "public", 1, 0),
            leaf("type", "int", 1, 7),
            leaf("identifier", "x", 1, 11),
            leaf(";", ";", 1, 12),
        ],
    );
    let st = node(
        "struct",
        "",
        at(0, 0),
        at(2, 2),
        vec![
            leaf("struct", "struct", 0, 0),
            leaf("identifier", "Foo", 0, 7),
            leaf("{", "{", 0, 11),
            field_node,
            leaf("}", "}", 2, 0),
            leaf(";", ";", 2, 1),
        ],
    );
    write_struct(&st, &mut w);
    assert_eq!(w.output, "struct Foo\n{\n\tpublic int x;};\n");
    assert_eq!(w.indent, 0);
}

#[test]
fn library_and_define_lines() {
    let s = settings();
    let mut w = Writer::new(&s);
    let library = node(
        "preproc_include",
        "#include <sourcemod>",
        at(0, 0),
        at(0, 20),
        vec![leaf("#include", "#include", 0, 0), leaf("system_lib_string", "<sourcemod>", 0, 9)],
    );
    let define = node(
        "preproc_define",
        "#define MAX  10 ",
        at(3, 0),
        at(3, 16),
        vec![
            leaf("#define", "#define", 3, 0),
            leaf("identifier", "MAX", 3, 8),
            leaf("preproc_arg", "  10 ", 3, 11),
        ],
    );
    let file = node("source_file", "", at(0, 0), at(3, 16), vec![library, define]);
    write_preproc_include(&file.children[0], &mut w);
    assert_eq!(w.output, "#include <sourcemod>\n\n");
    write_preproc_define(&file.children[1], &mut w);
    assert_eq!(w.output, "#include <sourcemod>\n\n#define MAX 10\n");
}

#[test]
fn methodmap_members_are_indented_and_spaced() {
    let s = settings();
    let mut w = Writer::new(&s);
    let params = |row: usize, col: usize| {
        node("parameter_declarations", "()", at(row, col), at(row, col + 2), vec![leaf("(", "(", row, col), leaf(")", ")", row, col + 1)])
    };
    let native = node(
        "methodmap_native",
        "public native void Close();",
        at(1, 4),
        at(1, 31),
        vec![
            leaf("public", "public", 1, 4),
            leaf("native", "native", 1, 11),
            leaf("type", "void", 1, 18),
            leaf("symbol", "Close", 1, 23),
            params(1, 28),
            leaf(";", ";", 1, 30),
        ],
    );
    let mut body = block_at(2);
    body.start_position = at(2, 22);
    let method = node(
        "methodmap_method",
        "",
        at(2, 4),
        at(4, 1),
        vec![
            leaf("public", "public", 2, 4),
            leaf("type", "void", 2, 11),
            leaf("symbol", "Bar", 2, 16),
            params(2, 19),
            body,
        ],
    );
    let map = node(
        "methodmap",
        "",
        at(0, 0),
        at(5, 2),
        vec![
            leaf("methodmap", "methodmap", 0, 0),
            leaf("identifier", "Foo", 0, 10),
            leaf("<", "<", 0, 14),
            leaf("identifier", "Handle", 0, 16),
            leaf("{", "{", 0, 23),
            native,
            method,
            leaf("}", "}", 5, 0),
            leaf(";", ";", 5, 1),
        ],
    );
    write_methodmap(&map, &mut w);
    assert_eq!(
        w.output,
        "methodmap Foo < Handle {\n\n\tpublic native void Close();\n\n\tpublic void Bar() {\n\t\tx\n\t}\n};\n"
    );
    assert_eq!(w.indent, 0);
}

#[test]
fn assertion_writes_its_arguments_and_a_semicolon() {
    let s = settings();
    let mut w = Writer::new(&s);
    let args = node(
        "function_call_arguments",
        "(x,y)",
        at(0, 6),
        at(0, 11),
        vec![
            leaf("(", "(", 0, 6),
            leaf("symbol", "x", 0, 7),
            leaf(",", ",", 0, 8),
            leaf("symbol", "y", 0, 9),
            leaf(")", ")", 0, 10),
        ],
    );
    let assertion = node(
        "assertion",
        "assert(x,y);",
        at(0, 0),
        at(0, 12),
        vec![leaf("assert", "assert", 0, 0), args, leaf(";", ";", 0, 11)],
    );
    write_assertion(&assertion, &mut w);
    assert_eq!(w.output, "assert(x, y);\n");
}

fn handle_symbol() -> SyntaxNode {
    node(
        "hardcoded_symbol",
        "using __intrinsics__.Handle;",
        at(0, 0),
        at(0, 28),
        vec![
            leaf("using __intrinsics__.Handle", "using __intrinsics__.Handle", 0, 0),
            leaf(";", ";", 0, 27),
        ],
    )
}

#[test]
fn hardcoded_symbol_ends_with_a_semicolon() {
    let s = settings();
    let mut w = Writer::new(&s);
    write_hardcoded_symbol(&handle_symbol(), &mut w);
    assert_eq!(w.output, "using __intrinsics__.Handle;\n");
}

#[test]
fn source_file_keeps_a_trailing_comment_on_its_line() {
    let s = settings();
    let comment = leaf("comment", "// h  ", 0, 29);
    let mut e = color_enum();
    e.start_position = at(2, 0);
    e.end_position = at(5, 1);
    let root = node("source_file", "", at(0, 0), at(5, 1), vec![handle_symbol(), comment, e]);
    assert_eq!(
        format_tree(&root, &s),
        Ok("using __intrinsics__.Handle;\t// h\n\nenum Color {\n\tRed,\n\tGreen = 2,\n}\n".to_string())
    );
}
