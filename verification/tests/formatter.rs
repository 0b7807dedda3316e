use sp_format::formatter::{format_parsed, format_string, format_tree, FormatError};
use sp_format::parser::span_text;
use sp_format::settings::{in_use, BraceWrappingSettings, BreakSettings, Settings};
use sp_format::syntax::{Point, SyntaxNode};

fn settings() -> Settings {
    Settings {
        use_space: false,
        space_size: 4,
        breaks: BreakSettings {
            after_function_decl: 1,
            before_function_def: 1,
            before_enum: 1,
            before_enum_struct: 1,
            before_methodmap: 1,
        },
        brace_wrapping: BraceWrappingSettings {
            before_function: false,
            before_loop: false,
            before_condition: false,
            before_enum_struct: false,
            before_enum: false,
            before_typeset: false,
            before_funcenum: false,
            before_methodmap: false,
            before_methodmap_property: false,
            before_struct_ctor: false,
        },
    }
}

fn bare(kind: &str, text: &str, children: Vec<SyntaxNode>) -> SyntaxNode {
    let size = 1 + children.iter().map(|c| c.size).sum::<usize>();
    SyntaxNode {
        kind: kind.to_string(),
        text: text.to_string(),
        named: true,
        field_name: None,
        start_byte: 0,
        end_byte: text.len(),
        start_position: Point { row: 0, column: 0 },
        end_position: Point { row: 0, column: text.len() },
        prev_sibling: None,
        next_sibling: None,
        prev_named_sibling: None,
        has_error: false,
        size,
        children,
    }
}

#[test]
fn tree_with_a_syntax_error_is_refused() {
    let mut root = bare("source_file", "x", vec![]);
    root.has_error = true;
    assert_eq!(format_tree(&root, &settings()), Err(FormatError::Syntax));
}

#[test]
fn tree_without_the_fields_of_its_kinds_is_refused() {
    let expr = bare("binary_expression", "a+b", vec![bare("symbol", "a", vec![])]);
    let root = bare("source_file", "a+b", vec![expr]);
    assert_eq!(format_tree(&root, &settings()), Err(FormatError::Malformed));
}

#[test]
fn tree_whose_braces_close_before_they_open_is_refused() {
    let block = bare("block", "}{", vec![bare("}", "}", vec![]), bare("{", "{", vec![])]);
    let root = bare("source_file", "}{", vec![block]);
    assert_eq!(format_tree(&root, &settings()), Err(FormatError::Malformed));
}

#[test]
fn tree_with_a_wrong_size_is_refused() {
    let mut root = bare("source_file", "x", vec![bare("symbol", "x", vec![])]);
    root.size = 5;
    assert_eq!(format_tree(&root, &settings()), Err(FormatError::Malformed));
}

#[test]
fn unknown_top_level_items_are_kept_with_a_line_break() {
    let root = bare("source_file", "int x;", vec![bare("global_variable_declaration", "int x;", vec![])]);
    assert_eq!(format_tree(&root, &settings()), Ok("int x;\n".to_string()));
}

#[test]
fn formats_a_pragma() {
    let input = "#pragma semicolon 1\n".to_string();
    assert_eq!(format_string(&input, &settings()), Ok("#pragma semicolon 1\n".to_string()));
}

#[test]
fn refuses_source_with_a_syntax_error() {
    let input = "void f( {".to_string();
    assert_eq!(format_string(&input, &settings()), Err(FormatError::Syntax));
}

#[test]
fn keeps_one_empty_line_between_preprocessor_lines() {
    let input = "#include <sourcemod>\n\n\n#pragma semicolon 1\n".to_string();
    assert_eq!(
        format_string(&input, &settings()),
        Ok("#include <sourcemod>\n\n#pragma semicolon 1\n".to_string())
    );
}

#[test]
fn formats_a_function_body() {
    let input = "void OnPluginStart()\n{\n  PrintToServer(\"hi\",1);\n}\n".to_string();
    assert_eq!(
        format_string(&input, &settings()),
        Ok("void OnPluginStart() {\n\tPrintToServer(\"hi\", 1);\n}\n".to_string())
    );
}

#[test]
fn formats_an_enum() {
    let input = "enum Color\n{\n  Red,\n  Green = 2\n};\n".to_string();
    assert_eq!(
        format_string(&input, &settings()),
        Ok("enum Color {\n\tRed,\n\tGreen = 2,\n};\n".to_string())
    );
}

#[test]
fn formats_if_and_else() {
    let input = "void F()\n{\n  if (a)\n  {\n    G();\n  }\n  else\n  {\n    H();\n  }\n}\n".to_string();
    assert_eq!(
        format_string(&input, &settings()),
        Ok("void F() {\n\tif(a) {\n\t\tG();\n\t}\n\telse {\n\t\tH();\n\t}\n}\n".to_string())
    );
}

#[test]
fn no_tree_from_the_parser_is_a_parse_error() {
    assert_eq!(format_parsed(Ok(None), &settings()), Err(FormatError::Parse));
}

#[test]
fn a_parsed_tree_is_formatted_as_format_tree_does() {
    let mut root = bare("source_file", "", vec![]);
    root.has_error = true;
    assert_eq!(format_parsed(Ok(Some(root)), &settings()), Err(FormatError::Syntax));
    let item = bare("global_variable_declaration", "int x;", vec![]);
    let root2 = bare("source_file", "int x;", vec![item]);
    assert_eq!(format_parsed(Ok(Some(root2)), &settings()), Ok("int x;\n".to_string()));
}

#[test]
fn span_text_takes_valid_spans_only() {
    let source = "a\u{e9}b".as_bytes();
    assert_eq!(span_text(source, 1, 3), Some("\u{e9}".to_string()));
    assert_eq!(span_text(source, 0, 4), Some("a\u{e9}b".to_string()));
    assert_eq!(span_text(source, 1, 2), None);
    assert_eq!(span_text(source, 3, 2), None);
    assert_eq!(span_text(source, 2, 9), None);
}

#[test]
fn a_syntax_error_has_its_message() {
    let input = "}".to_string();
    let e = format_string(&input, &settings()).unwrap_err();
    assert_eq!(e, FormatError::Syntax);
    assert_eq!(e.message(), "internal writer error or something");
    assert_eq!(FormatError::Parse.message(), "the source could not be parsed");
}

#[test]
fn with_tabs_the_space_size_does_not_count() {
    let mut wide = settings();
    wide.space_size = 8;
    assert_eq!(in_use(&wide).space_size, 0);
    let input = "void F()\n{\n  if (a)\n  {\n    G();\n  }\n}\n".to_string();
    assert_eq!(format_string(&input, &wide), format_string(&input, &settings()));
    let mut spaces = settings();
    spaces.use_space = true;
    spaces.space_size = 2;
    assert_eq!(in_use(&spaces).space_size, 2);
    assert_eq!(
        format_string(&input, &spaces),
        Ok("void F() {\n  if(a) {\n    G();\n  }\n}\n".to_string())
    );
}
