use rome_formatter::ast_classes::Setter;
use rome_formatter::format_element::FormatElement;
use rome_formatter::formatter::{FormatError, Formatter};
use rome_formatter::options::{
    FormatOptions, IndentStyle, LineEnding, QuoteStyle, Semicolons, TrailingComma,
};
use rome_formatter::printer::print;
use rome_formatter::syntax::{
    SyntaxElement, SyntaxKind, SyntaxNode, SyntaxToken, Trivia, TriviaKind,
};

fn opts() -> FormatOptions {
    FormatOptions {
        print_width: 20,
        indent_style: IndentStyle::Spaces,
        indent_width: 2,
        quote_style: QuoteStyle::Double,
        line_ending: LineEnding::Lf,
        trailing_comma: TrailingComma::All,
        semicolons: Semicolons::Always,
    }
}

fn tok(kind: SyntaxKind, text: &str) -> SyntaxElement {
    SyntaxElement::Token(SyntaxToken {
        kind,
        text: text.to_string(),
        leading: vec![],
        trailing: vec![],
    })
}

fn node(kind: SyntaxKind, children: Vec<SyntaxElement>) -> SyntaxElement {
    SyntaxElement::Node(SyntaxNode { kind, children })
}

fn root(kind: SyntaxKind, children: Vec<SyntaxElement>) -> SyntaxNode {
    SyntaxNode { kind, children }
}

fn name_ref(text: &str) -> SyntaxElement {
    node(SyntaxKind::NameRef, vec![tok(SyntaxKind::Ident, text)])
}

fn number(text: &str) -> SyntaxElement {
    node(SyntaxKind::Literal, vec![tok(SyntaxKind::NumberLit, text)])
}

fn single_pattern(text: &str) -> SyntaxElement {
    node(
        SyntaxKind::SinglePattern,
        vec![node(SyntaxKind::Name, vec![tok(SyntaxKind::Ident, text)])],
    )
}

fn array(elements: Vec<SyntaxElement>) -> SyntaxElement {
    let mut children = vec![tok(SyntaxKind::LBrack, "[")];
    for (i, e) in elements.into_iter().enumerate() {
        if i > 0 {
            children.push(tok(SyntaxKind::Comma, ","));
        }
        children.push(e);
    }
    children.push(tok(SyntaxKind::RBrack, "]"));
    node(SyntaxKind::ArrayExpr, children)
}

fn declarator(pattern: SyntaxElement, value: SyntaxElement) -> SyntaxElement {
    node(
        SyntaxKind::Declarator,
        vec![pattern, tok(SyntaxKind::Assign, "="), value],
    )
}

fn call(callee: &str, args: Vec<SyntaxElement>) -> SyntaxElement {
    let mut arg_children = vec![tok(SyntaxKind::LParen, "(")];
    for (i, a) in args.into_iter().enumerate() {
        if i > 0 {
            arg_children.push(tok(SyntaxKind::Comma, ","));
        }
        arg_children.push(a);
    }
    arg_children.push(tok(SyntaxKind::RParen, ")"));
    node(
        SyntaxKind::CallExpr,
        vec![name_ref(callee), node(SyntaxKind::ArgList, arg_children)],
    )
}

fn expr_stmt(e: SyntaxElement) -> SyntaxElement {
    node(SyntaxKind::ExprStmt, vec![e])
}

#[test]
fn const_declaration_gets_spaces_and_semicolon() {
    // const x=1
    let tree = root(
        SyntaxKind::Script,
        vec![node(
            SyntaxKind::VarDecl,
            vec![
                tok(SyntaxKind::ConstKw, "const"),
                declarator(single_pattern("x"), number("1")),
            ],
        )],
    );
    assert_eq!(rome_formatter::formatter::format(&tree, &opts()), "const x = 1;\n");
}

#[test]
fn short_array_stays_flat() {
    // let a=[1,2,3] at width 20
    let tree = root(
        SyntaxKind::Script,
        vec![node(
            SyntaxKind::VarDecl,
            vec![
                tok(SyntaxKind::Ident, "let"),
                declarator(
                    single_pattern("a"),
                    array(vec![number("1"), number("2"), number("3")]),
                ),
            ],
        )],
    );
    assert_eq!(rome_formatter::formatter::format(&tree, &opts()), "let a = [1, 2, 3];\n");
}

#[test]
fn long_array_breaks_with_trailing_comma() {
    // let a=[1,2,3,4,5,6,7] does not fit at width 20
    let elements = (1..=7).map(|i| number(&i.to_string())).collect::<Vec<_>>();
    let tree = root(
        SyntaxKind::Script,
        vec![node(
            SyntaxKind::VarDecl,
            vec![
                tok(SyntaxKind::Ident, "let"),
                declarator(single_pattern("a"), array(elements)),
            ],
        )],
    );
    assert_eq!(
        rome_formatter::formatter::format(&tree, &opts()),
        "let a = [\n  1,\n  2,\n  3,\n  4,\n  5,\n  6,\n  7,\n];\n"
    );
}

#[test]
fn if_statement_with_block() {
    // if(c){a();b()}
    let tree = root(
        SyntaxKind::Script,
        vec![node(
            SyntaxKind::IfStmt,
            vec![
                tok(SyntaxKind::IfKw, "if"),
                node(
                    SyntaxKind::Condition,
                    vec![
                        tok(SyntaxKind::LParen, "("),
                        name_ref("c"),
                        tok(SyntaxKind::RParen, ")"),
                    ],
                ),
                node(
                    SyntaxKind::BlockStmt,
                    vec![
                        tok(SyntaxKind::LCurly, "{"),
                        expr_stmt(call("a", vec![])),
                        expr_stmt(call("b", vec![])),
                        tok(SyntaxKind::RCurly, "}"),
                    ],
                ),
            ],
        )],
    );
    assert_eq!(rome_formatter::formatter::format(&tree, &opts()), "if (c) {\n  a();\n  b();\n}\n");
}

#[test]
fn call_fitting_exactly_stays_flat() {
    // f(xxxxxxx,yyyyyyy): flat rendering is 19 columns and fits at width 20
    let tree = root(
        SyntaxKind::Script,
        vec![expr_stmt(call(
            "f",
            vec![name_ref("xxxxxxx"), name_ref("yyyyyyy")],
        ))],
    );
    assert_eq!(rome_formatter::formatter::format(&tree, &opts()), "f(xxxxxxx, yyyyyyy);\n");
}

#[test]
fn call_with_wide_argument_breaks() {
    // one argument of 12 columns forces the group to break
    let tree = root(
        SyntaxKind::Script,
        vec![expr_stmt(call(
            "f",
            vec![name_ref("xxxxxxxxxxxx"), name_ref("yyyyyyy")],
        ))],
    );
    assert_eq!(
        rome_formatter::formatter::format(&tree, &opts()),
        "f(\n  xxxxxxxxxxxx,\n  yyyyyyy,\n);\n"
    );
}

#[test]
fn trailing_line_comment_moves_to_line_end() {
    // a;b with a trailing line comment after a
    let a = SyntaxElement::Token(SyntaxToken {
        kind: SyntaxKind::Ident,
        text: "a".to_string(),
        leading: vec![],
        trailing: vec![Trivia {
            kind: TriviaKind::LineComment,
            text: "// t".to_string(),
        }],
    });
    let tree = root(
        SyntaxKind::Script,
        vec![
            expr_stmt(node(SyntaxKind::NameRef, vec![a])),
            expr_stmt(name_ref("b")),
        ],
    );
    assert_eq!(rome_formatter::formatter::format(&tree, &opts()), "a; // t\nb;\n");
}

#[test]
fn second_pass_is_identity_on_formatted_input() {
    // the tree of "const x = 1;" formats to the same text again
    let tree = root(
        SyntaxKind::Script,
        vec![node(
            SyntaxKind::VarDecl,
            vec![
                tok(SyntaxKind::ConstKw, "const"),
                declarator(single_pattern("x"), number("1")),
                tok(SyntaxKind::Semicolon, ";"),
            ],
        )],
    );
    assert_eq!(rome_formatter::formatter::format(&tree, &opts()), "const x = 1;\n");
}

#[test]
fn same_input_formats_identically() {
    let make = || {
        root(
            SyntaxKind::Script,
            vec![expr_stmt(call("f", vec![name_ref("x")]))],
        )
    };
    let first = rome_formatter::formatter::format(&make(), &opts());
    let second = rome_formatter::formatter::format(&make(), &opts());
    assert_eq!(first, second);
    assert_eq!(first, "f(x);\n");
}

#[test]
fn empty_script_yields_empty_output() {
    let tree = root(SyntaxKind::Script, vec![]);
    assert_eq!(rome_formatter::formatter::format(&tree, &opts()), "");
}

#[test]
fn missing_mandatory_child_renders_a_placeholder() {
    // an expression statement without an expression renders verbatim, and
    // the rest of the file still formats
    let tree = root(
        SyntaxKind::Script,
        vec![
            node(SyntaxKind::ExprStmt, vec![tok(SyntaxKind::Ident, "@@")]),
            expr_stmt(name_ref("b")),
        ],
    );
    assert_eq!(rome_formatter::formatter::format(&tree, &opts()), "@@\nb;\n");
}

#[test]
fn rule_reports_a_missing_mandatory_child() {
    // the setter rule itself fails when its body is absent
    let setter = Setter {
        syntax: root(
            SyntaxKind::Setter,
            vec![
                tok(SyntaxKind::SetKw, "set"),
                node(SyntaxKind::Name, vec![tok(SyntaxKind::Ident, "x")]),
            ],
        ),
    };
    let formatter = Formatter::new(opts());
    assert_eq!(setter.to_format_element(&formatter), Err(FormatError::MissingToken));
}

#[test]
fn leading_block_comment_keeps_a_space_when_it_fits() {
    let a = SyntaxElement::Token(SyntaxToken {
        kind: SyntaxKind::Ident,
        text: "a".to_string(),
        leading: vec![Trivia {
            kind: TriviaKind::BlockComment,
            text: "/*c*/".to_string(),
        }],
        trailing: vec![],
    });
    let tree = root(
        SyntaxKind::Script,
        vec![expr_stmt(node(SyntaxKind::NameRef, vec![a]))],
    );
    assert_eq!(rome_formatter::formatter::format(&tree, &opts()), "/*c*/ a;\n");
}

#[test]
fn wide_leading_block_comment_breaks_to_its_own_line() {
    let a = SyntaxElement::Token(SyntaxToken {
        kind: SyntaxKind::Ident,
        text: "a".to_string(),
        leading: vec![Trivia {
            kind: TriviaKind::BlockComment,
            text: "/* a very wide comment */".to_string(),
        }],
        trailing: vec![],
    });
    let tree = root(
        SyntaxKind::Script,
        vec![expr_stmt(node(SyntaxKind::NameRef, vec![a]))],
    );
    assert_eq!(
        rome_formatter::formatter::format(&tree, &opts()),
        "/* a very wide comment */\na;\n"
    );
}

#[test]
fn requoting_unescapes_the_former_delimiter() {
    let tree = root(
        SyntaxKind::Script,
        vec![expr_stmt(node(
            SyntaxKind::Literal,
            vec![tok(SyntaxKind::StringLit, "'a\\'b'")],
        ))],
    );
    assert_eq!(rome_formatter::formatter::format(&tree, &opts()), "\"a'b\";\n");
}

#[test]
fn unknown_node_renders_verbatim() {
    let tree = root(
        SyntaxKind::Script,
        vec![node(
            SyntaxKind::ThrowStmt,
            vec![tok(SyntaxKind::ThrowKw, "throw"), name_ref("e")],
        )],
    );
    assert_eq!(rome_formatter::formatter::format(&tree, &opts()), "throw e\n");
}

#[test]
fn crlf_line_endings_are_honoured() {
    let mut o = opts();
    o.line_ending = LineEnding::Crlf;
    let tree = root(
        SyntaxKind::Script,
        vec![expr_stmt(name_ref("a")), expr_stmt(name_ref("b"))],
    );
    assert_eq!(rome_formatter::formatter::format(&tree, &o), "a;\r\nb;\r\n");
}

#[test]
fn tabs_indent_blocks() {
    let mut o = opts();
    o.indent_style = IndentStyle::Tabs;
    let tree = root(
        SyntaxKind::Script,
        vec![node(
            SyntaxKind::IfStmt,
            vec![
                tok(SyntaxKind::IfKw, "if"),
                node(
                    SyntaxKind::Condition,
                    vec![
                        tok(SyntaxKind::LParen, "("),
                        name_ref("c"),
                        tok(SyntaxKind::RParen, ")"),
                    ],
                ),
                node(
                    SyntaxKind::BlockStmt,
                    vec![
                        tok(SyntaxKind::LCurly, "{"),
                        expr_stmt(call("a", vec![])),
                        tok(SyntaxKind::RCurly, "}"),
                    ],
                ),
            ],
        )],
    );
    assert_eq!(rome_formatter::formatter::format(&tree, &o), "if (c) {\n\ta();\n}\n");
}

#[test]
fn string_literal_requoted_to_configured_style() {
    let tree = root(
        SyntaxKind::Script,
        vec![expr_stmt(node(
            SyntaxKind::Literal,
            vec![tok(SyntaxKind::StringLit, "'ab'")],
        ))],
    );
    assert_eq!(rome_formatter::formatter::format(&tree, &opts()), "\"ab\";\n");
}

#[test]
fn string_literal_keeps_quote_its_content_forces() {
    let tree = root(
        SyntaxKind::Script,
        vec![expr_stmt(node(
            SyntaxKind::Literal,
            vec![tok(SyntaxKind::StringLit, "'a\"b'")],
        ))],
    );
    assert_eq!(rome_formatter::formatter::format(&tree, &opts()), "'a\"b';\n");
}

#[test]
fn blank_line_between_statements_is_kept() {
    let b = SyntaxElement::Token(SyntaxToken {
        kind: SyntaxKind::Ident,
        text: "b".to_string(),
        leading: vec![Trivia {
            kind: TriviaKind::Blank,
            text: String::new(),
        }],
        trailing: vec![],
    });
    let tree = root(
        SyntaxKind::Script,
        vec![
            expr_stmt(name_ref("a")),
            expr_stmt(node(SyntaxKind::NameRef, vec![b])),
        ],
    );
    assert_eq!(rome_formatter::formatter::format(&tree, &opts()), "a;\n\nb;\n");
}

#[test]
fn two_declarators_joined_with_commas() {
    let tree = root(
        SyntaxKind::Script,
        vec![node(
            SyntaxKind::VarDecl,
            vec![
                tok(SyntaxKind::Ident, "let"),
                declarator(single_pattern("a"), number("1")),
                tok(SyntaxKind::Comma, ","),
                declarator(single_pattern("b"), number("2")),
            ],
        )],
    );
    assert_eq!(rome_formatter::formatter::format(&tree, &opts()), "let a = 1, b = 2;\n");
}

#[test]
fn labelled_statement_rule() {
    let tree = root(
        SyntaxKind::Script,
        vec![node(
            SyntaxKind::LabelledStmt,
            vec![
                node(SyntaxKind::Name, vec![tok(SyntaxKind::Ident, "loop1")]),
                tok(SyntaxKind::Colon, ":"),
                expr_stmt(name_ref("a")),
            ],
        )],
    );
    assert_eq!(rome_formatter::formatter::format(&tree, &opts()), "loop1: a;\n");
}

#[test]
fn sequence_expression_joins_operands_with_commas() {
    let tree = root(
        SyntaxKind::Script,
        vec![expr_stmt(node(
            SyntaxKind::SequenceExpr,
            vec![
                name_ref("a"),
                tok(SyntaxKind::Comma, ","),
                name_ref("b"),
            ],
        ))],
    );
    assert_eq!(rome_formatter::formatter::format(&tree, &opts()), "a, b;\n");
}

#[test]
fn setter_rule_formats_keyword_name_params_and_body() {
    let setter = Setter {
        syntax: root(
            SyntaxKind::Setter,
            vec![
                tok(SyntaxKind::SetKw, "set"),
                node(SyntaxKind::Name, vec![tok(SyntaxKind::Ident, "x")]),
                node(
                    SyntaxKind::ParameterList,
                    vec![
                        tok(SyntaxKind::LParen, "("),
                        single_pattern("v"),
                        tok(SyntaxKind::RParen, ")"),
                    ],
                ),
                node(
                    SyntaxKind::BlockStmt,
                    vec![tok(SyntaxKind::LCurly, "{"), tok(SyntaxKind::RCurly, "}")],
                ),
            ],
        ),
    };
    let formatter = Formatter::new(opts());
    let doc: FormatElement = setter.to_format_element(&formatter).unwrap();
    assert_eq!(print(&doc, &opts()), "set x(v) {}\n");
}

#[test]
fn empty_statement_keeps_its_semicolon() {
    let tree = root(
        SyntaxKind::Script,
        vec![node(
            SyntaxKind::EmptyStmt,
            vec![tok(SyntaxKind::Semicolon, ";")],
        )],
    );
    assert_eq!(rome_formatter::formatter::format(&tree, &opts()), ";\n");
}

#[test]
fn semicolons_as_needed_omits_terminators() {
    let mut o = opts();
    o.semicolons = Semicolons::AsNeeded;
    let tree = root(SyntaxKind::Script, vec![expr_stmt(name_ref("a"))]);
    assert_eq!(rome_formatter::formatter::format(&tree, &o), "a\n");
}

#[test]
fn as_needed_guards_a_statement_opening_a_hazard() {
    // without its terminator, `a` would merge with the following `[1]`;
    // a lone semicolon guards the hazard line
    let mut o = opts();
    o.semicolons = Semicolons::AsNeeded;
    let tree = root(
        SyntaxKind::Script,
        vec![
            expr_stmt(name_ref("a")),
            expr_stmt(array(vec![number("1")])),
        ],
    );
    assert_eq!(rome_formatter::formatter::format(&tree, &o), "a\n;[1]\n");
}

#[test]
fn omit_trailing_comma_when_configured() {
    let mut o = opts();
    o.trailing_comma = TrailingComma::Omit;
    let elements = (1..=7).map(|i| number(&i.to_string())).collect::<Vec<_>>();
    let tree = root(
        SyntaxKind::Script,
        vec![node(
            SyntaxKind::VarDecl,
            vec![
                tok(SyntaxKind::Ident, "let"),
                declarator(single_pattern("a"), array(elements)),
            ],
        )],
    );
    assert_eq!(
        rome_formatter::formatter::format(&tree, &o),
        "let a = [\n  1,\n  2,\n  3,\n  4,\n  5,\n  6,\n  7\n];\n"
    );
}
