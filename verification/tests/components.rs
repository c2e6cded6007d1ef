use rome_formatter::ast_exprs::{BinExpr, UnaryExpr};
use rome_formatter::ast_stmts::{BlockStmt, IfStmt, Script};
use rome_formatter::ast_unions::Stmt;
use rome_formatter::format_element::{
    align, concat_elements, dedent, empty_element, fill_elements, group_elements,
    group_elements_with_id, hard_line_break, if_break, if_group_with_id_breaks, indent,
    join_elements, label, line_suffix, soft_break_block, soft_line_break,
    soft_line_break_or_space, space_token, token, token_string, FormatElement,
};
use rome_formatter::options::{
    FormatOptions, IndentStyle, LineEnding, QuoteStyle, Semicolons, TrailingComma,
};
use rome_formatter::formatter::Formatter;
use rome_formatter::printer::print;
use rome_formatter::quotes::normalize_string_token;
use rome_formatter::support::AstNode;
use rome_formatter::syntax::{SyntaxElement, SyntaxError, SyntaxKind, SyntaxNode, SyntaxToken};

fn opts_width(w: u32) -> FormatOptions {
    FormatOptions {
        print_width: w,
        indent_style: IndentStyle::Spaces,
        indent_width: 2,
        quote_style: QuoteStyle::Double,
        line_ending: LineEnding::Lf,
        trailing_comma: TrailingComma::All,
        semicolons: Semicolons::Always,
    }
}

fn tok(kind: SyntaxKind, text: &str) -> SyntaxElement {
    SyntaxElement::Token(SyntaxToken {
        kind,
        text: text.to_string(),
        leading: vec![],
        trailing: vec![],
    })
}

#[test]
fn default_options_follow_the_documented_style() {
    let o = FormatOptions::default();
    assert_eq!(o.print_width, 80);
    assert_eq!(o.indent_width, 2);
    assert_eq!(o.indent_style, IndentStyle::Spaces);
    assert_eq!(o.quote_style, QuoteStyle::Double);
    assert_eq!(o.line_ending, LineEnding::Lf);
    assert_eq!(o.trailing_comma, TrailingComma::Es5);
    assert_eq!(o.semicolons, Semicolons::Always);
}

#[test]
fn fitting_group_renders_flat() {
    let doc = group_elements(concat_elements(vec![
        token("aa"),
        soft_line_break_or_space(),
        token("bb"),
    ]));
    assert_eq!(print(&doc, &opts_width(10)), "aa bb\n");
}

#[test]
fn overflowing_group_breaks_at_seams() {
    let doc = group_elements(concat_elements(vec![
        token("aaaa"),
        soft_line_break_or_space(),
        token("bbbb"),
    ]));
    assert_eq!(print(&doc, &opts_width(5)), "aaaa\nbbbb\n");
}

#[test]
fn hard_seam_forces_the_group_broken() {
    let doc = group_elements(concat_elements(vec![
        token("a"),
        hard_line_break(),
        token("b"),
    ]));
    assert_eq!(print(&doc, &opts_width(80)), "a\nb\n");
}

#[test]
fn soft_break_block_indents_when_broken() {
    let doc = soft_break_block(token("{"), token("abcdefghij"), token("}"));
    assert_eq!(print(&doc, &opts_width(5)), "{\n  abcdefghij\n}\n");
    assert_eq!(print(&doc.clone(), &opts_width(40)), "{abcdefghij}\n");
}

#[test]
fn fill_packs_as_many_items_as_fit() {
    let doc = fill_elements(vec![
        token("aa"),
        soft_line_break_or_space(),
        token("bb"),
        soft_line_break_or_space(),
        token("cc"),
    ]);
    assert_eq!(print(&doc, &opts_width(5)), "aa bb\ncc\n");
}

#[test]
fn if_break_follows_the_group_decision() {
    let flat = group_elements(concat_elements(vec![
        token("a"),
        if_break(token("F"), token("B")),
    ]));
    assert_eq!(print(&flat, &opts_width(10)), "aF\n");
    let broken = group_elements(concat_elements(vec![
        token("aaaaaaaaaaaa"),
        soft_line_break(),
        if_break(token("F"), token("B")),
    ]));
    assert_eq!(print(&broken, &opts_width(5)), "aaaaaaaaaaaa\nB\n");
}

#[test]
fn if_break_can_reference_a_group_by_id() {
    let inner = concat_elements(vec![
        token("aaaaaaaaaaaa"),
        soft_line_break(),
        if_group_with_id_breaks(token("F"), token("B"), 7),
    ]);
    let doc = group_elements_with_id(7, inner);
    assert_eq!(print(&doc, &opts_width(5)), "aaaaaaaaaaaa\nB\n");
}

#[test]
fn join_inserts_the_separator_between_items() {
    let doc = join_elements(
        concat_elements(vec![token(","), space_token()]),
        vec![token("a"), token("b"), token("c")],
    );
    assert_eq!(print(&doc, &opts_width(80)), "a, b, c\n");
}

#[test]
fn indent_applies_to_following_seams_only() {
    let doc = concat_elements(vec![
        token("x"),
        indent(concat_elements(vec![hard_line_break(), token("y")])),
        hard_line_break(),
        token("z"),
    ]);
    assert_eq!(print(&doc, &opts_width(80)), "x\n  y\nz\n");
}

#[test]
fn oversized_token_is_emitted_verbatim() {
    let doc = group_elements(token("abcdefghijklmnop"));
    assert_eq!(print(&doc, &opts_width(4)), "abcdefghijklmnop\n");
}

#[test]
fn empty_document_prints_nothing() {
    let doc = concat_elements(vec![]);
    assert_eq!(print(&doc, &opts_width(80)), "");
}

#[test]
fn adjacent_soft_seams_collapse_to_one_newline() {
    let doc = group_elements(concat_elements(vec![
        token("aaaaaa"),
        soft_line_break(),
        soft_line_break(),
        token("b"),
    ]));
    assert_eq!(print(&doc, &opts_width(3)), "aaaaaa\nb\n");
}

#[test]
fn normalize_prefers_the_configured_quote() {
    assert_eq!(normalize_string_token("'ab'", QuoteStyle::Double), "\"ab\"");
    assert_eq!(normalize_string_token("\"ab\"", QuoteStyle::Single), "'ab'");
}

#[test]
fn normalize_escapes_and_unescapes_for_the_chosen_quote() {
    // the escaped single quote loses its backslash under double quotes
    assert_eq!(
        normalize_string_token("'a\\'b'", QuoteStyle::Double),
        "\"a'b\""
    );
    // both quotes unescaped: the preferred delimiter wins and is escaped
    assert_eq!(
        normalize_string_token("'a\"b'c'", QuoteStyle::Double),
        "\"a\\\"b'c\""
    );
}

#[test]
fn normalize_keeps_a_literal_its_content_forces() {
    assert_eq!(
        normalize_string_token("'say \"hi\"'", QuoteStyle::Double),
        "'say \"hi\"'"
    );
    assert_eq!(normalize_string_token("x", QuoteStyle::Double), "x");
}

#[test]
fn block_stmt_accessors_find_their_tokens() {
    let block = BlockStmt {
        syntax: SyntaxNode {
            kind: SyntaxKind::BlockStmt,
            children: vec![tok(SyntaxKind::LCurly, "{"), tok(SyntaxKind::RCurly, "}")],
        },
    };
    assert_eq!(block.l_curly_token().unwrap().text, "{");
    assert_eq!(block.r_curly_token().unwrap().text, "}");
    assert_eq!(block.stmts().len(), 0);
}

#[test]
fn missing_mandatory_token_is_an_error() {
    let block = BlockStmt {
        syntax: SyntaxNode {
            kind: SyntaxKind::BlockStmt,
            children: vec![],
        },
    };
    assert_eq!(block.l_curly_token(), Err(SyntaxError::MissingToken));
}

#[test]
fn cast_accepts_only_the_matching_kind() {
    let n = SyntaxNode {
        kind: SyntaxKind::IfStmt,
        children: vec![],
    };
    assert!(IfStmt::can_cast(SyntaxKind::IfStmt));
    assert!(!Script::can_cast(SyntaxKind::IfStmt));
    let cast = IfStmt::cast(n).unwrap();
    assert_eq!(cast.syntax().kind, SyntaxKind::IfStmt);
}

#[test]
fn union_cast_picks_the_right_variant() {
    let n = SyntaxNode {
        kind: SyntaxKind::EmptyStmt,
        children: vec![],
    };
    match Stmt::cast(n) {
        Some(Stmt::EmptyStmt(_)) => {}
        other => panic!("cast chose {:?}", other.map(|s| s.syntax().kind)),
    }
    assert!(Stmt::can_cast(SyntaxKind::VarDecl));
    assert!(!Stmt::can_cast(SyntaxKind::ArgList));
}

#[test]
fn printer_strips_trailing_whitespace_before_newlines() {
    let doc = concat_elements(vec![
        token("a"),
        space_token(),
        hard_line_break(),
        token("b"),
    ]);
    assert_eq!(print(&doc, &opts_width(80)), "a\nb\n");
}

#[test]
fn cloning_an_element_preserves_its_document() {
    let doc: FormatElement = group_elements(concat_elements(vec![
        token("a"),
        soft_line_break_or_space(),
        token("b"),
    ]));
    let copy = doc.clone();
    assert_eq!(print(&doc, &opts_width(80)), print(&copy, &opts_width(80)));
}

#[test]
fn align_adds_columns_dedent_removes_a_level() {
    let doc = concat_elements(vec![
        token("a"),
        align(
            3,
            concat_elements(vec![hard_line_break(), token("b")]),
        ),
        indent(concat_elements(vec![
            hard_line_break(),
            token("c"),
            dedent(concat_elements(vec![hard_line_break(), token("d")])),
        ])),
    ]);
    assert_eq!(
        print(&doc, &opts_width(80)),
        "a
   b
  c
d
"
    );
}

#[test]
fn line_suffix_waits_for_the_next_newline() {
    let doc = concat_elements(vec![
        token("a"),
        line_suffix(concat_elements(vec![space_token(), token("// s")])),
        token(";"),
        hard_line_break(),
        token("b"),
    ]);
    assert_eq!(print(&doc, &opts_width(80)), "a; // s
b
");
}

#[test]
fn consecutive_line_suffixes_keep_insertion_order() {
    let doc = concat_elements(vec![
        token("a"),
        line_suffix(token("one")),
        line_suffix(token("two")),
        hard_line_break(),
        token("b"),
    ]);
    assert_eq!(print(&doc, &opts_width(80)), "aone two
b
");
}

#[test]
fn label_is_layout_transparent() {
    let doc = label("tag", concat_elements(vec![token("a"), space_token(), token("b")]));
    assert_eq!(print(&doc, &opts_width(80)), "a b
");
}

#[test]
fn empty_element_contributes_nothing() {
    let doc = concat_elements(vec![token("a"), empty_element(), token_string("b".to_string())]);
    assert_eq!(print(&doc, &opts_width(80)), "ab
");
}

#[test]
fn format_node_lowers_a_typed_wrapper() {
    let block = BlockStmt {
        syntax: SyntaxNode {
            kind: SyntaxKind::BlockStmt,
            children: vec![tok(SyntaxKind::LCurly, "{"), tok(SyntaxKind::RCurly, "}")],
        },
    };
    let f = Formatter::new(opts_width(80));
    let doc = f.format_node(block);
    assert_eq!(print(&doc, &opts_width(80)), "{}
");
}

#[test]
fn format_nodes_lowers_each_item_in_order() {
    let stmt = |t: &str| Stmt::EmptyStmt(rome_formatter::ast_stmts::EmptyStmt {
        syntax: SyntaxNode {
            kind: SyntaxKind::EmptyStmt,
            children: vec![tok(SyntaxKind::Semicolon, t)],
        },
    });
    let f = Formatter::new(opts_width(80));
    let docs = f.format_nodes(vec![stmt(";"), stmt(";")]);
    assert_eq!(docs.len(), 2);
    assert_eq!(print(&concat_elements(docs), &opts_width(80)), ";;
");
}

#[test]
fn bin_expr_operator_finds_the_operator_token() {
    let bin = BinExpr {
        syntax: SyntaxNode {
            kind: SyntaxKind::BinExpr,
            children: vec![
                SyntaxElement::Node(SyntaxNode {
                    kind: SyntaxKind::NameRef,
                    children: vec![tok(SyntaxKind::Ident, "a")],
                }),
                tok(SyntaxKind::Plus, "+"),
                SyntaxElement::Node(SyntaxNode {
                    kind: SyntaxKind::NameRef,
                    children: vec![tok(SyntaxKind::Ident, "b")],
                }),
            ],
        },
    };
    assert_eq!(bin.operator().unwrap().text, "+");
}

#[test]
fn unary_expr_operator_skips_foreign_tokens() {
    let unary = UnaryExpr {
        syntax: SyntaxNode {
            kind: SyntaxKind::UnaryExpr,
            children: vec![
                tok(SyntaxKind::Bang, "!"),
                SyntaxElement::Node(SyntaxNode {
                    kind: SyntaxKind::NameRef,
                    children: vec![tok(SyntaxKind::Ident, "x")],
                }),
            ],
        },
    };
    assert_eq!(unary.operator().unwrap().text, "!");
    let bare = UnaryExpr {
        syntax: SyntaxNode {
            kind: SyntaxKind::UnaryExpr,
            children: vec![],
        },
    };
    assert!(bare.operator().is_none());
}
