//! The lowering driver: from a syntax tree to one document.
//!
//! `Formatter::format_syntax` dispatches on the kind of a node and builds
//! its document from the documents of its children.  The whole lowering is
//! defined by the spec function [`sp_lower`]; every driver function is
//! proved to return exactly that document, so that the text of the crate's
//! entry point [`format`] is a function of the tree and the options alone.
//!
//! Lowering is total and best-effort: a rule that finds a mandatory child
//! of its own node absent yields `MissingToken`, and the driver renders
//! that one subtree as a verbatim placeholder tagged for the diagnostics
//! collaborator; the rest of the file still formats.
//!
//! Trivia travel with their token: a leading line comment ends its line, a
//! leading block comment and its soft-space seam form a group of their
//! own, a leading blank line becomes a hard seam, and a trailing line
//! comment is queued to the end of the current output line.  A node kind
//! the driver has no rule for is rendered verbatim: its tokens joined by
//! single spaces as one opaque token, with no seam inside.

use vstd::prelude::*;

use crate::ast_classes::Setter;
use crate::ast_exprs::SequenceExpr;
use crate::ast_stmts::LabelledStmt;
use crate::ast_unions::{Expr, ExprOrSpread, ModuleItem, Pattern, PropName, Stmt};
use crate::ast_decls::Declarator;
use crate::ast_stmts::{BlockStmt, Condition, Name};
use crate::ast_exprs::ArgList;
use crate::ast_classes::ParameterList;
use crate::format_element::{
    concat_elements, docs_view, join_view, lemma_docs_view, lemma_docs_view_push, token,
    token_string, DocV, FormatElement, LineMode,
};
use crate::options::{FormatOptions, Semicolons, TrailingComma};
use crate::printer::{print, spec_print};
use crate::quotes::{normalize_quotes, normalize_string_token};
use crate::support::{
    as_first_token, as_mandatory_node, as_mandatory_token, as_optional_token, castable_children,
    first_any_token, first_castable, first_token_of, node_list, AstNode,
};
use crate::syntax::{
    trivia_views, SyntaxElementV, SyntaxKind, SyntaxNode, SyntaxNodeV, SyntaxToken, SyntaxTokenV,
    TriviaKind, TriviaV,
};

verus! {

/// The error of one rule: a mandatory child of its node was absent.  The
/// driver turns it into a placeholder; it never reaches `format`.
#[derive(Debug, Clone, Copy, PartialEq, Eq, Structural)]
pub enum FormatError {
    MissingToken,
}

/// The result of lowering a node.
pub type FormatResult<T> = Result<T, FormatError>;

/// The size of a tree, counted in tokens and nodes; the termination
/// measure of the lowering.
pub open spec fn node_size(n: SyntaxNodeV) -> nat
    decreases n,
{
    1 + elems_size(n.children)
}

pub open spec fn elems_size(s: Seq<SyntaxElementV>) -> nat
    decreases s,
{
    if s.len() == 0 {
        0
    } else {
        elem_size(s[0]) + elems_size(s.drop_first())
    }
}

pub open spec fn elem_size(e: SyntaxElementV) -> nat
    decreases e,
{
    match e {
        SyntaxElementV::Node(n) => node_size(n),
        SyntaxElementV::Token(_) => 1,
    }
}

/// The summed size of a list of nodes.
pub open spec fn sum_sizes(ns: Seq<SyntaxNodeV>) -> nat
    decreases ns,
{
    if ns.len() == 0 {
        0
    } else {
        node_size(ns[0]) + sum_sizes(ns.drop_first())
    }
}

/// A node found by `first_castable` is no larger than the child list.
pub proof fn lemma_first_castable_size<T: AstNode>(s: Seq<SyntaxElementV>)
    ensures
        first_castable::<T>(s) matches Some(m) ==> node_size(m) <= elems_size(s),
    decreases s,
{
    if s.len() > 0 {
        lemma_first_castable_size::<T>(s.drop_first());
        if crate::support::is_castable::<T>(s[0]) {
            assert(first_castable::<T>(s) == Some(s[0]->Node_0));
            assert(elem_size(s[0]) == node_size(s[0]->Node_0));
            assert(elems_size(s) == elem_size(s[0]) + elems_size(s.drop_first()));
        } else {
            assert(first_castable::<T>(s) == first_castable::<T>(s.drop_first()));
            assert(elems_size(s) == elem_size(s[0]) + elems_size(s.drop_first()));
        }
    }
}

/// The castable children together are no larger than the child list.
pub proof fn lemma_sum_castable<T: AstNode>(s: Seq<SyntaxElementV>)
    ensures
        sum_sizes(castable_children::<T>(s)) <= elems_size(s),
    decreases s,
{
    if s.len() > 0 {
        lemma_sum_castable::<T>(s.drop_first());
        assert(elems_size(s) == elem_size(s[0]) + elems_size(s.drop_first()));
        if is_castable_first::<T>(s) {
            let rest = castable_children::<T>(s.drop_first());
            assert(castable_children::<T>(s) == seq![s[0]->Node_0] + rest);
            lemma_sum_sizes_cons(s[0]->Node_0, rest);
            assert(elem_size(s[0]) == node_size(s[0]->Node_0));
        } else {
            assert(castable_children::<T>(s) == castable_children::<T>(s.drop_first()));
        }
    }
}

/// Whether the head of `s` is castable to `T`; a helper for triggers.
pub open spec fn is_castable_first<T: AstNode>(s: Seq<SyntaxElementV>) -> bool {
    s.len() > 0 && crate::support::is_castable::<T>(s[0])
}

proof fn lemma_sum_sizes_cons(m: SyntaxNodeV, rest: Seq<SyntaxNodeV>)
    ensures
        sum_sizes(seq![m] + rest) == node_size(m) + sum_sizes(rest),
{
    let s = seq![m] + rest;
    assert(s[0] == m);
    assert(s.drop_first() =~= rest);
}

/// The head of a node list is no larger than the whole sum.
pub proof fn lemma_sum_sizes_at(ns: Seq<SyntaxNodeV>)
    ensures
        ns.len() > 0 ==> node_size(ns[0]) <= sum_sizes(ns),
{
}

/// Every node is at least one unit large.
pub proof fn lemma_node_size_pos(n: SyntaxNodeV)
    ensures
        node_size(n) >= 1,
{
}

/// The documents of one leading trivia piece.  A block comment and its
/// soft-space seam sit in a group of their own, so the seam always lies
/// inside a group: it renders as a space where the pair fits, and as a
/// newline where it does not.
pub open spec fn sp_lead_one(t: TriviaV) -> Seq<DocV> {
    match t.kind {
        TriviaKind::LineComment => seq![DocV::Token(t.text), DocV::Line(LineMode::Hard)],
        TriviaKind::BlockComment => seq![
            DocV::Group(
                None,
                Box::new(
                    DocV::Concat(seq![DocV::Token(t.text), DocV::Line(LineMode::SoftSpace)]),
                ),
            ),
        ],
        TriviaKind::Blank => seq![DocV::Line(LineMode::Hard)],
    }
}

/// The documents of the leading trivia, in order.
pub open spec fn sp_leading(ts: Seq<TriviaV>) -> Seq<DocV>
    decreases ts,
{
    if ts.len() == 0 {
        Seq::empty()
    } else {
        sp_lead_one(ts[0]) + sp_leading(ts.drop_first())
    }
}

/// The documents of one trailing trivia piece: a line comment is queued to
/// the end of the line; a block comment follows after a space; a blank
/// contributes nothing.
pub open spec fn sp_trail_one(t: TriviaV) -> Seq<DocV> {
    match t.kind {
        TriviaKind::LineComment => seq![
            DocV::LineSuffix(Box::new(DocV::Concat(seq![DocV::Space, DocV::Token(t.text)]))),
        ],
        TriviaKind::BlockComment => seq![DocV::Space, DocV::Token(t.text)],
        TriviaKind::Blank => Seq::empty(),
    }
}

/// The documents of the trailing trivia, in order.
pub open spec fn sp_trailing(ts: Seq<TriviaV>) -> Seq<DocV>
    decreases ts,
{
    if ts.len() == 0 {
        Seq::empty()
    } else {
        sp_trail_one(ts[0]) + sp_trailing(ts.drop_first())
    }
}

/// The text a token contributes: its own text, requoted for string
/// literals.
pub open spec fn sp_token_text(t: SyntaxTokenV, o: FormatOptions) -> Seq<char> {
    if t.kind == SyntaxKind::StringLit {
        normalize_quotes(t.text, o.quote_style)
    } else {
        t.text
    }
}

/// The document of one source token with its trivia.
pub open spec fn sp_format_token(t: SyntaxTokenV, o: FormatOptions) -> DocV {
    DocV::Concat(
        sp_leading(t.leading) + seq![DocV::Token(sp_token_text(t, o))] + sp_trailing(t.trailing),
    )
}

/// The token texts of a subtree, in order.
pub open spec fn node_token_texts(n: SyntaxNodeV) -> Seq<Seq<char>>
    decreases n,
{
    elems_token_texts(n.children)
}

pub open spec fn elems_token_texts(s: Seq<SyntaxElementV>) -> Seq<Seq<char>>
    decreases s,
{
    if s.len() == 0 {
        Seq::empty()
    } else {
        elem_token_texts(s[0]) + elems_token_texts(s.drop_first())
    }
}

pub open spec fn elem_token_texts(e: SyntaxElementV) -> Seq<Seq<char>>
    decreases e,
{
    match e {
        SyntaxElementV::Node(n) => node_token_texts(n),
        SyntaxElementV::Token(t) => seq![t.text],
    }
}

/// Texts joined by single spaces.
pub open spec fn join_texts(ts: Seq<Seq<char>>) -> Seq<char>
    decreases ts,
{
    if ts.len() == 0 {
        Seq::empty()
    } else if ts.len() == 1 {
        ts[0]
    } else {
        ts[0] + seq![' '] + join_texts(ts.drop_first())
    }
}

/// The verbatim rendering of a node the driver has no rule for: its token
/// texts joined by spaces, as one opaque token with no seam inside.
pub open spec fn sp_verbatim(n: SyntaxNodeV) -> DocV {
    DocV::Token(join_texts(node_token_texts(n)))
}

/// The tag a placeholder carries for the diagnostics collaborator.
pub open spec fn parse_error_label() -> Seq<char> {
    seq!['p', 'a', 'r', 's', 'e', '-', 'e', 'r', 'r', 'o', 'r']
}

/// The placeholder of a node whose rule found a mandatory child absent:
/// the node rendered verbatim, so that the output is still textually
/// complete, tagged for the diagnostics collaborator.  The failure is
/// fatal for this subtree alone; the rest of the file still formats.
pub open spec fn sp_placeholder(n: SyntaxNodeV) -> DocV {
    DocV::Label(parse_error_label(), Box::new(sp_verbatim(n)))
}

/// A comma-separated group: the items joined by comma and soft space, as
/// one atomic layout decision.
pub open spec fn sp_comma_group(items: Seq<DocV>) -> DocV {
    let sep = DocV::Concat(seq![DocV::Token(seq![',']), DocV::Line(LineMode::SoftSpace)]);
    DocV::Group(None, Box::new(DocV::Concat(join_view(sep, items))))
}

/// The statement terminator, present exactly when semicolons are always
/// written.
pub open spec fn sp_semi(o: FormatOptions) -> Seq<DocV> {
    if o.semicolons == Semicolons::Always {
        seq![DocV::Token(seq![';'])]
    } else {
        Seq::empty()
    }
}

/// The first token of a subtree, in tree order, if any.
pub open spec fn first_tree_token(n: SyntaxNodeV) -> Option<SyntaxTokenV>
    decreases n,
{
    elems_first_token(n.children)
}

pub open spec fn elems_first_token(s: Seq<SyntaxElementV>) -> Option<SyntaxTokenV>
    decreases s,
{
    if s.len() == 0 {
        None
    } else {
        match s[0] {
            SyntaxElementV::Token(t) => Some(t),
            SyntaxElementV::Node(m) => match first_tree_token(m) {
                Some(t) => Some(t),
                None => elems_first_token(s.drop_first()),
            },
        }
    }
}

/// Whether a statement opens with a token that, after a dropped
/// terminator, would merge with the line before it and change its
/// meaning.
pub open spec fn starts_hazard(n: SyntaxNodeV) -> bool {
    match first_tree_token(n) {
        Some(t) => t.text.len() > 0 && (t.text[0] == '[' || t.text[0] == '('),
        None => false,
    }
}

/// The guard before a statement in a list: where terminators are written
/// only as needed, a statement after the first that opens with `[` or `(`
/// is preceded by a lone `;`, so that leaving the terminators out never
/// changes what the program means.
pub open spec fn sp_guard(n: SyntaxNodeV, o: FormatOptions, first: bool) -> Seq<DocV> {
    if o.semicolons == Semicolons::AsNeeded && !first && starts_hazard(n) {
        seq![DocV::Token(seq![';'])]
    } else {
        Seq::empty()
    }
}

/// The document of the first token of `kind`, or `None` when absent.
pub open spec fn sp_req_token(n: SyntaxNodeV, kind: SyntaxKind, o: FormatOptions) -> Option<
    DocV,
> {
    match first_token_of(n.children, kind) {
        Some(t) => Some(sp_format_token(t, o)),
        None => None,
    }
}

/// The delimited-list pattern: the items behind a soft seam and one level
/// of indent, separated by comma and soft space, with a trailing comma
/// when broken if `trail` allows, all in one group.  An empty list is the
/// two delimiters alone.
pub open spec fn sp_delimited(l: DocV, items: Seq<DocV>, r: DocV, trail: bool) -> DocV {
    if items.len() == 0 {
        DocV::Concat(seq![l, r])
    } else {
        let sep = DocV::Concat(seq![DocV::Token(seq![',']), DocV::Line(LineMode::SoftSpace)]);
        let trail_doc = if trail {
            DocV::IfBreak(Box::new(DocV::Empty), Box::new(DocV::Token(seq![','])), None)
        } else {
            DocV::Empty
        };
        DocV::Group(
            None,
            Box::new(
                DocV::Concat(
                    seq![
                        l,
                        DocV::Indent(
                            Box::new(
                                DocV::Concat(
                                    seq![
                                        DocV::Line(LineMode::Soft),
                                        DocV::Concat(join_view(sep, items)),
                                        trail_doc,
                                    ],
                                ),
                            ),
                        ),
                        DocV::Line(LineMode::Soft),
                        r,
                    ],
                ),
            ),
        )
    }
}

/// The rule of one node: the document its rule builds, or `None` when a
/// mandatory child of this very node is absent.  Children are lowered by
/// [`sp_lower`], which never fails, so a failure deep in a subtree never
/// reaches the rule above it.
pub open spec fn sp_rule(n: SyntaxNodeV, o: FormatOptions) -> Option<DocV>
    decreases node_size(n), 2nat,
    when true
    via sp_rule_dec
{
    if n.kind == SyntaxKind::Script {
        Some(sp_statement_list::<Stmt>(n, o))
    } else if n.kind == SyntaxKind::Module {
        Some(sp_statement_list::<ModuleItem>(n, o))
    } else if n.kind == SyntaxKind::BlockStmt {
        match (
            sp_req_token(n, SyntaxKind::LCurly, o),
            sp_req_token(n, SyntaxKind::RCurly, o),
        ) {
            (Some(l), Some(r)) => {
                let stmts = sp_stmt_docs(castable_children::<Stmt>(n.children), o, true);
                if stmts.len() == 0 {
                    Some(DocV::Concat(seq![l, r]))
                } else {
                    Some(
                        DocV::Concat(
                            seq![
                                l,
                                DocV::Indent(
                                    Box::new(
                                        DocV::Concat(
                                            seq![
                                                DocV::Line(LineMode::Hard),
                                                DocV::Concat(
                                                    join_view(DocV::Line(LineMode::Hard), stmts),
                                                ),
                                            ],
                                        ),
                                    ),
                                ),
                                DocV::Line(LineMode::Hard),
                                r,
                            ],
                        ),
                    )
                }
            },
            _ => None,
        }
    } else if n.kind == SyntaxKind::EmptyStmt {
        match first_token_of(n.children, SyntaxKind::Semicolon) {
            Some(t) => Some(sp_format_token(t, o)),
            None => Some(DocV::Empty),
        }
    } else if n.kind == SyntaxKind::ExprStmt {
        match first_castable::<Expr>(n.children) {
            Some(e) => Some(DocV::Concat(seq![sp_lower(e, o)] + sp_semi(o))),
            None => None,
        }
    } else if n.kind == SyntaxKind::VarDecl {
        match first_any_token(n.children) {
            Some(kw) => Some(
                DocV::Concat(
                    seq![
                        sp_format_token(kw, o),
                        DocV::Space,
                        DocV::Concat(
                            join_view(
                                DocV::Concat(seq![DocV::Token(seq![',']), DocV::Space]),
                                sp_lower_nodes(castable_children::<Declarator>(n.children), o),
                            ),
                        ),
                    ] + sp_semi(o),
                ),
            ),
            None => None,
        }
    } else if n.kind == SyntaxKind::Declarator {
        match first_castable::<Pattern>(n.children) {
            Some(p) => match first_token_of(n.children, SyntaxKind::Assign) {
                Some(eq) => match first_castable::<Expr>(n.children) {
                    Some(v) => Some(
                        DocV::Concat(
                            seq![
                                sp_lower(p, o),
                                DocV::Space,
                                sp_format_token(eq, o),
                                DocV::Space,
                                sp_lower(v, o),
                            ],
                        ),
                    ),
                    None => None,
                },
                None => Some(sp_lower(p, o)),
            },
            None => None,
        }
    } else if n.kind == SyntaxKind::SinglePattern {
        match first_castable::<Name>(n.children) {
            Some(m) => Some(sp_lower(m, o)),
            None => None,
        }
    } else if n.kind == SyntaxKind::Name || n.kind == SyntaxKind::NameRef || n.kind
        == SyntaxKind::Ident || n.kind == SyntaxKind::Literal {
        match first_any_token(n.children) {
            Some(t) => Some(sp_format_token(t, o)),
            None => None,
        }
    } else if n.kind == SyntaxKind::Condition || n.kind == SyntaxKind::GroupingExpr {
        match (
            sp_req_token(n, SyntaxKind::LParen, o),
            first_castable::<Expr>(n.children),
            sp_req_token(n, SyntaxKind::RParen, o),
        ) {
            (Some(l), Some(e), Some(r)) => Some(DocV::Concat(seq![l, sp_lower(e, o), r])),
            _ => None,
        }
    } else if n.kind == SyntaxKind::IfStmt {
        if first_token_of(n.children, SyntaxKind::ElseKw) is Some {
            Some(sp_verbatim(n))
        } else {
            match (
                sp_req_token(n, SyntaxKind::IfKw, o),
                first_castable::<Condition>(n.children),
                first_castable::<Stmt>(n.children),
            ) {
                (Some(t), Some(c), Some(s)) => Some(
                    DocV::Concat(
                        seq![t, DocV::Space, sp_lower(c, o), DocV::Space, sp_lower(s, o)],
                    ),
                ),
                _ => None,
            }
        }
    } else if n.kind == SyntaxKind::LabelledStmt {
        match (
            first_castable::<Name>(n.children),
            sp_req_token(n, SyntaxKind::Colon, o),
            first_castable::<Stmt>(n.children),
        ) {
            (Some(lbl), Some(colon), Some(s)) => Some(
                DocV::Concat(seq![sp_lower(lbl, o), colon, DocV::Space, sp_lower(s, o)]),
            ),
            _ => None,
        }
    } else if n.kind == SyntaxKind::SequenceExpr {
        Some(sp_comma_group(sp_lower_nodes(castable_children::<Expr>(n.children), o)))
    } else if n.kind == SyntaxKind::Setter {
        match (
            first_token_of(n.children, SyntaxKind::SetKw),
            first_castable::<PropName>(n.children),
            first_castable::<ParameterList>(n.children),
            first_castable::<BlockStmt>(n.children),
        ) {
            (Some(t), Some(k), Some(p), Some(b)) => Some(
                DocV::Concat(
                    seq![
                        sp_format_token(t, o),
                        DocV::Space,
                        sp_lower(k, o),
                        sp_lower(p, o),
                        DocV::Space,
                        sp_lower(b, o),
                    ],
                ),
            ),
            _ => None,
        }
    } else if n.kind == SyntaxKind::ArrayExpr {
        match (
            sp_req_token(n, SyntaxKind::LBrack, o),
            sp_req_token(n, SyntaxKind::RBrack, o),
        ) {
            (Some(l), Some(r)) => Some(
                sp_delimited(
                    l,
                    sp_lower_nodes(castable_children::<ExprOrSpread>(n.children), o),
                    r,
                    o.trailing_comma != TrailingComma::Omit,
                ),
            ),
            _ => None,
        }
    } else if n.kind == SyntaxKind::CallExpr {
        match (first_castable::<Expr>(n.children), first_castable::<ArgList>(n.children)) {
            (Some(callee), Some(args)) => Some(
                DocV::Concat(seq![sp_lower(callee, o), sp_lower(args, o)]),
            ),
            _ => None,
        }
    } else if n.kind == SyntaxKind::ArgList {
        match (
            sp_req_token(n, SyntaxKind::LParen, o),
            sp_req_token(n, SyntaxKind::RParen, o),
        ) {
            (Some(l), Some(r)) => Some(
                sp_delimited(
                    l,
                    sp_lower_nodes(castable_children::<Expr>(n.children), o),
                    r,
                    o.trailing_comma == TrailingComma::All,
                ),
            ),
            _ => None,
        }
    } else if n.kind == SyntaxKind::ParameterList {
        match (
            sp_req_token(n, SyntaxKind::LParen, o),
            sp_req_token(n, SyntaxKind::RParen, o),
        ) {
            (Some(l), Some(r)) => Some(
                sp_delimited(
                    l,
                    sp_lower_nodes(castable_children::<Pattern>(n.children), o),
                    r,
                    o.trailing_comma == TrailingComma::All,
                ),
            ),
            _ => None,
        }
    } else {
        Some(sp_verbatim(n))
    }
}

/// The lowering of one node: the document of its rule, or its placeholder
/// where the rule found a mandatory child absent.  Lowering never fails;
/// the whole file always formats.
pub open spec fn sp_lower(n: SyntaxNodeV, o: FormatOptions) -> DocV
    decreases node_size(n), 3nat,
{
    match sp_rule(n, o) {
        Some(d) => d,
        None => sp_placeholder(n),
    }
}

/// The item list of a script or module: the castable items, each behind
/// its guard, joined by hard seams.
pub open spec fn sp_statement_list<T: AstNode>(n: SyntaxNodeV, o: FormatOptions) -> DocV
    decreases node_size(n), 1nat,
    when true
    via sp_statement_list_dec::<T>
{
    DocV::Concat(
        join_view(
            DocV::Line(LineMode::Hard),
            sp_stmt_docs(castable_children::<T>(n.children), o, true),
        ),
    )
}

/// The lowering of a list of nodes, in order.
pub open spec fn sp_lower_nodes(ns: Seq<SyntaxNodeV>, o: FormatOptions) -> Seq<DocV>
    decreases sum_sizes(ns) + 1, 0nat,
    when true
    via sp_lower_nodes_dec
{
    if ns.len() == 0 {
        Seq::empty()
    } else {
        seq![sp_lower(ns[0], o)] + sp_lower_nodes(ns.drop_first(), o)
    }
}

/// The documents of a statement list: each statement behind its guard.
pub open spec fn sp_stmt_docs(ns: Seq<SyntaxNodeV>, o: FormatOptions, first: bool) -> Seq<DocV>
    decreases sum_sizes(ns) + 1, 0nat,
    when true
    via sp_stmt_docs_dec
{
    if ns.len() == 0 {
        Seq::empty()
    } else {
        seq![DocV::Concat(sp_guard(ns[0], o, first) + seq![sp_lower(ns[0], o)])]
            + sp_stmt_docs(ns.drop_first(), o, false)
    }
}

#[via_fn]
proof fn sp_rule_dec(n: SyntaxNodeV, o: FormatOptions) {
    lemma_first_castable_size::<Expr>(n.children);
    lemma_first_castable_size::<Pattern>(n.children);
    lemma_first_castable_size::<Name>(n.children);
    lemma_first_castable_size::<Condition>(n.children);
    lemma_first_castable_size::<Stmt>(n.children);
    lemma_first_castable_size::<PropName>(n.children);
    lemma_first_castable_size::<ParameterList>(n.children);
    lemma_first_castable_size::<BlockStmt>(n.children);
    lemma_first_castable_size::<ArgList>(n.children);
    lemma_sum_castable::<Stmt>(n.children);
    lemma_sum_castable::<Declarator>(n.children);
    lemma_sum_castable::<Expr>(n.children);
    lemma_sum_castable::<ExprOrSpread>(n.children);
    lemma_sum_castable::<Pattern>(n.children);
    assert(node_size(n) == 1 + elems_size(n.children));
}

#[via_fn]
proof fn sp_statement_list_dec<T: AstNode>(n: SyntaxNodeV, o: FormatOptions) {
    lemma_sum_castable::<T>(n.children);
    assert(node_size(n) == 1 + elems_size(n.children));
}

#[via_fn]
proof fn sp_lower_nodes_dec(ns: Seq<SyntaxNodeV>, o: FormatOptions) {
    if ns.len() > 0 {
        lemma_node_size_pos(ns[0]);
        assert(sum_sizes(ns) == node_size(ns[0]) + sum_sizes(ns.drop_first()));
    }
}

#[via_fn]
proof fn sp_stmt_docs_dec(ns: Seq<SyntaxNodeV>, o: FormatOptions, first: bool) {
    if ns.len() > 0 {
        lemma_node_size_pos(ns[0]);
        assert(sum_sizes(ns) == node_size(ns[0]) + sum_sizes(ns.drop_first()));
    }
}

/// What `format` returns: the laid-out text of the lowered tree.
pub open spec fn spec_format(n: SyntaxNodeV, o: FormatOptions) -> Seq<char> {
    spec_print(sp_lower(n, o), o)
}

/// The views of a list of owned strings.
pub open spec fn strings_views(v: Seq<String>) -> Seq<Seq<char>> {
    v.map_values(|s: String| s@)
}

proof fn lemma_elems_tt_snoc(s: Seq<SyntaxElementV>, i: int)
    requires
        0 <= i < s.len(),
    ensures
        elems_token_texts(s.take(i + 1)) == elems_token_texts(s.take(i)) + elem_token_texts(s[i]),
    decreases i,
{
    let a = s.take(i + 1);
    let b = s.take(i);
    if i == 0 {
        assert(b =~= Seq::empty());
        assert(a.drop_first() =~= Seq::empty());
        assert(elems_token_texts(a) =~= elems_token_texts(b) + elem_token_texts(s[0]));
    } else {
        lemma_elems_tt_snoc(s.drop_first(), i - 1);
        assert(a.drop_first() =~= s.drop_first().take(i));
        assert(b.drop_first() =~= s.drop_first().take(i - 1));
        assert(s.drop_first()[i - 1] == s[i]);
        assert(elems_token_texts(a) =~= elems_token_texts(b) + elem_token_texts(s[i]));
    }
}

proof fn lemma_join_texts_snoc(ts: Seq<Seq<char>>, i: int)
    requires
        1 <= i < ts.len(),
    ensures
        join_texts(ts.take(i + 1)) == join_texts(ts.take(i)) + seq![' '] + ts[i],
    decreases i,
{
    let a = ts.take(i + 1);
    let b = ts.take(i);
    if i == 1 {
        assert(b =~= seq![ts[0]]);
        assert(a.drop_first() =~= seq![ts[1]]);
        assert(join_texts(a) =~= join_texts(b) + seq![' '] + ts[i]);
    } else {
        lemma_join_texts_snoc(ts.drop_first(), i - 1);
        assert(a.drop_first() =~= ts.drop_first().take(i));
        assert(b.drop_first() =~= ts.drop_first().take(i - 1));
        assert(ts.drop_first()[i - 1] == ts[i]);
        assert(a.len() == i + 1 && b.len() == i);
        assert(join_texts(a) == a[0] + seq![' '] + join_texts(a.drop_first()));
        assert(join_texts(b) == b[0] + seq![' '] + join_texts(b.drop_first()));
        assert(join_texts(a.drop_first()) == join_texts(ts.drop_first().take(i - 1)) + seq![' ']
            + ts[i]);
        assert(join_texts(a) =~= join_texts(b) + seq![' '] + ts[i]);
    }
}

/// Collects the token texts of a subtree, in order.
fn collect_texts(n: &SyntaxNode, out: &mut Vec<String>)
    ensures
        strings_views(final(out)@) == strings_views(old(out)@) + node_token_texts(n@),
    decreases *n,
{
    let ghost cs = n@.children;
    proof {
        crate::syntax::lemma_elems_view(n.children@);
    }
    let mut i: usize = 0;
    while i < n.children.len()
        invariant
            i <= n.children.len(),
            cs == crate::syntax::elems_view(n.children@),
            cs.len() == n.children@.len(),
            forall|j: int|
                0 <= j < cs.len() ==> cs[j] == crate::syntax::elem_view(n.children@[j]),
            strings_views(out@) == strings_views(old(out)@) + elems_token_texts(
                cs.take(i as int),
            ),
        decreases n.children.len() - i,
    {
        proof {
            lemma_elems_tt_snoc(cs, i as int);
        }
        match &n.children[i] {
            crate::syntax::SyntaxElement::Token(t) => {
                let ghost g = out@;
                out.push(t.text.clone());
                proof {
                    assert(strings_views(out@) =~= strings_views(g) + seq![t.text@]);
                }
            },
            crate::syntax::SyntaxElement::Node(m) => {
                collect_texts(m, out);
            },
        }
        i = i + 1;
    }
    proof {
        assert(cs.take(cs.len() as int) =~= cs);
        assert(strings_views(out@) =~= strings_views(old(out)@) + node_token_texts(n@));
    }
}

/// Joins texts with single spaces.
fn join_with_spaces(texts: &Vec<String>) -> (r: String)
    ensures
        r@ == join_texts(strings_views(texts@)),
{
    let ghost ts = strings_views(texts@);
    let mut out = String::new();
    let mut i: usize = 0;
    while i < texts.len()
        invariant
            i <= texts.len(),
            ts == strings_views(texts@),
            ts.len() == texts@.len(),
            forall|j: int| 0 <= j < ts.len() ==> ts[j] == texts@[j]@,
            out@ == join_texts(ts.take(i as int)),
        decreases texts.len() - i,
    {
        if i > 0 {
            out.append(" ");
            proof {
                reveal_strlit(" ");
            }
        }
        out.append(texts[i].as_str());
        proof {
            if i == 0 {
                assert(ts.take(1int) =~= seq![ts[0]]);
                assert(join_texts(ts.take(1int)) == ts[0]);
                assert(out@ =~= ts[0]);
            } else {
                lemma_join_texts_snoc(ts, i as int);
                assert(" "@ =~= seq![' ']);
                assert(out@ =~= join_texts(ts.take(i as int)) + seq![' '] + ts[i as int]);
            }
        }
        i = i + 1;
    }
    proof {
        assert(ts.take(ts.len() as int) =~= ts);
    }
    out
}

/// Renders a node verbatim: its token texts joined by spaces, one opaque
/// token.
fn verbatim_element(n: &SyntaxNode) -> (r: FormatElement)
    ensures
        r@ == sp_verbatim(n@),
{
    let mut texts: Vec<String> = Vec::new();
    collect_texts(n, &mut texts);
    proof {
        assert(strings_views(texts@) =~= node_token_texts(n@));
    }
    token_string(join_with_spaces(&texts))
}

/// The first token of a subtree, in tree order.
fn first_tree_token_exec(n: &SyntaxNode) -> (r: Option<SyntaxToken>)
    ensures
        r matches Some(t) ==> first_tree_token(n@) == Some(t@),
        r is Some <==> first_tree_token(n@) is Some,
    decreases *n,
{
    let ghost cs = n@.children;
    proof {
        crate::syntax::lemma_elems_view(n.children@);
        assert(cs.skip(0) =~= cs);
    }
    let mut i: usize = 0;
    while i < n.children.len()
        invariant
            i <= n.children.len(),
            cs == crate::syntax::elems_view(n.children@),
            cs.len() == n.children@.len(),
            forall|j: int|
                0 <= j < cs.len() ==> cs[j] == crate::syntax::elem_view(n.children@[j]),
            elems_first_token(cs) == elems_first_token(cs.skip(i as int)),
        decreases n.children.len() - i,
    {
        proof {
            assert(cs.skip(i as int)[0] == cs[i as int]);
            assert(cs.skip(i as int).drop_first() =~= cs.skip(i + 1 as int));
        }
        match &n.children[i] {
            crate::syntax::SyntaxElement::Token(t) => {
                return Some(crate::syntax::clone_token(t));
            },
            crate::syntax::SyntaxElement::Node(m) => {
                match first_tree_token_exec(m) {
                    Some(t) => {
                        return Some(t);
                    },
                    None => {},
                }
            },
        }
        i = i + 1;
    }
    proof {
        assert(cs.skip(cs.len() as int) =~= Seq::<SyntaxElementV>::empty());
    }
    None
}

/// Whether the statement opens a hazard after a dropped terminator, as
/// [`starts_hazard`] defines it.
fn starts_hazard_exec(n: &SyntaxNode) -> (r: bool)
    ensures
        r == starts_hazard(n@),
{
    match first_tree_token_exec(n) {
        Some(t) => {
            if t.text.as_str().unicode_len() > 0 {
                let c = t.text.as_str().get_char(0);
                c == '[' || c == '('
            } else {
                false
            }
        },
        None => false,
    }
}

/// Renders the placeholder of a node whose rule found a mandatory child
/// absent, as [`sp_placeholder`] defines it.
fn placeholder_element(n: &SyntaxNode) -> (r: FormatElement)
    ensures
        r@ == sp_placeholder(n@),
{
    let inner = verbatim_element(n);
    let r = crate::format_element::label("parse-error", inner);
    proof {
        reveal_strlit("parse-error");
        assert("parse-error"@ =~= parse_error_label());
    }
    r
}

proof fn lemma_sp_leading_snoc(ts: Seq<TriviaV>, i: int)
    requires
        0 <= i < ts.len(),
    ensures
        sp_leading(ts.take(i + 1)) == sp_leading(ts.take(i)) + sp_lead_one(ts[i]),
    decreases i,
{
    let a = ts.take(i + 1);
    let b = ts.take(i);
    if i == 0 {
        assert(b =~= Seq::empty());
        assert(a.drop_first() =~= Seq::empty());
        assert(sp_leading(a) =~= sp_leading(b) + sp_lead_one(ts[0]));
    } else {
        lemma_sp_leading_snoc(ts.drop_first(), i - 1);
        assert(a.drop_first() =~= ts.drop_first().take(i));
        assert(b.drop_first() =~= ts.drop_first().take(i - 1));
        assert(ts.drop_first()[i - 1] == ts[i]);
        assert(sp_leading(a) =~= sp_leading(b) + sp_lead_one(ts[i]));
    }
}

proof fn lemma_sp_trailing_snoc(ts: Seq<TriviaV>, i: int)
    requires
        0 <= i < ts.len(),
    ensures
        sp_trailing(ts.take(i + 1)) == sp_trailing(ts.take(i)) + sp_trail_one(ts[i]),
    decreases i,
{
    let a = ts.take(i + 1);
    let b = ts.take(i);
    if i == 0 {
        assert(b =~= Seq::empty());
        assert(a.drop_first() =~= Seq::empty());
        assert(sp_trailing(a) =~= sp_trailing(b) + sp_trail_one(ts[0]));
    } else {
        lemma_sp_trailing_snoc(ts.drop_first(), i - 1);
        assert(a.drop_first() =~= ts.drop_first().take(i));
        assert(b.drop_first() =~= ts.drop_first().take(i - 1));
        assert(ts.drop_first()[i - 1] == ts[i]);
        assert(sp_trailing(a) =~= sp_trailing(b) + sp_trail_one(ts[i]));
    }
}

/// The lowering driver.  It holds the configured style and walks the tree.
pub struct Formatter {
    pub options: FormatOptions,
}

impl Formatter {
    /// A driver for the given style.
    pub fn new(options: FormatOptions) -> (r: Formatter)
        ensures
            r.options == options,
    {
        Formatter { options }
    }

    /// The document of one source token with its trivia, as
    /// [`sp_format_token`] defines it.
    pub fn format_token(&self, t: &SyntaxToken) -> (r: FormatElement)
        ensures
            r@ == sp_format_token(t@, self.options),
    {
        let ghost lv = trivia_views(t.leading@);
        let ghost tv = trivia_views(t.trailing@);
        let mut parts: Vec<FormatElement> = Vec::new();
        let mut i: usize = 0;
        proof {
            assert(lv.take(0) =~= Seq::empty());
            assert(docs_view(parts@) =~= sp_leading(lv.take(0)));
        }
        while i < t.leading.len()
            invariant
                i <= t.leading.len(),
                lv == trivia_views(t.leading@),
                lv.len() == t.leading@.len(),
                forall|j: int| 0 <= j < lv.len() ==> lv[j] == t.leading@[j]@,
                docs_view(parts@) == sp_leading(lv.take(i as int)),
            decreases t.leading.len() - i,
        {
            let tr = &t.leading[i];
            proof {
                lemma_sp_leading_snoc(lv, i as int);
            }
            match tr.kind {
                TriviaKind::LineComment => {
                    let e1 = token_string(tr.text.clone());
                    let ghost g1 = parts@;
                    parts.push(e1);
                    proof {
                        lemma_docs_view_push(g1, e1);
                    }
                    let e2 = FormatElement::Line(LineMode::Hard);
                    let ghost g2 = parts@;
                    parts.push(e2);
                    proof {
                        lemma_docs_view_push(g2, e2);
                        assert(docs_view(parts@) =~= sp_leading(lv.take(i as int)) + sp_lead_one(
                            lv[i as int],
                        ));
                    }
                },
                TriviaKind::BlockComment => {
                    let mut pair: Vec<FormatElement> = Vec::new();
                    pair.push(token_string(tr.text.clone()));
                    pair.push(FormatElement::Line(LineMode::SoftSpace));
                    proof {
                        lemma_docs_view(pair@);
                        assert(docs_view(pair@) =~= seq![
                            DocV::Token(tr.text@),
                            DocV::Line(LineMode::SoftSpace),
                        ]);
                    }
                    let grouped = crate::format_element::group_elements(concat_elements(pair));
                    let ghost g1 = parts@;
                    parts.push(grouped);
                    proof {
                        lemma_docs_view_push(g1, grouped);
                        assert(docs_view(parts@) =~= sp_leading(lv.take(i as int)) + sp_lead_one(
                            lv[i as int],
                        ));
                    }
                },
                TriviaKind::Blank => {
                    let e1 = FormatElement::Line(LineMode::Hard);
                    let ghost g1 = parts@;
                    parts.push(e1);
                    proof {
                        lemma_docs_view_push(g1, e1);
                        assert(docs_view(parts@) =~= sp_leading(lv.take(i as int)) + sp_lead_one(
                            lv[i as int],
                        ));
                    }
                },
            }
            i = i + 1;
        }
        proof {
            assert(lv.take(lv.len() as int) =~= lv);
        }
        let tok_el = if matches!(t.kind, SyntaxKind::StringLit) {
            token_string(normalize_string_token(t.text.as_str(), self.options.quote_style))
        } else {
            token_string(t.text.clone())
        };
        proof {
            assert(tok_el@ == DocV::Token(sp_token_text(t@, self.options)));
        }
        let ghost gtok = parts@;
        parts.push(tok_el);
        proof {
            lemma_docs_view_push(gtok, tok_el);
            assert(tv.take(0) =~= Seq::empty());
            assert(docs_view(parts@) =~= sp_leading(lv) + seq![
                DocV::Token(sp_token_text(t@, self.options)),
            ] + sp_trailing(tv.take(0)));
        }
        let mut k: usize = 0;
        while k < t.trailing.len()
            invariant
                k <= t.trailing.len(),
                lv == trivia_views(t.leading@),
                tv == trivia_views(t.trailing@),
                tv.len() == t.trailing@.len(),
                forall|j: int| 0 <= j < tv.len() ==> tv[j] == t.trailing@[j]@,
                docs_view(parts@) == sp_leading(lv) + seq![
                    DocV::Token(sp_token_text(t@, self.options)),
                ] + sp_trailing(tv.take(k as int)),
            decreases t.trailing.len() - k,
        {
            let tr = &t.trailing[k];
            proof {
                lemma_sp_trailing_snoc(tv, k as int);
            }
            match tr.kind {
                TriviaKind::LineComment => {
                    let mut inner: Vec<FormatElement> = Vec::new();
                    inner.push(FormatElement::Space);
                    inner.push(token_string(tr.text.clone()));
                    proof {
                        lemma_docs_view(inner@);
                        assert(docs_view(inner@) =~= seq![DocV::Space, DocV::Token(tr.text@)]);
                    }
                    let ci = FormatElement::Concat(inner);
                    proof {
                        assert(ci@ == DocV::Concat(seq![DocV::Space, DocV::Token(tr.text@)]));
                    }
                    let ls = FormatElement::LineSuffix(Box::new(ci));
                    proof {
                        assert(ls@ == sp_trail_one(tv[k as int])[0]);
                    }
                    let ghost g1 = parts@;
                    parts.push(ls);
                    proof {
                        lemma_docs_view_push(g1, ls);
                        assert(docs_view(parts@) =~= sp_leading(lv) + seq![
                            DocV::Token(sp_token_text(t@, self.options)),
                        ] + (sp_trailing(tv.take(k as int)) + sp_trail_one(tv[k as int])));
                    }
                },
                TriviaKind::BlockComment => {
                    let e1 = FormatElement::Space;
                    let ghost g1 = parts@;
                    parts.push(e1);
                    proof {
                        lemma_docs_view_push(g1, e1);
                    }
                    let e2 = token_string(tr.text.clone());
                    let ghost g2 = parts@;
                    parts.push(e2);
                    proof {
                        lemma_docs_view_push(g2, e2);
                        assert(docs_view(parts@) =~= sp_leading(lv) + seq![
                            DocV::Token(sp_token_text(t@, self.options)),
                        ] + (sp_trailing(tv.take(k as int)) + sp_trail_one(tv[k as int])));
                    }
                },
                TriviaKind::Blank => {
                    proof {
                        assert(sp_trail_one(tv[k as int]) =~= Seq::<DocV>::empty());
                        assert(docs_view(parts@) =~= sp_leading(lv) + seq![
                            DocV::Token(sp_token_text(t@, self.options)),
                        ] + (sp_trailing(tv.take(k as int)) + sp_trail_one(tv[k as int])));
                    }
                },
            }
            k = k + 1;
        }
        proof {
            assert(tv.take(tv.len() as int) =~= tv);
        }
        concat_elements(parts)
    }
}

/// What a node's rule returns: exactly the document of [`sp_rule`], or
/// `MissingToken` exactly when a mandatory child of this node is absent.
pub open spec fn rule_ens(n: SyntaxNodeV, o: FormatOptions, r: FormatResult<FormatElement>)
    -> bool {
    &&& (r matches Ok(el) ==> sp_rule(n, o) == Some(el@))
    &&& (r is Ok <==> sp_rule(n, o) is Some)
    &&& (r is Err ==> r->Err_0 == FormatError::MissingToken)
}

/// The node views of a typed list.
pub open spec fn nodes_views<T: AstNode>(v: Seq<T>) -> Seq<SyntaxNodeV> {
    v.map_values(|t: T| t.spec_node())
}

/// The views of a list of untyped nodes.
pub open spec fn syntax_views(v: Seq<SyntaxNode>) -> Seq<SyntaxNodeV> {
    v.map_values(|n: SyntaxNode| n@)
}

/// Unwraps a typed list to the untyped nodes, views kept.
pub fn to_syntax_list<T: AstNode>(nodes: Vec<T>) -> (r: Vec<SyntaxNode>)
    ensures
        syntax_views(r@) == nodes_views(nodes@),
{
    let ghost ns = nodes_views(nodes@);
    let mut out: Vec<SyntaxNode> = Vec::new();
    let mut i: usize = 0;
    while i < nodes.len()
        invariant
            i <= nodes.len(),
            ns == nodes_views(nodes@),
            ns.len() == nodes@.len(),
            forall|j: int| 0 <= j < ns.len() ==> ns[j] == nodes@[j].spec_node(),
            out@.len() == i,
            forall|j: int| 0 <= j < i ==> (#[trigger] out@[j])@ == ns[j],
        decreases nodes.len() - i,
    {
        out.push(nodes[i].syntax().clone());
        i = i + 1;
    }
    proof {
        assert(syntax_views(out@) =~= ns);
    }
    out
}

impl Formatter {
    /// The document of the first token of `kind`, or `MissingToken`.
    fn fmt_req_token(&self, node: &SyntaxNode, kind: SyntaxKind) -> (r: FormatResult<
        FormatElement,
    >)
        ensures
            r matches Ok(el) ==> sp_req_token(node@, kind, self.options) == Some(el@),
            r is Ok <==> sp_req_token(node@, kind, self.options) is Some,
            r is Err ==> r->Err_0 == FormatError::MissingToken,
    {
        match as_mandatory_token(node, kind) {
            Ok(t) => Ok(self.format_token(&t)),
            Err(_) => Err(FormatError::MissingToken),
        }
    }

    /// The delimited-list pattern, as [`sp_delimited`] defines it.
    fn delimited(
        &self,
        l: FormatElement,
        items: Vec<FormatElement>,
        rd: FormatElement,
        trail: bool,
    ) -> (r: FormatElement)
        ensures
            r@ == sp_delimited(l@, docs_view(items@), rd@, trail),
    {
        let ghost lv = l@;
        let ghost rv = rd@;
        let ghost ivs = docs_view(items@);
        proof {
            lemma_docs_view(items@);
        }
        if items.len() == 0 {
            let mut parts: Vec<FormatElement> = Vec::new();
            parts.push(l);
            parts.push(rd);
            proof {
                lemma_docs_view(parts@);
                assert(docs_view(parts@) =~= seq![lv, rv]);
            }
            concat_elements(parts)
        } else {
            let mut sep_parts: Vec<FormatElement> = Vec::new();
            sep_parts.push(token(","));
            sep_parts.push(FormatElement::Line(LineMode::SoftSpace));
            proof {
                reveal_strlit(",");
                assert(","@ =~= seq![',']);
                lemma_docs_view(sep_parts@);
                assert(docs_view(sep_parts@) =~= seq![
                    DocV::Token(seq![',']),
                    DocV::Line(LineMode::SoftSpace),
                ]);
            }
            let sep = concat_elements(sep_parts);
            let ghost sepv = sep@;
            let joined = crate::format_element::join_elements(sep, items);
            let ghost joinedv = joined@;
            let trail_el = if trail {
                let t = crate::format_element::if_break(
                    crate::format_element::empty_element(),
                    token(","),
                );
                proof {
                    reveal_strlit(",");
                    assert(","@ =~= seq![',']);
                }
                t
            } else {
                crate::format_element::empty_element()
            };
            let ghost trailv = trail_el@;
            let mut inner: Vec<FormatElement> = Vec::new();
            inner.push(FormatElement::Line(LineMode::Soft));
            inner.push(joined);
            inner.push(trail_el);
            proof {
                lemma_docs_view(inner@);
                assert(docs_view(inner@) =~= seq![DocV::Line(LineMode::Soft), joinedv, trailv]);
            }
            let inner_cat = concat_elements(inner);
            let ghost icv = inner_cat@;
            let indented = crate::format_element::indent(inner_cat);
            let ghost indv = indented@;
            let mut outer: Vec<FormatElement> = Vec::new();
            outer.push(l);
            outer.push(indented);
            outer.push(FormatElement::Line(LineMode::Soft));
            outer.push(rd);
            proof {
                lemma_docs_view(outer@);
                assert(docs_view(outer@) =~= seq![lv, indv, DocV::Line(LineMode::Soft), rv]);
            }
            let outer_cat = concat_elements(outer);
            let g = crate::format_element::group_elements(outer_cat);
            proof {
                assert(g@ =~= sp_delimited(lv, ivs, rv, trail));
            }
            g
        }
    }

    /// Lowers a typed node, as [`sp_lower`] defines it.
    pub fn format_node<T: AstNode>(&self, node: T) -> (r: FormatElement)
        ensures
            r@ == sp_lower(node.spec_node(), self.options),
    {
        self.format_syntax(node.syntax())
    }

    /// Lowers a list of typed nodes in order, as [`sp_lower_nodes`] defines
    /// it.
    pub fn format_nodes<T: AstNode>(&self, nodes: Vec<T>) -> (r: Vec<FormatElement>)
        ensures
            docs_view(r@) == sp_lower_nodes(nodes_views(nodes@), self.options),
    {
        let list = to_syntax_list(nodes);
        self.format_syntax_list(&list)
    }

    /// Lowers a list of untyped nodes in order.
    pub fn format_syntax_list(&self, nodes: &Vec<SyntaxNode>) -> (r: Vec<FormatElement>)
        ensures
            docs_view(r@) == sp_lower_nodes(syntax_views(nodes@), self.options),
        decreases sum_sizes(syntax_views(nodes@)) + 1, 0nat,
    {
        let ghost ns = syntax_views(nodes@);
        let mut out: Vec<FormatElement> = Vec::new();
        let mut i: usize = 0;
        proof {
            assert(ns.skip(0) =~= ns);
        }
        while i < nodes.len()
            invariant
                i <= nodes.len(),
                ns == syntax_views(nodes@),
                ns.len() == nodes@.len(),
                forall|j: int| 0 <= j < ns.len() ==> ns[j] == nodes@[j]@,
                sum_sizes(ns.skip(i as int)) <= sum_sizes(ns),
                sp_lower_nodes(ns, self.options) == docs_view(out@) + sp_lower_nodes(
                    ns.skip(i as int),
                    self.options,
                ),
            decreases nodes.len() - i,
        {
            let ghost rv = ns.skip(i as int);
            proof {
                assert(rv[0] == ns[i as int]);
                assert(rv.drop_first() =~= ns.skip(i + 1 as int));
                assert(rv =~= seq![rv[0]] + rv.drop_first());
                lemma_sum_sizes_at(rv);
                assert(node_size(nodes@[i as int]@) <= sum_sizes(ns));
            }
            let el = self.format_syntax(&nodes[i]);
            let ghost g = out@;
            let ghost elv = el@;
            out.push(el);
            proof {
                lemma_docs_view_push(g, el);
                assert(sp_lower_nodes(rv, self.options) == seq![elv] + sp_lower_nodes(
                    rv.drop_first(),
                    self.options,
                ));
                assert(docs_view(g) + sp_lower_nodes(rv, self.options) =~= docs_view(out@)
                    + sp_lower_nodes(rv.drop_first(), self.options));
            }
            i = i + 1;
        }
        proof {
            assert(ns.skip(ns.len() as int) =~= Seq::<SyntaxNodeV>::empty());
            assert(sp_lower_nodes(ns, self.options) =~= docs_view(out@));
        }
        out
    }

    /// Lowers a statement list, each statement behind its guard, as
    /// [`sp_stmt_docs`] defines it.
    fn format_stmt_docs(&self, nodes: &Vec<SyntaxNode>) -> (r: Vec<FormatElement>)
        ensures
            docs_view(r@) == sp_stmt_docs(syntax_views(nodes@), self.options, true),
        decreases sum_sizes(syntax_views(nodes@)) + 1, 0nat,
    {
        let ghost ns = syntax_views(nodes@);
        let mut out: Vec<FormatElement> = Vec::new();
        let mut i: usize = 0;
        proof {
            assert(ns.skip(0) =~= ns);
        }
        while i < nodes.len()
            invariant
                i <= nodes.len(),
                ns == syntax_views(nodes@),
                ns.len() == nodes@.len(),
                forall|j: int| 0 <= j < ns.len() ==> ns[j] == nodes@[j]@,
                sum_sizes(ns.skip(i as int)) <= sum_sizes(ns),
                sp_stmt_docs(ns, self.options, true) == docs_view(out@) + sp_stmt_docs(
                    ns.skip(i as int),
                    self.options,
                    i == 0,
                ),
            decreases nodes.len() - i,
        {
            let ghost rv = ns.skip(i as int);
            proof {
                assert(rv[0] == ns[i as int]);
                assert(rv.drop_first() =~= ns.skip(i + 1 as int));
                assert(rv =~= seq![rv[0]] + rv.drop_first());
                lemma_sum_sizes_at(rv);
                assert(node_size(nodes@[i as int]@) <= sum_sizes(ns));
            }
            let el = self.format_syntax(&nodes[i]);
            let ghost elv = el@;
            let mut parts: Vec<FormatElement> = Vec::new();
            if i > 0 && matches!(self.options.semicolons, Semicolons::AsNeeded)
                && starts_hazard_exec(&nodes[i]) {
                parts.push(token(";"));
            }
            parts.push(el);
            proof {
                reveal_strlit(";");
                assert(";"@ =~= seq![';']);
                lemma_docs_view(parts@);
                assert(docs_view(parts@) =~= sp_guard(rv[0], self.options, i == 0) + seq![elv]);
            }
            let ce = concat_elements(parts);
            let ghost g = out@;
            out.push(ce);
            proof {
                lemma_docs_view_push(g, ce);
                assert(sp_stmt_docs(rv, self.options, i == 0) == seq![
                    DocV::Concat(sp_guard(rv[0], self.options, i == 0) + seq![elv]),
                ] + sp_stmt_docs(rv.drop_first(), self.options, false));
                assert(docs_view(g) + sp_stmt_docs(rv, self.options, i == 0) =~= docs_view(out@)
                    + sp_stmt_docs(rv.drop_first(), self.options, false));
            }
            i = i + 1;
        }
        proof {
            assert(ns.skip(ns.len() as int) =~= Seq::<SyntaxNodeV>::empty());
            assert(sp_stmt_docs(ns, self.options, true) =~= docs_view(out@));
        }
        out
    }

    /// The item list of a script, joined by hard seams.
    fn fmt_script(&self, node: &SyntaxNode) -> (r: FormatElement)
        requires
            node@.kind == SyntaxKind::Script,
        ensures
            sp_rule(node@, self.options) == Some(r@),
        decreases node_size(node@), 1nat,
    {
        let o = self.options;
        proof {
            lemma_sum_castable::<Stmt>(node@.children);
        }
        let stmts: Vec<Stmt> = node_list::<Stmt>(node);
        proof {
            assert(nodes_views(stmts@) =~= castable_children::<Stmt>(node@.children));
        }
        let list = to_syntax_list(stmts);
        let ds = self.format_stmt_docs(&list);
        let ghost dsv = docs_view(ds@);
        let res = crate::format_element::join_elements(
            crate::format_element::hard_line_break(),
            ds,
        );
        proof {
            assert(sp_stmt_docs(castable_children::<Stmt>(node@.children), o, true) == dsv);
            assert(res@ == DocV::Concat(join_view(DocV::Line(LineMode::Hard), dsv)));
            assert(sp_statement_list::<Stmt>(node@, o) == res@);
            assert(sp_rule(node@, o) == Some(res@));
        }
        res
    }

    /// The item list of a module, joined by hard seams.
    fn fmt_module(&self, node: &SyntaxNode) -> (r: FormatElement)
        requires
            node@.kind == SyntaxKind::Module,
        ensures
            sp_rule(node@, self.options) == Some(r@),
        decreases node_size(node@), 1nat,
    {
        let o = self.options;
        proof {
            lemma_sum_castable::<ModuleItem>(node@.children);
        }
        let items: Vec<ModuleItem> = node_list::<ModuleItem>(node);
        proof {
            assert(nodes_views(items@) =~= castable_children::<ModuleItem>(node@.children));
        }
        let list = to_syntax_list(items);
        let ds = self.format_stmt_docs(&list);
        let ghost dsv = docs_view(ds@);
        let res = crate::format_element::join_elements(
            crate::format_element::hard_line_break(),
            ds,
        );
        proof {
            assert(sp_stmt_docs(castable_children::<ModuleItem>(node@.children), o, true)
                == dsv);
            assert(res@ == DocV::Concat(join_view(DocV::Line(LineMode::Hard), dsv)));
            assert(sp_statement_list::<ModuleItem>(node@, o) == res@);
            assert(sp_rule(node@, o) == Some(res@));
        }
        res
    }

    /// A block: its statements behind hard seams and one level of indent.
    fn fmt_block_stmt(&self, node: &SyntaxNode) -> (r: FormatResult<FormatElement>)
        requires
            node@.kind == SyntaxKind::BlockStmt,
        ensures
            rule_ens(node@, self.options, r),
        decreases node_size(node@), 1nat,
    {
        let o = self.options;
        proof {
            lemma_sum_castable::<Stmt>(node@.children);
        }
        let l = match self.fmt_req_token(node, SyntaxKind::LCurly) {
            Ok(el) => el,
            Err(_) => {
                return Err(FormatError::MissingToken);
            },
        };
        let rtok = match self.fmt_req_token(node, SyntaxKind::RCurly) {
            Ok(el) => el,
            Err(_) => {
                return Err(FormatError::MissingToken);
            },
        };
        let stmts: Vec<Stmt> = node_list::<Stmt>(node);
        proof {
            assert(nodes_views(stmts@) =~= castable_children::<Stmt>(node@.children));
        }
        let list = to_syntax_list(stmts);
        let ds = self.format_stmt_docs(&list);
        let ghost lv = l@;
        let ghost rv = rtok@;
        let ghost dsv = docs_view(ds@);
        proof {
            lemma_docs_view(ds@);
        }
        if ds.len() == 0 {
            let mut parts: Vec<FormatElement> = Vec::new();
            parts.push(l);
            parts.push(rtok);
            proof {
                lemma_docs_view(parts@);
                assert(docs_view(parts@) =~= seq![lv, rv]);
            }
            Ok(concat_elements(parts))
        } else {
            let joined = crate::format_element::join_elements(
                crate::format_element::hard_line_break(),
                ds,
            );
            let ghost joinedv = joined@;
            let mut inner: Vec<FormatElement> = Vec::new();
            inner.push(FormatElement::Line(LineMode::Hard));
            inner.push(joined);
            proof {
                lemma_docs_view(inner@);
                assert(docs_view(inner@) =~= seq![DocV::Line(LineMode::Hard), joinedv]);
            }
            let inner_cat = concat_elements(inner);
            let indented = crate::format_element::indent(inner_cat);
            let ghost indv = indented@;
            let mut outer: Vec<FormatElement> = Vec::new();
            outer.push(l);
            outer.push(indented);
            outer.push(FormatElement::Line(LineMode::Hard));
            outer.push(rtok);
            proof {
                lemma_docs_view(outer@);
                assert(docs_view(outer@) =~= seq![lv, indv, DocV::Line(LineMode::Hard), rv]);
            }
            Ok(concat_elements(outer))
        }
    }

    /// An expression statement with its terminator.
    fn fmt_expr_stmt(&self, node: &SyntaxNode) -> (r: FormatResult<FormatElement>)
        requires
            node@.kind == SyntaxKind::ExprStmt,
        ensures
            rule_ens(node@, self.options, r),
        decreases node_size(node@), 1nat,
    {
        let o = self.options;
        proof {
            lemma_first_castable_size::<Expr>(node@.children);
        }
        match as_mandatory_node::<Expr>(node) {
            Ok(e) => {
                let ed = self.format_syntax(e.syntax());
                let ghost edv = ed@;
                let mut parts: Vec<FormatElement> = Vec::new();
                parts.push(ed);
                if matches!(self.options.semicolons, Semicolons::Always) {
                    parts.push(token(";"));
                }
                proof {
                    reveal_strlit(";");
                    assert(";"@ =~= seq![';']);
                    lemma_docs_view(parts@);
                    assert(docs_view(parts@) =~= seq![edv] + sp_semi(o));
                }
                Ok(concat_elements(parts))
            },
            Err(_) => Err(FormatError::MissingToken),
        }
    }

    /// A variable declaration: keyword, declarators, terminator.
    fn fmt_var_decl(&self, node: &SyntaxNode) -> (r: FormatResult<FormatElement>)
        requires
            node@.kind == SyntaxKind::VarDecl,
        ensures
            rule_ens(node@, self.options, r),
        decreases node_size(node@), 1nat,
    {
        let o = self.options;
        proof {
            lemma_sum_castable::<Declarator>(node@.children);
        }
        let kw = match as_first_token(node) {
            Some(t) => t,
            None => {
                return Err(FormatError::MissingToken);
            },
        };
        let kwel = self.format_token(&kw);
        let decls: Vec<Declarator> = node_list::<Declarator>(node);
        proof {
            assert(nodes_views(decls@) =~= castable_children::<Declarator>(node@.children));
        }
        let list = to_syntax_list(decls);
        let ds = self.format_syntax_list(&list);
        let mut sep_parts: Vec<FormatElement> = Vec::new();
        sep_parts.push(token(","));
        sep_parts.push(FormatElement::Space);
        proof {
            reveal_strlit(",");
            assert(","@ =~= seq![',']);
            lemma_docs_view(sep_parts@);
            assert(docs_view(sep_parts@) =~= seq![DocV::Token(seq![',']), DocV::Space]);
        }
        let sep = concat_elements(sep_parts);
        let joined = crate::format_element::join_elements(sep, ds);
        let ghost joinedv = joined@;
        let ghost kwv = kwel@;
        let mut parts: Vec<FormatElement> = Vec::new();
        parts.push(kwel);
        parts.push(FormatElement::Space);
        parts.push(joined);
        if matches!(self.options.semicolons, Semicolons::Always) {
            parts.push(token(";"));
        }
        proof {
            reveal_strlit(";");
            assert(";"@ =~= seq![';']);
            lemma_docs_view(parts@);
            assert(docs_view(parts@) =~= seq![kwv, DocV::Space, joinedv] + sp_semi(o));
        }
        Ok(concat_elements(parts))
    }

    /// One declarator: the pattern, and the initializer when present.
    fn fmt_declarator(&self, node: &SyntaxNode) -> (r: FormatResult<FormatElement>)
        requires
            node@.kind == SyntaxKind::Declarator,
        ensures
            rule_ens(node@, self.options, r),
        decreases node_size(node@), 1nat,
    {
        let o = self.options;
        proof {
            lemma_first_castable_size::<Pattern>(node@.children);
            lemma_first_castable_size::<Expr>(node@.children);
        }
        let p = match as_mandatory_node::<Pattern>(node) {
            Ok(p) => p,
            Err(_) => {
                return Err(FormatError::MissingToken);
            },
        };
        let pd = self.format_syntax(p.syntax());
        match as_optional_token(node, SyntaxKind::Assign) {
            Some(eqt) => {
                let v = match as_mandatory_node::<Expr>(node) {
                    Ok(v) => v,
                    Err(_) => {
                        return Err(FormatError::MissingToken);
                    },
                };
                let vd = self.format_syntax(v.syntax());
                let eqel = self.format_token(&eqt);
                let ghost pdv = pd@;
                let ghost eqv = eqel@;
                let ghost vdv = vd@;
                let mut parts: Vec<FormatElement> = Vec::new();
                parts.push(pd);
                parts.push(FormatElement::Space);
                parts.push(eqel);
                parts.push(FormatElement::Space);
                parts.push(vd);
                proof {
                    lemma_docs_view(parts@);
                    assert(docs_view(parts@) =~= seq![
                        pdv,
                        DocV::Space,
                        eqv,
                        DocV::Space,
                        vdv,
                    ]);
                }
                Ok(concat_elements(parts))
            },
            None => Ok(pd),
        }
    }

    /// A parenthesized expression.
    fn fmt_parenthesized(&self, node: &SyntaxNode) -> (r: FormatResult<FormatElement>)
        requires
            node@.kind == SyntaxKind::Condition || node@.kind == SyntaxKind::GroupingExpr,
        ensures
            rule_ens(node@, self.options, r),
        decreases node_size(node@), 1nat,
    {
        let o = self.options;
        proof {
            lemma_first_castable_size::<Expr>(node@.children);
        }
        let l = match self.fmt_req_token(node, SyntaxKind::LParen) {
            Ok(el) => el,
            Err(_) => {
                return Err(FormatError::MissingToken);
            },
        };
        let e = match as_mandatory_node::<Expr>(node) {
            Ok(e) => e,
            Err(_) => {
                return Err(FormatError::MissingToken);
            },
        };
        let ed = self.format_syntax(e.syntax());
        let rtok = match self.fmt_req_token(node, SyntaxKind::RParen) {
            Ok(el) => el,
            Err(_) => {
                return Err(FormatError::MissingToken);
            },
        };
        let ghost lv = l@;
        let ghost edv = ed@;
        let ghost rv = rtok@;
        let mut parts: Vec<FormatElement> = Vec::new();
        parts.push(l);
        parts.push(ed);
        parts.push(rtok);
        proof {
            lemma_docs_view(parts@);
            assert(docs_view(parts@) =~= seq![lv, edv, rv]);
        }
        Ok(concat_elements(parts))
    }

    /// An if statement without an else branch; with one it is verbatim.
    fn fmt_if_stmt(&self, node: &SyntaxNode) -> (r: FormatResult<FormatElement>)
        requires
            node@.kind == SyntaxKind::IfStmt,
        ensures
            rule_ens(node@, self.options, r),
        decreases node_size(node@), 1nat,
    {
        let o = self.options;
        proof {
            lemma_first_castable_size::<Condition>(node@.children);
            lemma_first_castable_size::<Stmt>(node@.children);
        }
        if as_optional_token(node, SyntaxKind::ElseKw).is_some() {
            Ok(verbatim_element(node))
        } else {
            let t = match self.fmt_req_token(node, SyntaxKind::IfKw) {
                Ok(el) => el,
                Err(_) => {
                    return Err(FormatError::MissingToken);
                },
            };
            let c = match as_mandatory_node::<Condition>(node) {
                Ok(c) => c,
                Err(_) => {
                    return Err(FormatError::MissingToken);
                },
            };
            let cd = self.format_syntax(c.syntax());
            let s = match as_mandatory_node::<Stmt>(node) {
                Ok(s) => s,
                Err(_) => {
                    return Err(FormatError::MissingToken);
                },
            };
            let sd = self.format_syntax(s.syntax());
            let ghost tv = t@;
            let ghost cdv = cd@;
            let ghost sdv = sd@;
            let mut parts: Vec<FormatElement> = Vec::new();
            parts.push(t);
            parts.push(FormatElement::Space);
            parts.push(cd);
            parts.push(FormatElement::Space);
            parts.push(sd);
            proof {
                lemma_docs_view(parts@);
                assert(docs_view(parts@) =~= seq![tv, DocV::Space, cdv, DocV::Space, sdv]);
            }
            Ok(concat_elements(parts))
        }
    }

    /// An array literal as a delimited group.
    fn fmt_array_expr(&self, node: &SyntaxNode) -> (r: FormatResult<FormatElement>)
        requires
            node@.kind == SyntaxKind::ArrayExpr,
        ensures
            rule_ens(node@, self.options, r),
        decreases node_size(node@), 1nat,
    {
        let o = self.options;
        proof {
            lemma_sum_castable::<ExprOrSpread>(node@.children);
        }
        let l = match self.fmt_req_token(node, SyntaxKind::LBrack) {
            Ok(el) => el,
            Err(_) => {
                return Err(FormatError::MissingToken);
            },
        };
        let rtok = match self.fmt_req_token(node, SyntaxKind::RBrack) {
            Ok(el) => el,
            Err(_) => {
                return Err(FormatError::MissingToken);
            },
        };
        let items: Vec<ExprOrSpread> = node_list::<ExprOrSpread>(node);
        proof {
            assert(nodes_views(items@) =~= castable_children::<ExprOrSpread>(node@.children));
        }
        let list = to_syntax_list(items);
        let ds = self.format_syntax_list(&list);
        Ok(
            self.delimited(
                l,
                ds,
                rtok,
                !matches!(self.options.trailing_comma, TrailingComma::Omit),
            ),
        )
    }

    /// A call: the callee and its argument list.
    fn fmt_call_expr(&self, node: &SyntaxNode) -> (r: FormatResult<FormatElement>)
        requires
            node@.kind == SyntaxKind::CallExpr,
        ensures
            rule_ens(node@, self.options, r),
        decreases node_size(node@), 1nat,
    {
        let o = self.options;
        proof {
            lemma_first_castable_size::<Expr>(node@.children);
            lemma_first_castable_size::<ArgList>(node@.children);
        }
        let callee = match as_mandatory_node::<Expr>(node) {
            Ok(c) => c,
            Err(_) => {
                return Err(FormatError::MissingToken);
            },
        };
        let cd = self.format_syntax(callee.syntax());
        let args = match as_mandatory_node::<ArgList>(node) {
            Ok(a) => a,
            Err(_) => {
                return Err(FormatError::MissingToken);
            },
        };
        let ad = self.format_syntax(args.syntax());
        let ghost cdv = cd@;
        let ghost adv = ad@;
        let mut parts: Vec<FormatElement> = Vec::new();
        parts.push(cd);
        parts.push(ad);
        proof {
            lemma_docs_view(parts@);
            assert(docs_view(parts@) =~= seq![cdv, adv]);
        }
        Ok(concat_elements(parts))
    }

    /// An argument list as a delimited group.
    fn fmt_arg_list(&self, node: &SyntaxNode) -> (r: FormatResult<FormatElement>)
        requires
            node@.kind == SyntaxKind::ArgList,
        ensures
            rule_ens(node@, self.options, r),
        decreases node_size(node@), 1nat,
    {
        let o = self.options;
        proof {
            lemma_sum_castable::<Expr>(node@.children);
        }
        let l = match self.fmt_req_token(node, SyntaxKind::LParen) {
            Ok(el) => el,
            Err(_) => {
                return Err(FormatError::MissingToken);
            },
        };
        let rtok = match self.fmt_req_token(node, SyntaxKind::RParen) {
            Ok(el) => el,
            Err(_) => {
                return Err(FormatError::MissingToken);
            },
        };
        let items: Vec<Expr> = node_list::<Expr>(node);
        proof {
            assert(nodes_views(items@) =~= castable_children::<Expr>(node@.children));
        }
        let list = to_syntax_list(items);
        let ds = self.format_syntax_list(&list);
        Ok(
            self.delimited(
                l,
                ds,
                rtok,
                matches!(self.options.trailing_comma, TrailingComma::All),
            ),
        )
    }

    /// A parameter list as a delimited group.
    fn fmt_parameter_list(&self, node: &SyntaxNode) -> (r: FormatResult<FormatElement>)
        requires
            node@.kind == SyntaxKind::ParameterList,
        ensures
            rule_ens(node@, self.options, r),
        decreases node_size(node@), 1nat,
    {
        let o = self.options;
        proof {
            lemma_sum_castable::<Pattern>(node@.children);
        }
        let l = match self.fmt_req_token(node, SyntaxKind::LParen) {
            Ok(el) => el,
            Err(_) => {
                return Err(FormatError::MissingToken);
            },
        };
        let rtok = match self.fmt_req_token(node, SyntaxKind::RParen) {
            Ok(el) => el,
            Err(_) => {
                return Err(FormatError::MissingToken);
            },
        };
        let items: Vec<Pattern> = node_list::<Pattern>(node);
        proof {
            assert(nodes_views(items@) =~= castable_children::<Pattern>(node@.children));
        }
        let list = to_syntax_list(items);
        let ds = self.format_syntax_list(&list);
        Ok(
            self.delimited(
                l,
                ds,
                rtok,
                matches!(self.options.trailing_comma, TrailingComma::All),
            ),
        )
    }

    /// The rule of one node by its kind, as [`sp_rule`] defines it:
    /// `MissingToken` exactly when a mandatory child of this node is
    /// absent.
    #[verifier::rlimit(100)]
    pub fn format_rule(&self, node: &SyntaxNode) -> (r: FormatResult<FormatElement>)
        ensures
            rule_ens(node@, self.options, r),
        decreases node_size(node@), 2nat,
    {
        if node.kind == SyntaxKind::Script {
            Ok(self.fmt_script(node))
        } else if node.kind == SyntaxKind::Module {
            Ok(self.fmt_module(node))
        } else if node.kind == SyntaxKind::BlockStmt {
            self.fmt_block_stmt(node)
        } else if node.kind == SyntaxKind::EmptyStmt {
            match as_optional_token(node, SyntaxKind::Semicolon) {
                Some(t) => Ok(self.format_token(&t)),
                None => Ok(crate::format_element::empty_element()),
            }
        } else if node.kind == SyntaxKind::ExprStmt {
            self.fmt_expr_stmt(node)
        } else if node.kind == SyntaxKind::VarDecl {
            self.fmt_var_decl(node)
        } else if node.kind == SyntaxKind::Declarator {
            self.fmt_declarator(node)
        } else if node.kind == SyntaxKind::SinglePattern {
            proof {
                lemma_first_castable_size::<Name>(node@.children);
            }
            match as_mandatory_node::<Name>(node) {
                Ok(m) => Ok(self.format_syntax(m.syntax())),
                Err(_) => Err(FormatError::MissingToken),
            }
        } else if node.kind == SyntaxKind::Name || node.kind == SyntaxKind::NameRef || node.kind == SyntaxKind::Ident || node.kind == SyntaxKind::Literal {
            match as_first_token(node) {
                Some(t) => Ok(self.format_token(&t)),
                None => Err(FormatError::MissingToken),
            }
        } else if node.kind == SyntaxKind::Condition || node.kind == SyntaxKind::GroupingExpr {
            self.fmt_parenthesized(node)
        } else if node.kind == SyntaxKind::IfStmt {
            self.fmt_if_stmt(node)
        } else if node.kind == SyntaxKind::LabelledStmt {
            let t = LabelledStmt { syntax: node.clone() };
            t.to_format_element(self)
        } else if node.kind == SyntaxKind::SequenceExpr {
            let t = SequenceExpr { syntax: node.clone() };
            t.to_format_element(self)
        } else if node.kind == SyntaxKind::Setter {
            let t = Setter { syntax: node.clone() };
            t.to_format_element(self)
        } else if node.kind == SyntaxKind::ArrayExpr {
            self.fmt_array_expr(node)
        } else if node.kind == SyntaxKind::CallExpr {
            self.fmt_call_expr(node)
        } else if node.kind == SyntaxKind::ArgList {
            self.fmt_arg_list(node)
        } else if node.kind == SyntaxKind::ParameterList {
            self.fmt_parameter_list(node)
        } else {
            Ok(verbatim_element(node))
        }
    }

    /// Lowers one node, as [`sp_lower`] defines it: the document of its
    /// rule, or its placeholder where the rule found a mandatory child
    /// absent.  Lowering never fails.
    pub fn format_syntax(&self, node: &SyntaxNode) -> (r: FormatElement)
        ensures
            r@ == sp_lower(node@, self.options),
        decreases node_size(node@), 3nat,
    {
        match self.format_rule(node) {
            Ok(el) => el,
            Err(_) => placeholder_element(node),
        }
    }
}

/// Formats a whole tree under the given style: the lowered document laid
/// out as text.  Formatting is best-effort and total: a node whose rule
/// finds a mandatory child absent renders as a tagged verbatim
/// placeholder, and the rest of the file still formats.
pub fn format(root: &SyntaxNode, options: &FormatOptions) -> (r: String)
    ensures
        r@ == spec_format(root@, *options),
{
    let f = Formatter::new(*options);
    let doc = f.format_syntax(root);
    print(&doc, options)
}

} // verus!
