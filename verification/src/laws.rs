//! Stated laws of the formatter.
//!
//! The determinism of the whole pipeline, the preservation of a token's
//! text and comments through the lowering, the structural invariants of
//! every built document (no raw newline in a token leaf, every soft seam
//! inside a group or fill), and the fitting half of width discipline,
//! proved over the spec functions that the executable functions are bound
//! to by their contracts.

use vstd::prelude::*;

use crate::format_element::{
    clean_text, doc_invariants, docs_invariants, lemma_clean_concat, lemma_clean_singleton,
    lemma_inv_concat, lemma_inv_weaken, DocV, LineMode,
};
use crate::ast_unions::{Expr, ExprOrSpread, ModuleItem, Pattern, PropName, Stmt};
use crate::ast_stmts::{BlockStmt, Condition, Name};
use crate::ast_classes::ParameterList;
use crate::ast_exprs::ArgList;
use crate::ast_decls::Declarator;
use crate::format_element::join_view;
use crate::formatter::{
    elems_token_texts, join_texts, lemma_first_castable_size, lemma_node_size_pos,
    lemma_sum_castable, node_size, node_token_texts, parse_error_label, sp_comma_group,
    sp_delimited, sp_format_token, sp_lead_one, sp_leading, sp_lower, sp_lower_nodes,
    sp_placeholder, sp_req_token, sp_rule, sp_semi, sp_statement_list, sp_stmt_docs,
    sp_guard, sp_token_text,
    sp_trail_one, sp_trailing, sp_verbatim, spec_format, sum_sizes,
};
use crate::support::{castable_children, first_any_token, first_castable, first_token_of, AstNode};
use crate::options::FormatOptions;
use crate::printer::{
    fits_at, flat_text, flat_text_list, flat_width, flat_width_list, lay, lay_list,
    lemma_sat_add64_assoc, sat_add64, LayoutStateV,
};
use crate::quotes::lemma_normalize_quotes_clean;
use crate::syntax::{
    elems_clean, token_clean, tree_clean, trivia_list_clean, SyntaxElementV, SyntaxKind,
    SyntaxNodeV, SyntaxTokenV, TriviaKind, TriviaV,
};

verus! {

/// The verbatim token texts a document carries, in order, reading
/// `IfBreak` on its flat side.
pub open spec fn doc_token_texts(d: DocV) -> Seq<Seq<char>>
    decreases d,
{
    match d {
        DocV::Empty => Seq::empty(),
        DocV::Token(s) => seq![s],
        DocV::Space => Seq::empty(),
        DocV::Line(_) => Seq::empty(),
        DocV::Concat(items) => doc_list_token_texts(items),
        DocV::Indent(b) => doc_token_texts(*b),
        DocV::Dedent(b) => doc_token_texts(*b),
        DocV::Align(_, b) => doc_token_texts(*b),
        DocV::Group(_, b) => doc_token_texts(*b),
        DocV::IfBreak(f, _, _) => doc_token_texts(*f),
        DocV::LineSuffix(b) => doc_token_texts(*b),
        DocV::Fill(items) => doc_list_token_texts(items),
        DocV::Label(_, b) => doc_token_texts(*b),
    }
}

pub open spec fn doc_list_token_texts(s: Seq<DocV>) -> Seq<Seq<char>>
    decreases s,
{
    if s.len() == 0 {
        Seq::empty()
    } else {
        doc_token_texts(s[0]) + doc_list_token_texts(s.drop_first())
    }
}

/// The texts of the comments in a trivia list, in order; blank lines
/// carry no text.
pub open spec fn comment_texts(ts: Seq<TriviaV>) -> Seq<Seq<char>>
    decreases ts,
{
    if ts.len() == 0 {
        Seq::empty()
    } else {
        let head: Seq<Seq<char>> = match ts[0].kind {
            TriviaKind::LineComment => seq![ts[0].text],
            TriviaKind::BlockComment => seq![ts[0].text],
            TriviaKind::Blank => Seq::empty(),
        };
        head + comment_texts(ts.drop_first())
    }
}

proof fn lemma_doc_list_token_texts_concat(a: Seq<DocV>, b: Seq<DocV>)
    ensures
        doc_list_token_texts(a + b) == doc_list_token_texts(a) + doc_list_token_texts(b),
    decreases a,
{
    if a.len() == 0 {
        assert(a + b =~= b);
        assert(doc_list_token_texts(a) =~= Seq::<Seq<char>>::empty());
        assert(doc_list_token_texts(a) + doc_list_token_texts(b) =~= doc_list_token_texts(b));
    } else {
        lemma_doc_list_token_texts_concat(a.drop_first(), b);
        assert((a + b).drop_first() =~= a.drop_first() + b);
        assert((a + b)[0] == a[0]);
        assert(doc_list_token_texts(a + b) =~= doc_list_token_texts(a) + doc_list_token_texts(
            b,
        ));
    }
}

proof fn lemma_leading_token_texts(ts: Seq<TriviaV>)
    ensures
        doc_list_token_texts(sp_leading(ts)) == comment_texts(ts),
    decreases ts,
{
    if ts.len() == 0 {
    } else {
        lemma_leading_token_texts(ts.drop_first());
        lemma_doc_list_token_texts_concat(sp_lead_one(ts[0]), sp_leading(ts.drop_first()));
        reveal_with_fuel(doc_list_token_texts, 4);
        reveal_with_fuel(doc_token_texts, 4);
        match ts[0].kind {
            TriviaKind::LineComment => {
                assert(doc_list_token_texts(sp_lead_one(ts[0])) =~= seq![ts[0].text]);
            },
            TriviaKind::BlockComment => {
                assert(doc_list_token_texts(
                    seq![DocV::Token(ts[0].text), DocV::Line(LineMode::SoftSpace)],
                ) =~= seq![ts[0].text]);
                assert(doc_list_token_texts(sp_lead_one(ts[0])) =~= seq![ts[0].text]);
            },
            TriviaKind::Blank => {
                assert(doc_list_token_texts(sp_lead_one(ts[0])) =~= Seq::<Seq<char>>::empty());
            },
        }
        assert(doc_list_token_texts(sp_leading(ts)) =~= comment_texts(ts));
    }
}

proof fn lemma_trailing_token_texts(ts: Seq<TriviaV>)
    ensures
        doc_list_token_texts(sp_trailing(ts)) == comment_texts(ts),
    decreases ts,
{
    if ts.len() == 0 {
    } else {
        lemma_trailing_token_texts(ts.drop_first());
        lemma_doc_list_token_texts_concat(sp_trail_one(ts[0]), sp_trailing(ts.drop_first()));
        reveal_with_fuel(doc_list_token_texts, 4);
        reveal_with_fuel(doc_token_texts, 3);
        match ts[0].kind {
            TriviaKind::LineComment => {
                assert(doc_list_token_texts(seq![DocV::Space, DocV::Token(ts[0].text)]) =~= seq![
                    ts[0].text,
                ]);
                assert(doc_list_token_texts(sp_trail_one(ts[0])) =~= seq![ts[0].text]);
            },
            TriviaKind::BlockComment => {
                assert(doc_list_token_texts(sp_trail_one(ts[0])) =~= seq![ts[0].text]);
            },
            TriviaKind::Blank => {
                assert(doc_list_token_texts(sp_trail_one(ts[0])) =~= Seq::<Seq<char>>::empty());
            },
        }
        assert(doc_list_token_texts(sp_trailing(ts)) =~= comment_texts(ts));
    }
}

/// Token and trivia preservation at a token boundary: the document of one
/// source token carries every leading comment once, then the token's own
/// text (requoted for string literals), then every trailing comment once,
/// in source order and nothing else.
pub proof fn lemma_token_preserved(t: SyntaxTokenV, o: FormatOptions)
    ensures
        doc_token_texts(sp_format_token(t, o)) == comment_texts(t.leading) + seq![
            sp_token_text(t, o),
        ] + comment_texts(t.trailing),
{
    lemma_leading_token_texts(t.leading);
    lemma_trailing_token_texts(t.trailing);
    reveal_with_fuel(doc_list_token_texts, 3);
    let mid = seq![DocV::Token(sp_token_text(t, o))];
    lemma_doc_list_token_texts_concat(sp_leading(t.leading) + mid, sp_trailing(t.trailing));
    lemma_doc_list_token_texts_concat(sp_leading(t.leading), mid);
    assert(doc_list_token_texts(mid) =~= seq![sp_token_text(t, o)]);
    assert(doc_token_texts(sp_format_token(t, o)) =~= comment_texts(t.leading) + seq![
        sp_token_text(t, o),
    ] + comment_texts(t.trailing));
}

/// Determinism: formatting equal trees under equal options yields equal
/// text, as the whole pipeline is a function of the tree and the options.
pub proof fn lemma_format_deterministic(
    n1: SyntaxNodeV,
    n2: SyntaxNodeV,
    o1: FormatOptions,
    o2: FormatOptions,
)
    requires
        n1 == n2,
        o1 == o2,
    ensures
        spec_format(n1, o1) == spec_format(n2, o2),
{
}

/// Whether every layout decision inside `d` follows the nearest enclosing
/// group: there is no fill, and no `IfBreak` that reaches out to a group
/// by id.  The documents this crate's lowering builds all satisfy it.
pub open spec fn flat_stable(d: DocV) -> bool
    decreases d,
{
    match d {
        DocV::Empty => true,
        DocV::Token(_) => true,
        DocV::Space => true,
        DocV::Line(_) => true,
        DocV::Concat(items) => flat_stable_list(items),
        DocV::Indent(b) => flat_stable(*b),
        DocV::Dedent(b) => flat_stable(*b),
        DocV::Align(_, b) => flat_stable(*b),
        DocV::Group(_, b) => flat_stable(*b),
        DocV::IfBreak(f, _, idref) => idref is None && flat_stable(*f),
        DocV::LineSuffix(_) => true,
        DocV::Fill(_) => false,
        DocV::Label(_, b) => flat_stable(*b),
    }
}

pub open spec fn flat_stable_list(s: Seq<DocV>) -> bool
    decreases s,
{
    if s.len() == 0 {
        true
    } else {
        flat_stable(s[0]) && flat_stable_list(s.drop_first())
    }
}

/// In flat mode, a seam-free-measurable document emits exactly its flat
/// text and advances the column by exactly its flat width.
proof fn lemma_lay_flat(
    d: DocV,
    ind: u64,
    gs: Seq<(u64, bool)>,
    st: LayoutStateV,
    o: FormatOptions,
)
    requires
        flat_width(d) is Some,
        flat_stable(d),
    ensures
        lay(d, ind, true, gs, st, o).out == st.out + flat_text(d),
        lay(d, ind, true, gs, st, o).pos == sat_add64(st.pos, flat_width(d)->0),
    decreases d,
{
    match d {
        DocV::Empty => {
            assert(st.out + flat_text(d) =~= st.out);
        },
        DocV::Token(_) => {},
        DocV::Space => {},
        DocV::Line(m) => {
            if m == LineMode::Soft {
                assert(st.out + flat_text(d) =~= st.out);
            }
        },
        DocV::Concat(items) => {
            lemma_lay_list_flat(items, ind, gs, st, o);
        },
        DocV::Indent(b) => {
            lemma_lay_flat(*b, sat_add64(ind, o.indent_width as u64), gs, st, o);
        },
        DocV::Dedent(b) => {
            let ind2 = if ind >= o.indent_width as u64 {
                (ind - o.indent_width as u64) as u64
            } else {
                0u64
            };
            lemma_lay_flat(*b, ind2, gs, st, o);
        },
        DocV::Align(n, b) => {
            lemma_lay_flat(*b, sat_add64(ind, n as u64), gs, st, o);
        },
        DocV::Group(id, b) => {
            let gs2 = match id {
                Some(i) => gs.push((i, false)),
                None => gs,
            };
            lemma_lay_flat(*b, ind, gs2, st, o);
        },
        DocV::IfBreak(f, br, idref) => {
            lemma_lay_flat(*f, ind, gs, st, o);
        },
        DocV::LineSuffix(_) => {
            assert(st.out + flat_text(d) =~= st.out);
        },
        DocV::Fill(_) => {},
        DocV::Label(_, b) => {
            lemma_lay_flat(*b, ind, gs, st, o);
        },
    }
}

proof fn lemma_lay_list_flat(
    s: Seq<DocV>,
    ind: u64,
    gs: Seq<(u64, bool)>,
    st: LayoutStateV,
    o: FormatOptions,
)
    requires
        flat_width_list(s) is Some,
        flat_stable_list(s),
    ensures
        lay_list(s, ind, true, gs, st, o).out == st.out + flat_text_list(s),
        lay_list(s, ind, true, gs, st, o).pos == sat_add64(st.pos, flat_width_list(s)->0),
    decreases s,
{
    if s.len() == 0 {
        assert(st.out + flat_text_list(s) =~= st.out);
    } else {
        lemma_lay_flat(s[0], ind, gs, st, o);
        let st1 = lay(s[0], ind, true, gs, st, o);
        lemma_lay_list_flat(s.drop_first(), ind, gs, st1, o);
        assert(st.out + flat_text(s[0]) + flat_text_list(s.drop_first()) =~= st.out
            + flat_text_list(s));
        lemma_sat_add64_assoc(st.pos, flat_width(s[0])->0);
    }
}

/// The fitting half of width discipline: a group whose flat rendering
/// fits at the current column, and whose decisions all follow the group
/// itself, lays out as exactly that flat rendering, breaking no seam.
pub proof fn lemma_fitting_group_renders_flat(
    id: Option<u64>,
    body: DocV,
    ind: u64,
    gs: Seq<(u64, bool)>,
    st: LayoutStateV,
    o: FormatOptions,
)
    requires
        fits_at(flat_width(body), st.pos, o),
        flat_stable(body),
    ensures
        lay(DocV::Group(id, Box::new(body)), ind, false, gs, st, o).out == st.out + flat_text(
            body,
        ),
{
    let gs2 = match id {
        Some(i) => gs.push((i, false)),
        None => gs,
    };
    lemma_lay_flat(body, ind, gs2, st, o);
}

proof fn lemma_flat_stable_list_concat(a: Seq<DocV>, b: Seq<DocV>)
    requires
        flat_stable_list(a),
        flat_stable_list(b),
    ensures
        flat_stable_list(a + b),
    decreases a,
{
    if a.len() == 0 {
        assert(a + b =~= b);
    } else {
        lemma_flat_stable_list_concat(a.drop_first(), b);
        assert((a + b).drop_first() =~= a.drop_first() + b);
        assert((a + b)[0] == a[0]);
    }
}

proof fn lemma_lead_one_stable(t: TriviaV)
    ensures
        flat_stable_list(sp_lead_one(t)),
{
    reveal_with_fuel(flat_stable, 6);
    reveal_with_fuel(flat_stable_list, 6);
    match t.kind {
        TriviaKind::BlockComment => {
            let inner = seq![DocV::Token(t.text), DocV::Line(LineMode::SoftSpace)];
            assert(inner.drop_first() =~= seq![DocV::Line(LineMode::SoftSpace)]);
            assert(seq![DocV::Line(LineMode::SoftSpace)].drop_first() =~= Seq::<DocV>::empty());
            assert(flat_stable_list(inner));
            let g = DocV::Group(None, Box::new(DocV::Concat(inner)));
            assert(flat_stable(g));
            assert(sp_lead_one(t) =~= seq![g]);
            assert(seq![g].drop_first() =~= Seq::<DocV>::empty());
            assert(flat_stable_list(sp_lead_one(t)));
        },
        TriviaKind::LineComment => {
            let l = sp_lead_one(t);
            assert(l.drop_first() =~= seq![DocV::Line(LineMode::Hard)]);
            assert(seq![DocV::Line(LineMode::Hard)].drop_first() =~= Seq::<DocV>::empty());
            assert(flat_stable_list(l));
        },
        TriviaKind::Blank => {
            let l = sp_lead_one(t);
            assert(l.drop_first() =~= Seq::<DocV>::empty());
            assert(flat_stable_list(l));
        },
    }
}

proof fn lemma_leading_stable(ts: Seq<TriviaV>)
    ensures
        flat_stable_list(sp_leading(ts)),
    decreases ts,
{
    if ts.len() > 0 {
        lemma_leading_stable(ts.drop_first());
        lemma_lead_one_stable(ts[0]);
        lemma_flat_stable_list_concat(sp_lead_one(ts[0]), sp_leading(ts.drop_first()));
    }
}

proof fn lemma_trailing_stable(ts: Seq<TriviaV>)
    ensures
        flat_stable_list(sp_trailing(ts)),
    decreases ts,
{
    if ts.len() > 0 {
        lemma_trailing_stable(ts.drop_first());
        reveal_with_fuel(flat_stable, 5);
        reveal_with_fuel(flat_stable_list, 5);
        lemma_flat_stable_list_concat(sp_trail_one(ts[0]), sp_trailing(ts.drop_first()));
    }
}

/// The document of one source token follows its enclosing group.
pub proof fn lemma_format_token_stable(t: SyntaxTokenV, o: FormatOptions)
    ensures
        flat_stable(sp_format_token(t, o)),
{
    lemma_leading_stable(t.leading);
    lemma_trailing_stable(t.trailing);
    reveal_with_fuel(flat_stable_list, 3);
    lemma_flat_stable_list_concat(
        sp_leading(t.leading),
        seq![DocV::Token(sp_token_text(t, o))],
    );
    lemma_flat_stable_list_concat(
        sp_leading(t.leading) + seq![DocV::Token(sp_token_text(t, o))],
        sp_trailing(t.trailing),
    );
}

proof fn lemma_join_view_stable(sep: DocV, items: Seq<DocV>)
    requires
        flat_stable(sep),
        flat_stable_list(items),
    ensures
        flat_stable_list(join_view(sep, items)),
    decreases items,
{
    reveal_with_fuel(flat_stable_list, 4);
    if items.len() <= 1 {
    } else {
        lemma_join_view_stable(sep, items.drop_first());
        lemma_flat_stable_list_concat(
            seq![items[0], sep],
            join_view(sep, items.drop_first()),
        );
    }
}

proof fn lemma_req_token_stable(n: SyntaxNodeV, kind: SyntaxKind, o: FormatOptions)
    ensures
        sp_req_token(n, kind, o) matches Some(d) ==> flat_stable(d),
{
    if first_token_of(n.children, kind) is Some {
        lemma_format_token_stable(first_token_of(n.children, kind)->0, o);
    }
}

proof fn lemma_semi_stable(o: FormatOptions)
    ensures
        flat_stable_list(sp_semi(o)),
{
    reveal_with_fuel(flat_stable_list, 3);
}

proof fn lemma_delimited_stable(l: DocV, items: Seq<DocV>, r: DocV, trail: bool)
    requires
        flat_stable(l),
        flat_stable_list(items),
        flat_stable(r),
    ensures
        flat_stable(sp_delimited(l, items, r, trail)),
{
    reveal_with_fuel(flat_stable, 8);
    reveal_with_fuel(flat_stable_list, 8);
    if items.len() > 0 {
        let sep = DocV::Concat(seq![DocV::Token(seq![',']), DocV::Line(LineMode::SoftSpace)]);
        assert(flat_stable(sep));
        lemma_join_view_stable(sep, items);
        let trail_doc = if trail {
            DocV::IfBreak(Box::new(DocV::Empty), Box::new(DocV::Token(seq![','])), None)
        } else {
            DocV::Empty
        };
        assert(flat_stable(trail_doc));
        let inner = DocV::Concat(
            seq![
                DocV::Line(LineMode::Soft),
                DocV::Concat(join_view(sep, items)),
                trail_doc,
            ],
        );
        assert(flat_stable(inner));
        assert(flat_stable(sp_delimited(l, items, r, trail)));
    }
}

proof fn lemma_comma_group_stable(items: Seq<DocV>)
    requires
        flat_stable_list(items),
    ensures
        flat_stable(sp_comma_group(items)),
{
    reveal_with_fuel(flat_stable, 5);
    reveal_with_fuel(flat_stable_list, 5);
    let sep = DocV::Concat(seq![DocV::Token(seq![',']), DocV::Line(LineMode::SoftSpace)]);
    assert(flat_stable(sep));
    lemma_join_view_stable(sep, items);
}

proof fn lemma_stable_script(n: SyntaxNodeV, o: FormatOptions)
    requires
        n.kind == SyntaxKind::Script,
    ensures
        sp_rule(n, o) matches Some(d) ==> flat_stable(d),
    decreases node_size(n), 2nat,
{
    lemma_statement_list_stable::<Stmt>(n, o);
}

proof fn lemma_stable_module(n: SyntaxNodeV, o: FormatOptions)
    requires
        n.kind == SyntaxKind::Module,
    ensures
        sp_rule(n, o) matches Some(d) ==> flat_stable(d),
    decreases node_size(n), 2nat,
{
    lemma_statement_list_stable::<ModuleItem>(n, o);
}

proof fn lemma_stable_block(n: SyntaxNodeV, o: FormatOptions)
    requires
        n.kind == SyntaxKind::BlockStmt,
    ensures
        sp_rule(n, o) matches Some(d) ==> flat_stable(d),
    decreases node_size(n), 2nat,
{
    reveal_with_fuel(flat_stable, 8);
    reveal_with_fuel(flat_stable_list, 8);
    lemma_sum_castable::<Stmt>(n.children);
    lemma_req_token_stable(n, SyntaxKind::LCurly, o);
    lemma_req_token_stable(n, SyntaxKind::RCurly, o);
    lemma_stmt_docs_stable(castable_children::<Stmt>(n.children), o, true);
    let stmts = sp_stmt_docs(castable_children::<Stmt>(n.children), o, true);
    if stmts.len() > 0 {
        lemma_join_view_stable(DocV::Line(LineMode::Hard), stmts);
    }
}

proof fn lemma_stable_empty_stmt(n: SyntaxNodeV, o: FormatOptions)
    requires
        n.kind == SyntaxKind::EmptyStmt,
    ensures
        sp_rule(n, o) matches Some(d) ==> flat_stable(d),
    decreases node_size(n), 2nat,
{
    if first_token_of(n.children, SyntaxKind::Semicolon) is Some {
        lemma_format_token_stable(first_token_of(n.children, SyntaxKind::Semicolon)->0, o);
    }
}

proof fn lemma_stable_expr_stmt(n: SyntaxNodeV, o: FormatOptions)
    requires
        n.kind == SyntaxKind::ExprStmt,
    ensures
        sp_rule(n, o) matches Some(d) ==> flat_stable(d),
    decreases node_size(n), 2nat,
{
    reveal_with_fuel(flat_stable, 4);
    reveal_with_fuel(flat_stable_list, 4);
    lemma_first_castable_size::<Expr>(n.children);
    lemma_semi_stable(o);
    if first_castable::<Expr>(n.children) is Some {
        let e = first_castable::<Expr>(n.children)->0;
        lemma_lower_flat_stable(e, o);
        lemma_flat_stable_list_concat(seq![sp_lower(e, o)], sp_semi(o));
    }
}

proof fn lemma_stable_var_decl(n: SyntaxNodeV, o: FormatOptions)
    requires
        n.kind == SyntaxKind::VarDecl,
    ensures
        sp_rule(n, o) matches Some(d) ==> flat_stable(d),
    decreases node_size(n), 2nat,
{
    reveal_with_fuel(flat_stable, 8);
    reveal_with_fuel(flat_stable_list, 8);
    lemma_sum_castable::<Declarator>(n.children);
    lemma_semi_stable(o);
    lemma_lower_nodes_stable(castable_children::<Declarator>(n.children), o);
    if first_any_token(n.children) is Some {
        let kw = first_any_token(n.children)->0;
        let decls = sp_lower_nodes(castable_children::<Declarator>(n.children), o);
        lemma_format_token_stable(kw, o);
        let sep = DocV::Concat(seq![DocV::Token(seq![',']), DocV::Space]);
        assert(flat_stable(sep));
        lemma_join_view_stable(sep, decls);
        lemma_flat_stable_list_concat(
            seq![
                sp_format_token(kw, o),
                DocV::Space,
                DocV::Concat(join_view(sep, decls)),
            ],
            sp_semi(o),
        );
    }
}

proof fn lemma_stable_declarator(n: SyntaxNodeV, o: FormatOptions)
    requires
        n.kind == SyntaxKind::Declarator,
    ensures
        sp_rule(n, o) matches Some(d) ==> flat_stable(d),
    decreases node_size(n), 2nat,
{
    reveal_with_fuel(flat_stable, 8);
    reveal_with_fuel(flat_stable_list, 8);
    lemma_first_castable_size::<Pattern>(n.children);
    lemma_first_castable_size::<Expr>(n.children);
    if first_castable::<Pattern>(n.children) is Some {
        let p = first_castable::<Pattern>(n.children)->0;
        lemma_lower_flat_stable(p, o);
        if first_token_of(n.children, SyntaxKind::Assign) is Some {
            lemma_format_token_stable(first_token_of(n.children, SyntaxKind::Assign)->0, o);
            if first_castable::<Expr>(n.children) is Some {
                lemma_lower_flat_stable(first_castable::<Expr>(n.children)->0, o);
            }
        }
    }
}

proof fn lemma_stable_single_pattern(n: SyntaxNodeV, o: FormatOptions)
    requires
        n.kind == SyntaxKind::SinglePattern,
    ensures
        sp_rule(n, o) matches Some(d) ==> flat_stable(d),
    decreases node_size(n), 2nat,
{
    lemma_first_castable_size::<Name>(n.children);
    if first_castable::<Name>(n.children) is Some {
        lemma_lower_flat_stable(first_castable::<Name>(n.children)->0, o);
    }
}

proof fn lemma_stable_token_nodes(n: SyntaxNodeV, o: FormatOptions)
    requires
        n.kind == SyntaxKind::Name || n.kind == SyntaxKind::NameRef || n.kind == SyntaxKind::Ident
            || n.kind == SyntaxKind::Literal,
    ensures
        sp_rule(n, o) matches Some(d) ==> flat_stable(d),
    decreases node_size(n), 2nat,
{
    if first_any_token(n.children) is Some {
        lemma_format_token_stable(first_any_token(n.children)->0, o);
    }
}

proof fn lemma_stable_parenthesized(n: SyntaxNodeV, o: FormatOptions)
    requires
        n.kind == SyntaxKind::Condition || n.kind == SyntaxKind::GroupingExpr,
    ensures
        sp_rule(n, o) matches Some(d) ==> flat_stable(d),
    decreases node_size(n), 2nat,
{
    reveal_with_fuel(flat_stable, 5);
    reveal_with_fuel(flat_stable_list, 5);
    lemma_first_castable_size::<Expr>(n.children);
    lemma_req_token_stable(n, SyntaxKind::LParen, o);
    lemma_req_token_stable(n, SyntaxKind::RParen, o);
    if first_castable::<Expr>(n.children) is Some {
        lemma_lower_flat_stable(first_castable::<Expr>(n.children)->0, o);
    }
}

proof fn lemma_stable_if_stmt(n: SyntaxNodeV, o: FormatOptions)
    requires
        n.kind == SyntaxKind::IfStmt,
    ensures
        sp_rule(n, o) matches Some(d) ==> flat_stable(d),
    decreases node_size(n), 2nat,
{
    reveal_with_fuel(flat_stable, 7);
    reveal_with_fuel(flat_stable_list, 7);
    lemma_first_castable_size::<Condition>(n.children);
    lemma_first_castable_size::<Stmt>(n.children);
    lemma_req_token_stable(n, SyntaxKind::IfKw, o);
    if first_castable::<Condition>(n.children) is Some {
        lemma_lower_flat_stable(first_castable::<Condition>(n.children)->0, o);
    }
    if first_castable::<Stmt>(n.children) is Some {
        lemma_lower_flat_stable(first_castable::<Stmt>(n.children)->0, o);
    }
}

proof fn lemma_stable_labelled(n: SyntaxNodeV, o: FormatOptions)
    requires
        n.kind == SyntaxKind::LabelledStmt,
    ensures
        sp_rule(n, o) matches Some(d) ==> flat_stable(d),
    decreases node_size(n), 2nat,
{
    reveal_with_fuel(flat_stable, 6);
    reveal_with_fuel(flat_stable_list, 6);
    lemma_first_castable_size::<Name>(n.children);
    lemma_first_castable_size::<Stmt>(n.children);
    lemma_req_token_stable(n, SyntaxKind::Colon, o);
    if first_castable::<Name>(n.children) is Some {
        lemma_lower_flat_stable(first_castable::<Name>(n.children)->0, o);
    }
    if first_castable::<Stmt>(n.children) is Some {
        lemma_lower_flat_stable(first_castable::<Stmt>(n.children)->0, o);
    }
}

proof fn lemma_stable_sequence(n: SyntaxNodeV, o: FormatOptions)
    requires
        n.kind == SyntaxKind::SequenceExpr,
    ensures
        sp_rule(n, o) matches Some(d) ==> flat_stable(d),
    decreases node_size(n), 2nat,
{
    lemma_sum_castable::<Expr>(n.children);
    lemma_lower_nodes_stable(castable_children::<Expr>(n.children), o);
    lemma_comma_group_stable(sp_lower_nodes(castable_children::<Expr>(n.children), o));
}

proof fn lemma_stable_setter(n: SyntaxNodeV, o: FormatOptions)
    requires
        n.kind == SyntaxKind::Setter,
    ensures
        sp_rule(n, o) matches Some(d) ==> flat_stable(d),
    decreases node_size(n), 2nat,
{
    reveal_with_fuel(flat_stable, 8);
    reveal_with_fuel(flat_stable_list, 8);
    lemma_first_castable_size::<PropName>(n.children);
    lemma_first_castable_size::<ParameterList>(n.children);
    lemma_first_castable_size::<BlockStmt>(n.children);
    if first_token_of(n.children, SyntaxKind::SetKw) is Some {
        lemma_format_token_stable(first_token_of(n.children, SyntaxKind::SetKw)->0, o);
    }
    if first_castable::<PropName>(n.children) is Some {
        lemma_lower_flat_stable(first_castable::<PropName>(n.children)->0, o);
    }
    if first_castable::<ParameterList>(n.children) is Some {
        lemma_lower_flat_stable(first_castable::<ParameterList>(n.children)->0, o);
    }
    if first_castable::<BlockStmt>(n.children) is Some {
        lemma_lower_flat_stable(first_castable::<BlockStmt>(n.children)->0, o);
    }
}

proof fn lemma_stable_array(n: SyntaxNodeV, o: FormatOptions)
    requires
        n.kind == SyntaxKind::ArrayExpr,
    ensures
        sp_rule(n, o) matches Some(d) ==> flat_stable(d),
    decreases node_size(n), 2nat,
{
    lemma_sum_castable::<ExprOrSpread>(n.children);
    lemma_req_token_stable(n, SyntaxKind::LBrack, o);
    lemma_req_token_stable(n, SyntaxKind::RBrack, o);
    lemma_lower_nodes_stable(castable_children::<ExprOrSpread>(n.children), o);
    if sp_rule(n, o) is Some {
        lemma_delimited_stable(
            sp_req_token(n, SyntaxKind::LBrack, o)->0,
            sp_lower_nodes(castable_children::<ExprOrSpread>(n.children), o),
            sp_req_token(n, SyntaxKind::RBrack, o)->0,
            o.trailing_comma != crate::options::TrailingComma::Omit,
        );
    }
}

proof fn lemma_stable_call(n: SyntaxNodeV, o: FormatOptions)
    requires
        n.kind == SyntaxKind::CallExpr,
    ensures
        sp_rule(n, o) matches Some(d) ==> flat_stable(d),
    decreases node_size(n), 2nat,
{
    reveal_with_fuel(flat_stable, 4);
    reveal_with_fuel(flat_stable_list, 4);
    lemma_first_castable_size::<Expr>(n.children);
    lemma_first_castable_size::<ArgList>(n.children);
    if first_castable::<Expr>(n.children) is Some {
        lemma_lower_flat_stable(first_castable::<Expr>(n.children)->0, o);
    }
    if first_castable::<ArgList>(n.children) is Some {
        lemma_lower_flat_stable(first_castable::<ArgList>(n.children)->0, o);
    }
}

proof fn lemma_stable_arg_list(n: SyntaxNodeV, o: FormatOptions)
    requires
        n.kind == SyntaxKind::ArgList,
    ensures
        sp_rule(n, o) matches Some(d) ==> flat_stable(d),
    decreases node_size(n), 2nat,
{
    lemma_sum_castable::<Expr>(n.children);
    lemma_req_token_stable(n, SyntaxKind::LParen, o);
    lemma_req_token_stable(n, SyntaxKind::RParen, o);
    lemma_lower_nodes_stable(castable_children::<Expr>(n.children), o);
    if sp_rule(n, o) is Some {
        lemma_delimited_stable(
            sp_req_token(n, SyntaxKind::LParen, o)->0,
            sp_lower_nodes(castable_children::<Expr>(n.children), o),
            sp_req_token(n, SyntaxKind::RParen, o)->0,
            o.trailing_comma == crate::options::TrailingComma::All,
        );
    }
}

proof fn lemma_stable_parameter_list(n: SyntaxNodeV, o: FormatOptions)
    requires
        n.kind == SyntaxKind::ParameterList,
    ensures
        sp_rule(n, o) matches Some(d) ==> flat_stable(d),
    decreases node_size(n), 2nat,
{
    lemma_sum_castable::<Pattern>(n.children);
    lemma_req_token_stable(n, SyntaxKind::LParen, o);
    lemma_req_token_stable(n, SyntaxKind::RParen, o);
    lemma_lower_nodes_stable(castable_children::<Pattern>(n.children), o);
    if sp_rule(n, o) is Some {
        lemma_delimited_stable(
            sp_req_token(n, SyntaxKind::LParen, o)->0,
            sp_lower_nodes(castable_children::<Pattern>(n.children), o),
            sp_req_token(n, SyntaxKind::RParen, o)->0,
            o.trailing_comma == crate::options::TrailingComma::All,
        );
    }
}

/// Every document the lowering builds follows its enclosing groups: it
/// holds no fill and no by-id reference, so a fitting group in it always
/// renders flat.
pub proof fn lemma_lower_flat_stable(n: SyntaxNodeV, o: FormatOptions)
    ensures
        flat_stable(sp_lower(n, o)),
    decreases node_size(n), 3nat,
{
    reveal_with_fuel(flat_stable, 3);
    let k = n.kind;
    if k == SyntaxKind::Script {
        lemma_stable_script(n, o);
    } else if k == SyntaxKind::Module {
        lemma_stable_module(n, o);
    } else if k == SyntaxKind::BlockStmt {
        lemma_stable_block(n, o);
    } else if k == SyntaxKind::EmptyStmt {
        lemma_stable_empty_stmt(n, o);
    } else if k == SyntaxKind::ExprStmt {
        lemma_stable_expr_stmt(n, o);
    } else if k == SyntaxKind::VarDecl {
        lemma_stable_var_decl(n, o);
    } else if k == SyntaxKind::Declarator {
        lemma_stable_declarator(n, o);
    } else if k == SyntaxKind::SinglePattern {
        lemma_stable_single_pattern(n, o);
    } else if k == SyntaxKind::Name || k == SyntaxKind::NameRef || k == SyntaxKind::Ident || k
        == SyntaxKind::Literal {
        lemma_stable_token_nodes(n, o);
    } else if k == SyntaxKind::Condition || k == SyntaxKind::GroupingExpr {
        lemma_stable_parenthesized(n, o);
    } else if k == SyntaxKind::IfStmt {
        lemma_stable_if_stmt(n, o);
    } else if k == SyntaxKind::LabelledStmt {
        lemma_stable_labelled(n, o);
    } else if k == SyntaxKind::SequenceExpr {
        lemma_stable_sequence(n, o);
    } else if k == SyntaxKind::Setter {
        lemma_stable_setter(n, o);
    } else if k == SyntaxKind::ArrayExpr {
        lemma_stable_array(n, o);
    } else if k == SyntaxKind::CallExpr {
        lemma_stable_call(n, o);
    } else if k == SyntaxKind::ArgList {
        lemma_stable_arg_list(n, o);
    } else if k == SyntaxKind::ParameterList {
        lemma_stable_parameter_list(n, o);
    } else {
        assert(sp_rule(n, o) == Some(sp_verbatim(n)));
    }
    if sp_rule(n, o) is None {
        assert(flat_stable(sp_placeholder(n)));
    }
}

proof fn lemma_statement_list_stable<T: AstNode>(n: SyntaxNodeV, o: FormatOptions)
    ensures
        flat_stable(sp_statement_list::<T>(n, o)),
    decreases node_size(n), 1nat,
{
    reveal_with_fuel(flat_stable, 3);
    lemma_sum_castable::<T>(n.children);
    lemma_stmt_docs_stable(castable_children::<T>(n.children), o, true);
    lemma_join_view_stable(
        DocV::Line(LineMode::Hard),
        sp_stmt_docs(castable_children::<T>(n.children), o, true),
    );
}

proof fn lemma_lower_nodes_stable(ns: Seq<SyntaxNodeV>, o: FormatOptions)
    ensures
        flat_stable_list(sp_lower_nodes(ns, o)),
    decreases sum_sizes(ns) + 1, 0nat,
{
    reveal_with_fuel(flat_stable_list, 3);
    if ns.len() > 0 {
        lemma_node_size_pos(ns[0]);
        assert(sum_sizes(ns) == node_size(ns[0]) + sum_sizes(ns.drop_first()));
        lemma_lower_flat_stable(ns[0], o);
        lemma_lower_nodes_stable(ns.drop_first(), o);
        lemma_flat_stable_list_concat(
            seq![sp_lower(ns[0], o)],
            sp_lower_nodes(ns.drop_first(), o),
        );
    }
}

proof fn lemma_stmt_docs_stable(ns: Seq<SyntaxNodeV>, o: FormatOptions, first: bool)
    ensures
        flat_stable_list(sp_stmt_docs(ns, o, first)),
    decreases sum_sizes(ns) + 1, 0nat,
{
    reveal_with_fuel(flat_stable, 4);
    reveal_with_fuel(flat_stable_list, 4);
    if ns.len() > 0 {
        lemma_node_size_pos(ns[0]);
        assert(sum_sizes(ns) == node_size(ns[0]) + sum_sizes(ns.drop_first()));
        lemma_lower_flat_stable(ns[0], o);
        lemma_stmt_docs_stable(ns.drop_first(), o, false);
        assert(flat_stable_list(sp_guard(ns[0], o, first)));
        lemma_flat_stable_list_concat(sp_guard(ns[0], o, first), seq![sp_lower(ns[0], o)]);
        let head = DocV::Concat(sp_guard(ns[0], o, first) + seq![sp_lower(ns[0], o)]);
        assert(flat_stable(head));
        lemma_flat_stable_list_concat(seq![head], sp_stmt_docs(ns.drop_first(), o, false));
    }
}

/// Whether every text of the list is clean.
pub open spec fn texts_clean(ts: Seq<Seq<char>>) -> bool {
    forall|i: int| 0 <= i < ts.len() ==> clean_text(#[trigger] ts[i])
}

proof fn lemma_clean_empty()
    ensures
        clean_text(Seq::<char>::empty()),
{
    if Seq::<char>::empty().contains('\n') {
        let i = choose|i: int| 0 <= i < 0 && Seq::<char>::empty()[i] == '\n';
    }
    if Seq::<char>::empty().contains('\r') {
        let i = choose|i: int| 0 <= i < 0 && Seq::<char>::empty()[i] == '\r';
    }
}

proof fn lemma_texts_clean_concat(a: Seq<Seq<char>>, b: Seq<Seq<char>>)
    requires
        texts_clean(a),
        texts_clean(b),
    ensures
        texts_clean(a + b),
{
    assert forall|i: int| 0 <= i < (a + b).len() implies clean_text(#[trigger] (a + b)[i]) by {
        if i < a.len() {
            assert((a + b)[i] == a[i]);
        } else {
            assert((a + b)[i] == b[i - a.len()]);
        }
    }
}

proof fn lemma_join_texts_clean(ts: Seq<Seq<char>>)
    requires
        texts_clean(ts),
    ensures
        clean_text(join_texts(ts)),
    decreases ts,
{
    if ts.len() == 0 {
        lemma_clean_empty();
    } else if ts.len() == 1 {
        assert(clean_text(ts[0]));
    } else {
        assert(texts_clean(ts.drop_first())) by {
            assert forall|i: int| 0 <= i < ts.drop_first().len() implies clean_text(
                #[trigger] ts.drop_first()[i],
            ) by {
                assert(ts.drop_first()[i] == ts[i + 1]);
            }
        }
        lemma_join_texts_clean(ts.drop_first());
        lemma_clean_singleton(' ');
        lemma_clean_concat(ts[0], seq![' ']);
        lemma_clean_concat(ts[0] + seq![' '], join_texts(ts.drop_first()));
    }
}

proof fn lemma_elems_texts_clean(s: Seq<SyntaxElementV>)
    requires
        elems_clean(s),
    ensures
        texts_clean(elems_token_texts(s)),
    decreases crate::formatter::elems_size(s),
{
    if s.len() > 0 {
        assert(crate::formatter::elems_size(s) == crate::formatter::elem_size(s[0])
            + crate::formatter::elems_size(s.drop_first()));
        assert(crate::syntax::elem_clean(s[0]) && elems_clean(s.drop_first()));
        match s[0] {
            SyntaxElementV::Node(m) => {
                lemma_node_size_pos(m);
                assert(tree_clean(m));
                assert(crate::formatter::elem_size(s[0]) == node_size(m));
                assert(node_size(m) == 1 + crate::formatter::elems_size(m.children));
                lemma_elems_texts_clean(m.children);
            },
            SyntaxElementV::Token(t) => {
                assert(token_clean(t));
                assert(texts_clean(seq![t.text])) by {
                    assert(seq![t.text][0] == t.text);
                }
            },
        }
        lemma_elems_texts_clean(s.drop_first());
        lemma_texts_clean_concat(
            crate::formatter::elem_token_texts(s[0]),
            elems_token_texts(s.drop_first()),
        );
    } else {
        assert forall|i: int| 0 <= i < elems_token_texts(s).len() implies clean_text(
            #[trigger] elems_token_texts(s)[i],
        ) by {}
    }
}

/// The verbatim rendering of a clean tree is a clean token.
proof fn lemma_verbatim_clean(n: SyntaxNodeV)
    requires
        tree_clean(n),
    ensures
        clean_text(join_texts(node_token_texts(n))),
{
    lemma_elems_texts_clean(n.children);
    lemma_join_texts_clean(node_token_texts(n));
}

proof fn lemma_label_text_clean()
    ensures
        clean_text(parse_error_label()),
{
    let l = parse_error_label();
    assert forall|i: int| 0 <= i < l.len() implies l[i] != '\n' && l[i] != '\r' by {}
    if l.contains('\n') {
        let i = choose|i: int| 0 <= i < l.len() && l[i] == '\n';
    }
    if l.contains('\r') {
        let i = choose|i: int| 0 <= i < l.len() && l[i] == '\r';
    }
}

proof fn lemma_inv_lead_one(t: TriviaV)
    requires
        clean_text(t.text),
    ensures
        docs_invariants(sp_lead_one(t), false),
{
    reveal_with_fuel(doc_invariants, 6);
    reveal_with_fuel(docs_invariants, 6);
    match t.kind {
        TriviaKind::BlockComment => {
            let inner = seq![DocV::Token(t.text), DocV::Line(LineMode::SoftSpace)];
            assert(inner.drop_first() =~= seq![DocV::Line(LineMode::SoftSpace)]);
            assert(seq![DocV::Line(LineMode::SoftSpace)].drop_first() =~= Seq::<DocV>::empty());
            assert(docs_invariants(inner, true));
            let g = DocV::Group(None, Box::new(DocV::Concat(inner)));
            assert(doc_invariants(g, false));
            assert(sp_lead_one(t) =~= seq![g]);
            assert(seq![g].drop_first() =~= Seq::<DocV>::empty());
        },
        TriviaKind::LineComment => {
            let l = sp_lead_one(t);
            assert(l.drop_first() =~= seq![DocV::Line(LineMode::Hard)]);
            assert(seq![DocV::Line(LineMode::Hard)].drop_first() =~= Seq::<DocV>::empty());
        },
        TriviaKind::Blank => {
            let l = sp_lead_one(t);
            assert(l.drop_first() =~= Seq::<DocV>::empty());
        },
    }
}

proof fn lemma_inv_trail_one(t: TriviaV)
    requires
        clean_text(t.text),
    ensures
        docs_invariants(sp_trail_one(t), false),
{
    reveal_with_fuel(doc_invariants, 6);
    reveal_with_fuel(docs_invariants, 6);
    match t.kind {
        TriviaKind::LineComment => {
            let inner = seq![DocV::Space, DocV::Token(t.text)];
            assert(inner.drop_first() =~= seq![DocV::Token(t.text)]);
            assert(seq![DocV::Token(t.text)].drop_first() =~= Seq::<DocV>::empty());
            assert(docs_invariants(inner, false));
            let ls = DocV::LineSuffix(Box::new(DocV::Concat(inner)));
            assert(sp_trail_one(t) =~= seq![ls]);
            assert(seq![ls].drop_first() =~= Seq::<DocV>::empty());
        },
        TriviaKind::BlockComment => {
            let l = sp_trail_one(t);
            assert(l.drop_first() =~= seq![DocV::Token(t.text)]);
            assert(seq![DocV::Token(t.text)].drop_first() =~= Seq::<DocV>::empty());
        },
        TriviaKind::Blank => {
            assert(sp_trail_one(t) =~= Seq::<DocV>::empty());
        },
    }
}

proof fn lemma_inv_leading(ts: Seq<TriviaV>)
    requires
        trivia_list_clean(ts),
    ensures
        docs_invariants(sp_leading(ts), false),
    decreases ts,
{
    if ts.len() > 0 {
        assert(trivia_list_clean(ts.drop_first())) by {
            assert forall|i: int| 0 <= i < ts.drop_first().len() implies clean_text(
                #[trigger] ts.drop_first()[i].text,
            ) by {
                assert(ts.drop_first()[i] == ts[i + 1]);
            }
        }
        lemma_inv_leading(ts.drop_first());
        assert(clean_text(ts[0].text));
        lemma_inv_lead_one(ts[0]);
        lemma_inv_concat(sp_lead_one(ts[0]), sp_leading(ts.drop_first()), false);
    }
}

proof fn lemma_inv_trailing(ts: Seq<TriviaV>)
    requires
        trivia_list_clean(ts),
    ensures
        docs_invariants(sp_trailing(ts), false),
    decreases ts,
{
    if ts.len() > 0 {
        assert(trivia_list_clean(ts.drop_first())) by {
            assert forall|i: int| 0 <= i < ts.drop_first().len() implies clean_text(
                #[trigger] ts.drop_first()[i].text,
            ) by {
                assert(ts.drop_first()[i] == ts[i + 1]);
            }
        }
        lemma_inv_trailing(ts.drop_first());
        assert(clean_text(ts[0].text));
        lemma_inv_trail_one(ts[0]);
        lemma_inv_concat(sp_trail_one(ts[0]), sp_trailing(ts.drop_first()), false);
    }
}

/// The document of one clean source token meets the invariants.
pub proof fn lemma_inv_format_token(t: SyntaxTokenV, o: FormatOptions)
    requires
        token_clean(t),
    ensures
        doc_invariants(sp_format_token(t, o), false),
{
    lemma_inv_leading(t.leading);
    lemma_inv_trailing(t.trailing);
    if t.kind == SyntaxKind::StringLit {
        lemma_normalize_quotes_clean(t.text, o.quote_style);
    }
    assert(clean_text(sp_token_text(t, o)));
    let mid = seq![DocV::Token(sp_token_text(t, o))];
    assert(docs_invariants(mid, false)) by {
        reveal_with_fuel(docs_invariants, 3);
        assert(mid.drop_first() =~= Seq::<DocV>::empty());
    }
    lemma_inv_concat(sp_leading(t.leading), mid, false);
    lemma_inv_concat(sp_leading(t.leading) + mid, sp_trailing(t.trailing), false);
}

proof fn lemma_inv_semi(o: FormatOptions)
    ensures
        docs_invariants(sp_semi(o), false),
{
    reveal_with_fuel(docs_invariants, 3);
    reveal_with_fuel(doc_invariants, 3);
    lemma_clean_singleton(';');
    if o.semicolons == crate::options::Semicolons::Always {
        assert(sp_semi(o).drop_first() =~= Seq::<DocV>::empty());
    }
}

proof fn lemma_inv_join(sep: DocV, items: Seq<DocV>, inside: bool)
    requires
        doc_invariants(sep, inside),
        docs_invariants(items, inside),
    ensures
        docs_invariants(join_view(sep, items), inside),
    decreases items,
{
    reveal_with_fuel(docs_invariants, 4);
    if items.len() <= 1 {
    } else {
        assert(docs_invariants(items.drop_first(), inside));
        lemma_inv_join(sep, items.drop_first(), inside);
        assert(docs_invariants(seq![items[0], sep], inside)) by {
            assert(seq![items[0], sep].drop_first() =~= seq![sep]);
            assert(seq![sep].drop_first() =~= Seq::<DocV>::empty());
        }
        lemma_inv_concat(seq![items[0], sep], join_view(sep, items.drop_first()), inside);
    }
}

proof fn lemma_inv_delimited(l: DocV, items: Seq<DocV>, r: DocV, trail: bool)
    requires
        doc_invariants(l, false),
        docs_invariants(items, false),
        doc_invariants(r, false),
    ensures
        doc_invariants(sp_delimited(l, items, r, trail), false),
{
    reveal_with_fuel(doc_invariants, 8);
    reveal_with_fuel(docs_invariants, 8);
    lemma_clean_singleton(',');
    if items.len() == 0 {
        assert(doc_invariants(sp_delimited(l, items, r, trail), false));
    } else {
        lemma_inv_weaken(l);
        lemma_inv_weaken(r);
        crate::format_element::lemma_inv_list_weaken(items);
        let sep = DocV::Concat(seq![DocV::Token(seq![',']), DocV::Line(LineMode::SoftSpace)]);
        assert(doc_invariants(sep, true));
        lemma_inv_join(sep, items, true);
        let trail_doc = if trail {
            DocV::IfBreak(Box::new(DocV::Empty), Box::new(DocV::Token(seq![','])), None)
        } else {
            DocV::Empty
        };
        assert(doc_invariants(trail_doc, true));
        let inner = DocV::Concat(
            seq![
                DocV::Line(LineMode::Soft),
                DocV::Concat(join_view(sep, items)),
                trail_doc,
            ],
        );
        assert(doc_invariants(inner, true));
        assert(doc_invariants(sp_delimited(l, items, r, trail), false));
    }
}

proof fn lemma_inv_comma_group(items: Seq<DocV>)
    requires
        docs_invariants(items, false),
    ensures
        doc_invariants(sp_comma_group(items), false),
{
    reveal_with_fuel(doc_invariants, 5);
    reveal_with_fuel(docs_invariants, 5);
    lemma_clean_singleton(',');
    crate::format_element::lemma_inv_list_weaken(items);
    let sep = DocV::Concat(seq![DocV::Token(seq![',']), DocV::Line(LineMode::SoftSpace)]);
    assert(doc_invariants(sep, true));
    lemma_inv_join(sep, items, true);
}

proof fn lemma_first_castable_clean<T: AstNode>(s: Seq<SyntaxElementV>)
    requires
        elems_clean(s),
    ensures
        first_castable::<T>(s) matches Some(m) ==> tree_clean(m),
    decreases s,
{
    if s.len() > 0 {
        assert(crate::syntax::elem_clean(s[0]) && elems_clean(s.drop_first()));
        if crate::support::is_castable::<T>(s[0]) {
            assert(tree_clean(s[0]->Node_0));
        } else {
            lemma_first_castable_clean::<T>(s.drop_first());
        }
    }
}

proof fn lemma_castable_children_clean<T: AstNode>(s: Seq<SyntaxElementV>)
    requires
        elems_clean(s),
    ensures
        forall|i: int|
            0 <= i < castable_children::<T>(s).len() ==> tree_clean(
                #[trigger] castable_children::<T>(s)[i],
            ),
    decreases s,
{
    if s.len() > 0 {
        assert(crate::syntax::elem_clean(s[0]) && elems_clean(s.drop_first()));
        lemma_castable_children_clean::<T>(s.drop_first());
        if crate::support::is_castable::<T>(s[0]) {
            assert(tree_clean(s[0]->Node_0));
            let cs = castable_children::<T>(s);
            let rest = castable_children::<T>(s.drop_first());
            assert(cs =~= seq![s[0]->Node_0] + rest);
            assert forall|i: int| 0 <= i < cs.len() implies tree_clean(#[trigger] cs[i]) by {
                if i == 0 {
                    assert(cs[0] == s[0]->Node_0);
                } else {
                    assert(cs[i] == rest[i - 1]);
                }
            }
        } else {
            assert(castable_children::<T>(s) == castable_children::<T>(s.drop_first()));
        }
    } else {
        assert(castable_children::<T>(s).len() == 0);
    }
}

proof fn lemma_first_token_of_clean(s: Seq<SyntaxElementV>, kind: SyntaxKind)
    requires
        elems_clean(s),
    ensures
        first_token_of(s, kind) matches Some(t) ==> token_clean(t),
    decreases s,
{
    if s.len() > 0 {
        assert(crate::syntax::elem_clean(s[0]) && elems_clean(s.drop_first()));
        if crate::support::is_token_of(s[0], kind) {
            assert(token_clean(s[0]->Token_0));
        } else {
            lemma_first_token_of_clean(s.drop_first(), kind);
        }
    }
}

proof fn lemma_first_any_token_clean(s: Seq<SyntaxElementV>)
    requires
        elems_clean(s),
    ensures
        first_any_token(s) matches Some(t) ==> token_clean(t),
    decreases s,
{
    if s.len() > 0 {
        assert(crate::syntax::elem_clean(s[0]) && elems_clean(s.drop_first()));
        if crate::support::is_any_token(s[0]) {
            assert(token_clean(s[0]->Token_0));
        } else {
            lemma_first_any_token_clean(s.drop_first());
        }
    }
}

proof fn lemma_req_token_inv(n: SyntaxNodeV, kind: SyntaxKind, o: FormatOptions)
    requires
        tree_clean(n),
    ensures
        sp_req_token(n, kind, o) matches Some(d) ==> doc_invariants(d, false),
{
    lemma_first_token_of_clean(n.children, kind);
    if first_token_of(n.children, kind) is Some {
        lemma_inv_format_token(first_token_of(n.children, kind)->0, o);
    }
}

proof fn lemma_inv_script(n: SyntaxNodeV, o: FormatOptions)
    requires
        n.kind == SyntaxKind::Script || n.kind == SyntaxKind::Module,
        tree_clean(n),
    ensures
        sp_rule(n, o) matches Some(d) ==> doc_invariants(d, false),
    decreases node_size(n), 2nat,
{
    if n.kind == SyntaxKind::Script {
        lemma_inv_statement_list::<Stmt>(n, o);
    } else {
        lemma_inv_statement_list::<ModuleItem>(n, o);
    }
}

proof fn lemma_inv_block(n: SyntaxNodeV, o: FormatOptions)
    requires
        n.kind == SyntaxKind::BlockStmt,
        tree_clean(n),
    ensures
        sp_rule(n, o) matches Some(d) ==> doc_invariants(d, false),
    decreases node_size(n), 2nat,
{
    reveal_with_fuel(doc_invariants, 8);
    reveal_with_fuel(docs_invariants, 8);
    lemma_sum_castable::<Stmt>(n.children);
    lemma_req_token_inv(n, SyntaxKind::LCurly, o);
    lemma_req_token_inv(n, SyntaxKind::RCurly, o);
    lemma_castable_children_clean::<Stmt>(n.children);
    lemma_inv_stmt_docs(castable_children::<Stmt>(n.children), o, true);
    let stmts = sp_stmt_docs(castable_children::<Stmt>(n.children), o, true);
    if stmts.len() > 0 {
        lemma_inv_join(DocV::Line(LineMode::Hard), stmts, false);
    }
}

proof fn lemma_inv_empty_stmt(n: SyntaxNodeV, o: FormatOptions)
    requires
        n.kind == SyntaxKind::EmptyStmt,
        tree_clean(n),
    ensures
        sp_rule(n, o) matches Some(d) ==> doc_invariants(d, false),
    decreases node_size(n), 2nat,
{
    lemma_first_token_of_clean(n.children, SyntaxKind::Semicolon);
    if first_token_of(n.children, SyntaxKind::Semicolon) is Some {
        lemma_inv_format_token(first_token_of(n.children, SyntaxKind::Semicolon)->0, o);
    }
}

proof fn lemma_inv_expr_stmt(n: SyntaxNodeV, o: FormatOptions)
    requires
        n.kind == SyntaxKind::ExprStmt,
        tree_clean(n),
    ensures
        sp_rule(n, o) matches Some(d) ==> doc_invariants(d, false),
    decreases node_size(n), 2nat,
{
    reveal_with_fuel(doc_invariants, 4);
    reveal_with_fuel(docs_invariants, 4);
    lemma_first_castable_size::<Expr>(n.children);
    lemma_first_castable_clean::<Expr>(n.children);
    lemma_inv_semi(o);
    if first_castable::<Expr>(n.children) is Some {
        let e = first_castable::<Expr>(n.children)->0;
        lemma_lower_invariants(e, o);
        assert(docs_invariants(seq![sp_lower(e, o)], false)) by {
            assert(seq![sp_lower(e, o)].drop_first() =~= Seq::<DocV>::empty());
        }
        lemma_inv_concat(seq![sp_lower(e, o)], sp_semi(o), false);
    }
}

proof fn lemma_inv_var_decl(n: SyntaxNodeV, o: FormatOptions)
    requires
        n.kind == SyntaxKind::VarDecl,
        tree_clean(n),
    ensures
        sp_rule(n, o) matches Some(d) ==> doc_invariants(d, false),
    decreases node_size(n), 2nat,
{
    reveal_with_fuel(doc_invariants, 8);
    reveal_with_fuel(docs_invariants, 8);
    lemma_sum_castable::<Declarator>(n.children);
    lemma_first_any_token_clean(n.children);
    lemma_inv_semi(o);
    lemma_castable_children_clean::<Declarator>(n.children);
    lemma_inv_lower_nodes(castable_children::<Declarator>(n.children), o);
    lemma_clean_singleton(',');
    if first_any_token(n.children) is Some {
        let kw = first_any_token(n.children)->0;
        let decls = sp_lower_nodes(castable_children::<Declarator>(n.children), o);
        lemma_inv_format_token(kw, o);
        let sep = DocV::Concat(seq![DocV::Token(seq![',']), DocV::Space]);
        assert(doc_invariants(sep, false));
        lemma_inv_join(sep, decls, false);
        lemma_inv_concat(
            seq![
                sp_format_token(kw, o),
                DocV::Space,
                DocV::Concat(join_view(sep, decls)),
            ],
            sp_semi(o),
            false,
        );
    }
}

proof fn lemma_inv_declarator(n: SyntaxNodeV, o: FormatOptions)
    requires
        n.kind == SyntaxKind::Declarator,
        tree_clean(n),
    ensures
        sp_rule(n, o) matches Some(d) ==> doc_invariants(d, false),
    decreases node_size(n), 2nat,
{
    reveal_with_fuel(doc_invariants, 8);
    reveal_with_fuel(docs_invariants, 8);
    lemma_first_castable_size::<Pattern>(n.children);
    lemma_first_castable_size::<Expr>(n.children);
    lemma_first_castable_clean::<Pattern>(n.children);
    lemma_first_castable_clean::<Expr>(n.children);
    lemma_first_token_of_clean(n.children, SyntaxKind::Assign);
    if first_castable::<Pattern>(n.children) is Some {
        let p = first_castable::<Pattern>(n.children)->0;
        lemma_lower_invariants(p, o);
        if first_token_of(n.children, SyntaxKind::Assign) is Some {
            lemma_inv_format_token(first_token_of(n.children, SyntaxKind::Assign)->0, o);
            if first_castable::<Expr>(n.children) is Some {
                lemma_lower_invariants(first_castable::<Expr>(n.children)->0, o);
            }
        }
    }
}

proof fn lemma_inv_single_pattern(n: SyntaxNodeV, o: FormatOptions)
    requires
        n.kind == SyntaxKind::SinglePattern,
        tree_clean(n),
    ensures
        sp_rule(n, o) matches Some(d) ==> doc_invariants(d, false),
    decreases node_size(n), 2nat,
{
    lemma_first_castable_size::<Name>(n.children);
    lemma_first_castable_clean::<Name>(n.children);
    if first_castable::<Name>(n.children) is Some {
        lemma_lower_invariants(first_castable::<Name>(n.children)->0, o);
    }
}

proof fn lemma_inv_token_nodes(n: SyntaxNodeV, o: FormatOptions)
    requires
        n.kind == SyntaxKind::Name || n.kind == SyntaxKind::NameRef || n.kind == SyntaxKind::Ident
            || n.kind == SyntaxKind::Literal,
        tree_clean(n),
    ensures
        sp_rule(n, o) matches Some(d) ==> doc_invariants(d, false),
    decreases node_size(n), 2nat,
{
    lemma_first_any_token_clean(n.children);
    if first_any_token(n.children) is Some {
        lemma_inv_format_token(first_any_token(n.children)->0, o);
    }
}

proof fn lemma_inv_parenthesized(n: SyntaxNodeV, o: FormatOptions)
    requires
        n.kind == SyntaxKind::Condition || n.kind == SyntaxKind::GroupingExpr,
        tree_clean(n),
    ensures
        sp_rule(n, o) matches Some(d) ==> doc_invariants(d, false),
    decreases node_size(n), 2nat,
{
    reveal_with_fuel(doc_invariants, 5);
    reveal_with_fuel(docs_invariants, 5);
    lemma_first_castable_size::<Expr>(n.children);
    lemma_first_castable_clean::<Expr>(n.children);
    lemma_req_token_inv(n, SyntaxKind::LParen, o);
    lemma_req_token_inv(n, SyntaxKind::RParen, o);
    if first_castable::<Expr>(n.children) is Some {
        lemma_lower_invariants(first_castable::<Expr>(n.children)->0, o);
    }
}

proof fn lemma_inv_if_stmt(n: SyntaxNodeV, o: FormatOptions)
    requires
        n.kind == SyntaxKind::IfStmt,
        tree_clean(n),
    ensures
        sp_rule(n, o) matches Some(d) ==> doc_invariants(d, false),
    decreases node_size(n), 2nat,
{
    reveal_with_fuel(doc_invariants, 7);
    reveal_with_fuel(docs_invariants, 7);
    lemma_first_castable_size::<Condition>(n.children);
    lemma_first_castable_size::<Stmt>(n.children);
    lemma_first_castable_clean::<Condition>(n.children);
    lemma_first_castable_clean::<Stmt>(n.children);
    lemma_req_token_inv(n, SyntaxKind::IfKw, o);
    lemma_verbatim_clean(n);
    if first_castable::<Condition>(n.children) is Some {
        lemma_lower_invariants(first_castable::<Condition>(n.children)->0, o);
    }
    if first_castable::<Stmt>(n.children) is Some {
        lemma_lower_invariants(first_castable::<Stmt>(n.children)->0, o);
    }
}

proof fn lemma_inv_labelled(n: SyntaxNodeV, o: FormatOptions)
    requires
        n.kind == SyntaxKind::LabelledStmt,
        tree_clean(n),
    ensures
        sp_rule(n, o) matches Some(d) ==> doc_invariants(d, false),
    decreases node_size(n), 2nat,
{
    reveal_with_fuel(doc_invariants, 6);
    reveal_with_fuel(docs_invariants, 6);
    lemma_first_castable_size::<Name>(n.children);
    lemma_first_castable_size::<Stmt>(n.children);
    lemma_first_castable_clean::<Name>(n.children);
    lemma_first_castable_clean::<Stmt>(n.children);
    lemma_req_token_inv(n, SyntaxKind::Colon, o);
    if first_castable::<Name>(n.children) is Some {
        lemma_lower_invariants(first_castable::<Name>(n.children)->0, o);
    }
    if first_castable::<Stmt>(n.children) is Some {
        lemma_lower_invariants(first_castable::<Stmt>(n.children)->0, o);
    }
}

proof fn lemma_inv_sequence(n: SyntaxNodeV, o: FormatOptions)
    requires
        n.kind == SyntaxKind::SequenceExpr,
        tree_clean(n),
    ensures
        sp_rule(n, o) matches Some(d) ==> doc_invariants(d, false),
    decreases node_size(n), 2nat,
{
    lemma_sum_castable::<Expr>(n.children);
    lemma_castable_children_clean::<Expr>(n.children);
    lemma_inv_lower_nodes(castable_children::<Expr>(n.children), o);
    lemma_inv_comma_group(sp_lower_nodes(castable_children::<Expr>(n.children), o));
}

proof fn lemma_inv_setter(n: SyntaxNodeV, o: FormatOptions)
    requires
        n.kind == SyntaxKind::Setter,
        tree_clean(n),
    ensures
        sp_rule(n, o) matches Some(d) ==> doc_invariants(d, false),
    decreases node_size(n), 2nat,
{
    reveal_with_fuel(doc_invariants, 8);
    reveal_with_fuel(docs_invariants, 8);
    lemma_first_castable_size::<PropName>(n.children);
    lemma_first_castable_size::<ParameterList>(n.children);
    lemma_first_castable_size::<BlockStmt>(n.children);
    lemma_first_castable_clean::<PropName>(n.children);
    lemma_first_castable_clean::<ParameterList>(n.children);
    lemma_first_castable_clean::<BlockStmt>(n.children);
    lemma_first_token_of_clean(n.children, SyntaxKind::SetKw);
    if first_token_of(n.children, SyntaxKind::SetKw) is Some {
        lemma_inv_format_token(first_token_of(n.children, SyntaxKind::SetKw)->0, o);
    }
    if first_castable::<PropName>(n.children) is Some {
        lemma_lower_invariants(first_castable::<PropName>(n.children)->0, o);
    }
    if first_castable::<ParameterList>(n.children) is Some {
        lemma_lower_invariants(first_castable::<ParameterList>(n.children)->0, o);
    }
    if first_castable::<BlockStmt>(n.children) is Some {
        lemma_lower_invariants(first_castable::<BlockStmt>(n.children)->0, o);
    }
}

proof fn lemma_inv_array(n: SyntaxNodeV, o: FormatOptions)
    requires
        n.kind == SyntaxKind::ArrayExpr,
        tree_clean(n),
    ensures
        sp_rule(n, o) matches Some(d) ==> doc_invariants(d, false),
    decreases node_size(n), 2nat,
{
    lemma_sum_castable::<ExprOrSpread>(n.children);
    lemma_req_token_inv(n, SyntaxKind::LBrack, o);
    lemma_req_token_inv(n, SyntaxKind::RBrack, o);
    lemma_castable_children_clean::<ExprOrSpread>(n.children);
    lemma_inv_lower_nodes(castable_children::<ExprOrSpread>(n.children), o);
    if sp_rule(n, o) is Some {
        lemma_inv_delimited(
            sp_req_token(n, SyntaxKind::LBrack, o)->0,
            sp_lower_nodes(castable_children::<ExprOrSpread>(n.children), o),
            sp_req_token(n, SyntaxKind::RBrack, o)->0,
            o.trailing_comma != crate::options::TrailingComma::Omit,
        );
    }
}

proof fn lemma_inv_call(n: SyntaxNodeV, o: FormatOptions)
    requires
        n.kind == SyntaxKind::CallExpr,
        tree_clean(n),
    ensures
        sp_rule(n, o) matches Some(d) ==> doc_invariants(d, false),
    decreases node_size(n), 2nat,
{
    reveal_with_fuel(doc_invariants, 4);
    reveal_with_fuel(docs_invariants, 4);
    lemma_first_castable_size::<Expr>(n.children);
    lemma_first_castable_size::<ArgList>(n.children);
    lemma_first_castable_clean::<Expr>(n.children);
    lemma_first_castable_clean::<ArgList>(n.children);
    if first_castable::<Expr>(n.children) is Some {
        lemma_lower_invariants(first_castable::<Expr>(n.children)->0, o);
    }
    if first_castable::<ArgList>(n.children) is Some {
        lemma_lower_invariants(first_castable::<ArgList>(n.children)->0, o);
    }
}

proof fn lemma_inv_arg_list(n: SyntaxNodeV, o: FormatOptions)
    requires
        n.kind == SyntaxKind::ArgList,
        tree_clean(n),
    ensures
        sp_rule(n, o) matches Some(d) ==> doc_invariants(d, false),
    decreases node_size(n), 2nat,
{
    lemma_sum_castable::<Expr>(n.children);
    lemma_req_token_inv(n, SyntaxKind::LParen, o);
    lemma_req_token_inv(n, SyntaxKind::RParen, o);
    lemma_castable_children_clean::<Expr>(n.children);
    lemma_inv_lower_nodes(castable_children::<Expr>(n.children), o);
    if sp_rule(n, o) is Some {
        lemma_inv_delimited(
            sp_req_token(n, SyntaxKind::LParen, o)->0,
            sp_lower_nodes(castable_children::<Expr>(n.children), o),
            sp_req_token(n, SyntaxKind::RParen, o)->0,
            o.trailing_comma == crate::options::TrailingComma::All,
        );
    }
}

proof fn lemma_inv_parameter_list(n: SyntaxNodeV, o: FormatOptions)
    requires
        n.kind == SyntaxKind::ParameterList,
        tree_clean(n),
    ensures
        sp_rule(n, o) matches Some(d) ==> doc_invariants(d, false),
    decreases node_size(n), 2nat,
{
    lemma_sum_castable::<Pattern>(n.children);
    lemma_req_token_inv(n, SyntaxKind::LParen, o);
    lemma_req_token_inv(n, SyntaxKind::RParen, o);
    lemma_castable_children_clean::<Pattern>(n.children);
    lemma_inv_lower_nodes(castable_children::<Pattern>(n.children), o);
    if sp_rule(n, o) is Some {
        lemma_inv_delimited(
            sp_req_token(n, SyntaxKind::LParen, o)->0,
            sp_lower_nodes(castable_children::<Pattern>(n.children), o),
            sp_req_token(n, SyntaxKind::RParen, o)->0,
            o.trailing_comma == crate::options::TrailingComma::All,
        );
    }
}

/// The structural invariants of the data model hold of every document
/// the lowering builds from a clean tree — one whose token and comment
/// texts hold no raw newline.  No token leaf of `sp_lower(n, o)` holds
/// '\n' or '\r', and every soft seam in it lies inside an enclosing group
/// or fill; the placeholder of a failed rule meets both as well.
pub proof fn lemma_lower_invariants(n: SyntaxNodeV, o: FormatOptions)
    requires
        tree_clean(n),
    ensures
        doc_invariants(sp_lower(n, o), false),
    decreases node_size(n), 3nat,
{
    reveal_with_fuel(doc_invariants, 3);
    let k = n.kind;
    if k == SyntaxKind::Script || k == SyntaxKind::Module {
        lemma_inv_script(n, o);
    } else if k == SyntaxKind::BlockStmt {
        lemma_inv_block(n, o);
    } else if k == SyntaxKind::EmptyStmt {
        lemma_inv_empty_stmt(n, o);
    } else if k == SyntaxKind::ExprStmt {
        lemma_inv_expr_stmt(n, o);
    } else if k == SyntaxKind::VarDecl {
        lemma_inv_var_decl(n, o);
    } else if k == SyntaxKind::Declarator {
        lemma_inv_declarator(n, o);
    } else if k == SyntaxKind::SinglePattern {
        lemma_inv_single_pattern(n, o);
    } else if k == SyntaxKind::Name || k == SyntaxKind::NameRef || k == SyntaxKind::Ident || k
        == SyntaxKind::Literal {
        lemma_inv_token_nodes(n, o);
    } else if k == SyntaxKind::Condition || k == SyntaxKind::GroupingExpr {
        lemma_inv_parenthesized(n, o);
    } else if k == SyntaxKind::IfStmt {
        lemma_inv_if_stmt(n, o);
    } else if k == SyntaxKind::LabelledStmt {
        lemma_inv_labelled(n, o);
    } else if k == SyntaxKind::SequenceExpr {
        lemma_inv_sequence(n, o);
    } else if k == SyntaxKind::Setter {
        lemma_inv_setter(n, o);
    } else if k == SyntaxKind::ArrayExpr {
        lemma_inv_array(n, o);
    } else if k == SyntaxKind::CallExpr {
        lemma_inv_call(n, o);
    } else if k == SyntaxKind::ArgList {
        lemma_inv_arg_list(n, o);
    } else if k == SyntaxKind::ParameterList {
        lemma_inv_parameter_list(n, o);
    } else {
        lemma_verbatim_clean(n);
        assert(sp_rule(n, o) == Some(sp_verbatim(n)));
    }
    if sp_rule(n, o) is None {
        lemma_label_text_clean();
        lemma_verbatim_clean(n);
        assert(doc_invariants(sp_placeholder(n), false));
    }
}

proof fn lemma_inv_statement_list<T: AstNode>(n: SyntaxNodeV, o: FormatOptions)
    requires
        tree_clean(n),
    ensures
        doc_invariants(sp_statement_list::<T>(n, o), false),
    decreases node_size(n), 1nat,
{
    reveal_with_fuel(doc_invariants, 3);
    lemma_sum_castable::<T>(n.children);
    lemma_castable_children_clean::<T>(n.children);
    lemma_inv_stmt_docs(castable_children::<T>(n.children), o, true);
    lemma_inv_join(
        DocV::Line(LineMode::Hard),
        sp_stmt_docs(castable_children::<T>(n.children), o, true),
        false,
    );
}

proof fn lemma_inv_lower_nodes(ns: Seq<SyntaxNodeV>, o: FormatOptions)
    requires
        forall|i: int| 0 <= i < ns.len() ==> tree_clean(#[trigger] ns[i]),
    ensures
        docs_invariants(sp_lower_nodes(ns, o), false),
    decreases sum_sizes(ns) + 1, 0nat,
{
    reveal_with_fuel(docs_invariants, 3);
    if ns.len() > 0 {
        lemma_node_size_pos(ns[0]);
        assert(sum_sizes(ns) == node_size(ns[0]) + sum_sizes(ns.drop_first()));
        lemma_lower_invariants(ns[0], o);
        assert forall|i: int| 0 <= i < ns.drop_first().len() implies tree_clean(
            #[trigger] ns.drop_first()[i],
        ) by {
            assert(ns.drop_first()[i] == ns[i + 1]);
        }
        lemma_inv_lower_nodes(ns.drop_first(), o);
        assert(docs_invariants(seq![sp_lower(ns[0], o)], false)) by {
            assert(seq![sp_lower(ns[0], o)].drop_first() =~= Seq::<DocV>::empty());
        }
        lemma_inv_concat(seq![sp_lower(ns[0], o)], sp_lower_nodes(ns.drop_first(), o), false);
    }
}

proof fn lemma_inv_stmt_docs(ns: Seq<SyntaxNodeV>, o: FormatOptions, first: bool)
    requires
        forall|i: int| 0 <= i < ns.len() ==> tree_clean(#[trigger] ns[i]),
    ensures
        docs_invariants(sp_stmt_docs(ns, o, first), false),
    decreases sum_sizes(ns) + 1, 0nat,
{
    reveal_with_fuel(doc_invariants, 4);
    reveal_with_fuel(docs_invariants, 4);
    if ns.len() > 0 {
        lemma_node_size_pos(ns[0]);
        assert(sum_sizes(ns) == node_size(ns[0]) + sum_sizes(ns.drop_first()));
        lemma_lower_invariants(ns[0], o);
        assert forall|i: int| 0 <= i < ns.drop_first().len() implies tree_clean(
            #[trigger] ns.drop_first()[i],
        ) by {
            assert(ns.drop_first()[i] == ns[i + 1]);
        }
        lemma_inv_stmt_docs(ns.drop_first(), o, false);
        lemma_clean_singleton(';');
        assert(docs_invariants(sp_guard(ns[0], o, first), false));
        assert(docs_invariants(seq![sp_lower(ns[0], o)], false)) by {
            assert(seq![sp_lower(ns[0], o)].drop_first() =~= Seq::<DocV>::empty());
        }
        lemma_inv_concat(sp_guard(ns[0], o, first), seq![sp_lower(ns[0], o)], false);
        let head = DocV::Concat(sp_guard(ns[0], o, first) + seq![sp_lower(ns[0], o)]);
        assert(doc_invariants(head, false));
        assert(docs_invariants(seq![head], false)) by {
            assert(seq![head].drop_first() =~= Seq::<DocV>::empty());
        }
        lemma_inv_concat(seq![head], sp_stmt_docs(ns.drop_first(), o, false), false);
    }
}

} // verus!
