//! Per-node formatting rules on the typed wrappers.
//!
//! Each rule builds the document of its node from the driver's primitives;
//! the driver dispatches to it by kind.  The `requires` of a rule is the
//! wrapper's well-formedness: the wrapped node has the wrapper's kind,
//! which `cast` establishes.  A rule fails only on a mandatory child of
//! its own node; children lower totally, so a failure deep in a subtree
//! never reaches the rule above it.

use vstd::prelude::*;

use crate::ast_classes::Setter;
use crate::ast_exprs::SequenceExpr;
use crate::ast_stmts::LabelledStmt;
use crate::format_element::{
    concat_elements, docs_view, lemma_docs_view, token, DocV, FormatElement, LineMode,
};
use crate::formatter::{
    lemma_first_castable_size, lemma_sum_castable, node_size, rule_ens, sp_comma_group,
    FormatError, FormatResult, Formatter,
};
use crate::support::AstNode;
use crate::syntax::SyntaxKind;

verus! {

impl SequenceExpr {
    /// The document of a sequence expression: its expressions joined by
    /// comma and soft space, as one group, so that every operand of the
    /// comma operator survives into the output.
    pub fn to_format_element(&self, formatter: &Formatter) -> (r: FormatResult<FormatElement>)
        requires
            self.syntax@.kind == SyntaxKind::SequenceExpr,
        ensures
            rule_ens(self.syntax@, formatter.options, r),
        decreases node_size(self.syntax@), 1nat,
    {
        proof {
            lemma_sum_castable::<crate::ast_unions::Expr>(self.syntax@.children);
        }
        let exprs = self.exprs();
        proof {
            assert(crate::formatter::nodes_views(exprs@)
                =~= crate::support::castable_children::<crate::ast_unions::Expr>(
                self.syntax@.children,
            ));
        }
        let list = crate::formatter::to_syntax_list(exprs);
        let ds = formatter.format_syntax_list(&list);
        let ghost dsv = docs_view(ds@);
        let mut sep_parts: Vec<FormatElement> = Vec::new();
        sep_parts.push(token(","));
        sep_parts.push(FormatElement::Line(LineMode::SoftSpace));
        proof {
            reveal_strlit(",");
            assert(","@ =~= seq![',']);
            lemma_docs_view(sep_parts@);
            assert(docs_view(sep_parts@) =~= seq![
                DocV::Token(seq![',']),
                DocV::Line(LineMode::SoftSpace),
            ]);
        }
        let sep = concat_elements(sep_parts);
        let joined = crate::format_element::join_elements(sep, ds);
        let g = crate::format_element::group_elements(joined);
        proof {
            assert(g@ =~= sp_comma_group(dsv));
        }
        Ok(g)
    }
}

impl Setter {
    /// The document of a setter member: the `set` keyword, the property
    /// name, the parameter list and the body.
    pub fn to_format_element(&self, formatter: &Formatter) -> (r: FormatResult<FormatElement>)
        requires
            self.syntax@.kind == SyntaxKind::Setter,
        ensures
            rule_ens(self.syntax@, formatter.options, r),
        decreases node_size(self.syntax@), 1nat,
    {
        proof {
            lemma_first_castable_size::<crate::ast_unions::PropName>(self.syntax@.children);
            lemma_first_castable_size::<crate::ast_classes::ParameterList>(self.syntax@.children);
            lemma_first_castable_size::<crate::ast_stmts::BlockStmt>(self.syntax@.children);
        }
        let token_set = match self.set_token() {
            Ok(t) => t,
            Err(_) => {
                return Err(FormatError::MissingToken);
            },
        };
        let tokel = formatter.format_token(&token_set);
        let name = match self.key() {
            Ok(k) => k,
            Err(_) => {
                return Err(FormatError::MissingToken);
            },
        };
        let named = formatter.format_syntax(name.syntax());
        let params = match self.parameters() {
            Ok(p) => p,
            Err(_) => {
                return Err(FormatError::MissingToken);
            },
        };
        let paramsd = formatter.format_syntax(params.syntax());
        let body = match self.body() {
            Ok(b) => b,
            Err(_) => {
                return Err(FormatError::MissingToken);
            },
        };
        let bodyd = formatter.format_syntax(body.syntax());
        let ghost tokv = tokel@;
        let ghost namev = named@;
        let ghost paramsv = paramsd@;
        let ghost bodyv = bodyd@;
        let mut parts: Vec<FormatElement> = Vec::new();
        parts.push(tokel);
        parts.push(FormatElement::Space);
        parts.push(named);
        parts.push(paramsd);
        parts.push(FormatElement::Space);
        parts.push(bodyd);
        proof {
            lemma_docs_view(parts@);
            assert(docs_view(parts@) =~= seq![
                tokv,
                DocV::Space,
                namev,
                paramsv,
                DocV::Space,
                bodyv,
            ]);
        }
        Ok(concat_elements(parts))
    }
}

impl LabelledStmt {
    /// The document of a labelled statement: the label, its colon, and the
    /// statement after a space.
    pub fn to_format_element(&self, formatter: &Formatter) -> (r: FormatResult<FormatElement>)
        requires
            self.syntax@.kind == SyntaxKind::LabelledStmt,
        ensures
            rule_ens(self.syntax@, formatter.options, r),
        decreases node_size(self.syntax@), 1nat,
    {
        proof {
            lemma_first_castable_size::<crate::ast_stmts::Name>(self.syntax@.children);
            lemma_first_castable_size::<crate::ast_unions::Stmt>(self.syntax@.children);
        }
        let label = match self.label() {
            Ok(l) => l,
            Err(_) => {
                return Err(FormatError::MissingToken);
            },
        };
        let labeld = formatter.format_syntax(label.syntax());
        let statement = match self.stmt() {
            Ok(s) => s,
            Err(_) => {
                return Err(FormatError::MissingToken);
            },
        };
        let statementd = formatter.format_syntax(statement.syntax());
        let colon = match self.colon_token() {
            Ok(c) => c,
            Err(_) => {
                return Err(FormatError::MissingToken);
            },
        };
        let colond = formatter.format_token(&colon);
        let ghost labelv = labeld@;
        let ghost colonv = colond@;
        let ghost statementv = statementd@;
        let mut parts: Vec<FormatElement> = Vec::new();
        parts.push(labeld);
        parts.push(colond);
        parts.push(FormatElement::Space);
        parts.push(statementd);
        proof {
            lemma_docs_view(parts@);
            assert(docs_view(parts@) =~= seq![labelv, colonv, DocV::Space, statementv]);
        }
        Ok(concat_elements(parts))
    }
}

} // verus!
