//! Typed wrappers for expressions.
//!
//! Every wrapper holds the untyped node it was cast from; its accessors
//! state, over the ghost tree, exactly which child they return.

use vstd::prelude::*;

use crate::support::{
    AstNode, AstNodeList, AstSeparatedList, as_mandatory_node, as_mandatory_token, as_optional_node, as_optional_token, find_token, find_token_ens, mandatory_node_ens, mandatory_token_ens, node_list, node_list_ens, optional_node_ens, optional_token_ens, separated_list,
};
use crate::syntax::{SyntaxKind, SyntaxNode, SyntaxNodeV, SyntaxResult, SyntaxToken};
use crate::ast_classes::{ClassBody, PrivateName, TsExprWithTypeArgs, TsTypeParams};
use crate::ast_stmts::{BlockStmt, Ident, Name};
use crate::ast_unions::{ArrowExprParams, Expr, ExprOrSpread, ObjectProp, TsType};

verus! {

/// The operator token kinds that `UnaryExpr::operator` searches for.
pub open spec fn unary_expr_operator_kinds() -> Seq<SyntaxKind> {
    seq![
        SyntaxKind::DeleteKw,
        SyntaxKind::VoidKw,
        SyntaxKind::TypeofKw,
        SyntaxKind::Plus,
        SyntaxKind::Minus,
        SyntaxKind::Tilde,
        SyntaxKind::Bang,
        SyntaxKind::AwaitKw,
    ]
}

/// The operator token kinds that `PreUpdateExpression::operator` searches for.
pub open spec fn pre_update_expression_operator_kinds() -> Seq<SyntaxKind> {
    seq![
        SyntaxKind::PlusPlus,
        SyntaxKind::MinusMinus,
    ]
}

/// The operator token kinds that `PostUpdateExpression::operator` searches for.
pub open spec fn post_update_expression_operator_kinds() -> Seq<SyntaxKind> {
    seq![
        SyntaxKind::PlusPlus,
        SyntaxKind::MinusMinus,
    ]
}

/// The operator token kinds that `BinExpr::operator` searches for.
pub open spec fn bin_expr_operator_kinds() -> Seq<SyntaxKind> {
    seq![
        SyntaxKind::LAngle,
        SyntaxKind::RAngle,
        SyntaxKind::LtEq,
        SyntaxKind::GtEq,
        SyntaxKind::EqEq,
        SyntaxKind::EqEqEq,
        SyntaxKind::Neq,
        SyntaxKind::NeqStrict,
        SyntaxKind::Plus,
        SyntaxKind::Minus,
        SyntaxKind::Star,
        SyntaxKind::Slash,
        SyntaxKind::Percent,
        SyntaxKind::StarStar,
        SyntaxKind::Shl,
        SyntaxKind::Shr,
        SyntaxKind::UShr,
        SyntaxKind::Amp,
        SyntaxKind::Pipe,
        SyntaxKind::Caret,
        SyntaxKind::QuestionQuestion,
        SyntaxKind::PipePipe,
        SyntaxKind::AmpAmp,
        SyntaxKind::InKw,
        SyntaxKind::InstanceofKw,
    ]
}

/// The operator token kinds that `AssignExpr::operator` searches for.
pub open spec fn assign_expr_operator_kinds() -> Seq<SyntaxKind> {
    seq![
        SyntaxKind::Assign,
        SyntaxKind::PlusEq,
        SyntaxKind::MinusEq,
        SyntaxKind::StarEq,
        SyntaxKind::PercentEq,
        SyntaxKind::StarStarEq,
        SyntaxKind::ShrEq,
        SyntaxKind::ShlEq,
        SyntaxKind::UShrEq,
        SyntaxKind::AmpEq,
        SyntaxKind::PipeEq,
        SyntaxKind::CaretEq,
        SyntaxKind::AmpAmpEq,
        SyntaxKind::PipePipeEq,
        SyntaxKind::QuestionQuestionEq,
    ]
}

/// Typed wrapper for a `SyntaxKind::ArrowExpr` node.
#[derive(Debug, Clone, PartialEq, Eq, Hash)]
pub struct ArrowExpr {
    pub syntax: SyntaxNode,
}

impl ArrowExpr {
    pub fn async_token(&self) -> (r: Option<SyntaxToken>)
        ensures
            optional_token_ens(self.syntax@, SyntaxKind::AsyncKw, r),
    {
        as_optional_token(&self.syntax, SyntaxKind::AsyncKw)
    }

    pub fn type_params(&self) -> (r: Option<TsTypeParams>)
        ensures
            optional_node_ens::<TsTypeParams>(self.syntax@, r),
    {
        as_optional_node::<TsTypeParams>(&self.syntax)
    }

    pub fn params(&self) -> (r: Option<ArrowExprParams>)
        ensures
            optional_node_ens::<ArrowExprParams>(self.syntax@, r),
    {
        as_optional_node::<ArrowExprParams>(&self.syntax)
    }

    pub fn fat_arrow_token(&self) -> (r: SyntaxResult<SyntaxToken>)
        ensures
            mandatory_token_ens(self.syntax@, SyntaxKind::FatArrow, r),
    {
        as_mandatory_token(&self.syntax, SyntaxKind::FatArrow)
    }

    pub fn colon_token(&self) -> (r: Option<SyntaxToken>)
        ensures
            optional_token_ens(self.syntax@, SyntaxKind::Colon, r),
    {
        as_optional_token(&self.syntax, SyntaxKind::Colon)
    }

    pub fn return_type(&self) -> (r: Option<TsType>)
        ensures
            optional_node_ens::<TsType>(self.syntax@, r),
    {
        as_optional_node::<TsType>(&self.syntax)
    }
}

impl AstNode for ArrowExpr {
    open spec fn spec_can_cast(kind: SyntaxKind) -> bool {
        kind == SyntaxKind::ArrowExpr
    }

    open spec fn spec_node(&self) -> SyntaxNodeV {
        self.syntax@
    }

    fn can_cast(kind: SyntaxKind) -> (r: bool) {
        kind == SyntaxKind::ArrowExpr
    }

    fn cast(syntax: SyntaxNode) -> (r: Option<Self>) {
        if syntax.kind == SyntaxKind::ArrowExpr {
            Some(ArrowExpr { syntax })
        } else {
            None
        }
    }

    fn syntax(&self) -> (r: &SyntaxNode) {
        &self.syntax
    }
}

/// Typed wrapper for a `SyntaxKind::Literal` node.
#[derive(Debug, Clone, PartialEq, Eq, Hash)]
pub struct Literal {
    pub syntax: SyntaxNode,
}

impl Literal {
    pub fn true_token(&self) -> (r: SyntaxResult<SyntaxToken>)
        ensures
            mandatory_token_ens(self.syntax@, SyntaxKind::TrueKw, r),
    {
        as_mandatory_token(&self.syntax, SyntaxKind::TrueKw)
    }

    pub fn false_token(&self) -> (r: SyntaxResult<SyntaxToken>)
        ensures
            mandatory_token_ens(self.syntax@, SyntaxKind::FalseKw, r),
    {
        as_mandatory_token(&self.syntax, SyntaxKind::FalseKw)
    }

    pub fn number_token(&self) -> (r: SyntaxResult<SyntaxToken>)
        ensures
            mandatory_token_ens(self.syntax@, SyntaxKind::NumberLit, r),
    {
        as_mandatory_token(&self.syntax, SyntaxKind::NumberLit)
    }

    pub fn regex_token(&self) -> (r: SyntaxResult<SyntaxToken>)
        ensures
            mandatory_token_ens(self.syntax@, SyntaxKind::RegexLit, r),
    {
        as_mandatory_token(&self.syntax, SyntaxKind::RegexLit)
    }

    pub fn float_token(&self) -> (r: SyntaxResult<SyntaxToken>)
        ensures
            mandatory_token_ens(self.syntax@, SyntaxKind::FloatLit, r),
    {
        as_mandatory_token(&self.syntax, SyntaxKind::FloatLit)
    }

    pub fn big_int_token(&self) -> (r: SyntaxResult<SyntaxToken>)
        ensures
            mandatory_token_ens(self.syntax@, SyntaxKind::BigIntLit, r),
    {
        as_mandatory_token(&self.syntax, SyntaxKind::BigIntLit)
    }
}

impl AstNode for Literal {
    open spec fn spec_can_cast(kind: SyntaxKind) -> bool {
        kind == SyntaxKind::Literal
    }

    open spec fn spec_node(&self) -> SyntaxNodeV {
        self.syntax@
    }

    fn can_cast(kind: SyntaxKind) -> (r: bool) {
        kind == SyntaxKind::Literal
    }

    fn cast(syntax: SyntaxNode) -> (r: Option<Self>) {
        if syntax.kind == SyntaxKind::Literal {
            Some(Literal { syntax })
        } else {
            None
        }
    }

    fn syntax(&self) -> (r: &SyntaxNode) {
        &self.syntax
    }
}

/// Typed wrapper for a `SyntaxKind::Template` node.
#[derive(Debug, Clone, PartialEq, Eq, Hash)]
pub struct Template {
    pub syntax: SyntaxNode,
}

impl Template {
    pub fn backtick_token(&self) -> (r: SyntaxResult<SyntaxToken>)
        ensures
            mandatory_token_ens(self.syntax@, SyntaxKind::Backtick, r),
    {
        as_mandatory_token(&self.syntax, SyntaxKind::Backtick)
    }
}

impl AstNode for Template {
    open spec fn spec_can_cast(kind: SyntaxKind) -> bool {
        kind == SyntaxKind::Template
    }

    open spec fn spec_node(&self) -> SyntaxNodeV {
        self.syntax@
    }

    fn can_cast(kind: SyntaxKind) -> (r: bool) {
        kind == SyntaxKind::Template
    }

    fn cast(syntax: SyntaxNode) -> (r: Option<Self>) {
        if syntax.kind == SyntaxKind::Template {
            Some(Template { syntax })
        } else {
            None
        }
    }

    fn syntax(&self) -> (r: &SyntaxNode) {
        &self.syntax
    }
}

/// Typed wrapper for a `SyntaxKind::ThisExpr` node.
#[derive(Debug, Clone, PartialEq, Eq, Hash)]
pub struct ThisExpr {
    pub syntax: SyntaxNode,
}

impl ThisExpr {
    pub fn this_token(&self) -> (r: SyntaxResult<SyntaxToken>)
        ensures
            mandatory_token_ens(self.syntax@, SyntaxKind::ThisKw, r),
    {
        as_mandatory_token(&self.syntax, SyntaxKind::ThisKw)
    }
}

impl AstNode for ThisExpr {
    open spec fn spec_can_cast(kind: SyntaxKind) -> bool {
        kind == SyntaxKind::ThisExpr
    }

    open spec fn spec_node(&self) -> SyntaxNodeV {
        self.syntax@
    }

    fn can_cast(kind: SyntaxKind) -> (r: bool) {
        kind == SyntaxKind::ThisExpr
    }

    fn cast(syntax: SyntaxNode) -> (r: Option<Self>) {
        if syntax.kind == SyntaxKind::ThisExpr {
            Some(ThisExpr { syntax })
        } else {
            None
        }
    }

    fn syntax(&self) -> (r: &SyntaxNode) {
        &self.syntax
    }
}

/// Typed wrapper for a `SyntaxKind::ArrayExpr` node.
#[derive(Debug, Clone, PartialEq, Eq, Hash)]
pub struct ArrayExpr {
    pub syntax: SyntaxNode,
}

impl ArrayExpr {
    pub fn l_brack_token(&self) -> (r: SyntaxResult<SyntaxToken>)
        ensures
            mandatory_token_ens(self.syntax@, SyntaxKind::LBrack, r),
    {
        as_mandatory_token(&self.syntax, SyntaxKind::LBrack)
    }

    pub fn elements(&self) -> (r: AstNodeList<ExprOrSpread>)
        ensures
            node_list_ens::<ExprOrSpread>(self.syntax@, r@),
    {
        node_list::<ExprOrSpread>(&self.syntax)
    }

    pub fn r_brack_token(&self) -> (r: SyntaxResult<SyntaxToken>)
        ensures
            mandatory_token_ens(self.syntax@, SyntaxKind::RBrack, r),
    {
        as_mandatory_token(&self.syntax, SyntaxKind::RBrack)
    }
}

impl AstNode for ArrayExpr {
    open spec fn spec_can_cast(kind: SyntaxKind) -> bool {
        kind == SyntaxKind::ArrayExpr
    }

    open spec fn spec_node(&self) -> SyntaxNodeV {
        self.syntax@
    }

    fn can_cast(kind: SyntaxKind) -> (r: bool) {
        kind == SyntaxKind::ArrayExpr
    }

    fn cast(syntax: SyntaxNode) -> (r: Option<Self>) {
        if syntax.kind == SyntaxKind::ArrayExpr {
            Some(ArrayExpr { syntax })
        } else {
            None
        }
    }

    fn syntax(&self) -> (r: &SyntaxNode) {
        &self.syntax
    }
}

/// Typed wrapper for a `SyntaxKind::ObjectExpr` node.
#[derive(Debug, Clone, PartialEq, Eq, Hash)]
pub struct ObjectExpr {
    pub syntax: SyntaxNode,
}

impl ObjectExpr {
    pub fn l_curly_token(&self) -> (r: SyntaxResult<SyntaxToken>)
        ensures
            mandatory_token_ens(self.syntax@, SyntaxKind::LCurly, r),
    {
        as_mandatory_token(&self.syntax, SyntaxKind::LCurly)
    }

    pub fn props(&self) -> (r: AstSeparatedList<ObjectProp>)
        ensures
            node_list_ens::<ObjectProp>(self.syntax@, r@),
    {
        separated_list::<ObjectProp>(&self.syntax)
    }

    pub fn r_curly_token(&self) -> (r: SyntaxResult<SyntaxToken>)
        ensures
            mandatory_token_ens(self.syntax@, SyntaxKind::RCurly, r),
    {
        as_mandatory_token(&self.syntax, SyntaxKind::RCurly)
    }
}

impl AstNode for ObjectExpr {
    open spec fn spec_can_cast(kind: SyntaxKind) -> bool {
        kind == SyntaxKind::ObjectExpr
    }

    open spec fn spec_node(&self) -> SyntaxNodeV {
        self.syntax@
    }

    fn can_cast(kind: SyntaxKind) -> (r: bool) {
        kind == SyntaxKind::ObjectExpr
    }

    fn cast(syntax: SyntaxNode) -> (r: Option<Self>) {
        if syntax.kind == SyntaxKind::ObjectExpr {
            Some(ObjectExpr { syntax })
        } else {
            None
        }
    }

    fn syntax(&self) -> (r: &SyntaxNode) {
        &self.syntax
    }
}

/// Typed wrapper for a `SyntaxKind::GroupingExpr` node.
#[derive(Debug, Clone, PartialEq, Eq, Hash)]
pub struct GroupingExpr {
    pub syntax: SyntaxNode,
}

impl GroupingExpr {
    pub fn l_paren_token(&self) -> (r: SyntaxResult<SyntaxToken>)
        ensures
            mandatory_token_ens(self.syntax@, SyntaxKind::LParen, r),
    {
        as_mandatory_token(&self.syntax, SyntaxKind::LParen)
    }

    pub fn inner(&self) -> (r: SyntaxResult<Expr>)
        ensures
            mandatory_node_ens::<Expr>(self.syntax@, r),
    {
        as_mandatory_node::<Expr>(&self.syntax)
    }

    pub fn r_paren_token(&self) -> (r: SyntaxResult<SyntaxToken>)
        ensures
            mandatory_token_ens(self.syntax@, SyntaxKind::RParen, r),
    {
        as_mandatory_token(&self.syntax, SyntaxKind::RParen)
    }
}

impl AstNode for GroupingExpr {
    open spec fn spec_can_cast(kind: SyntaxKind) -> bool {
        kind == SyntaxKind::GroupingExpr
    }

    open spec fn spec_node(&self) -> SyntaxNodeV {
        self.syntax@
    }

    fn can_cast(kind: SyntaxKind) -> (r: bool) {
        kind == SyntaxKind::GroupingExpr
    }

    fn cast(syntax: SyntaxNode) -> (r: Option<Self>) {
        if syntax.kind == SyntaxKind::GroupingExpr {
            Some(GroupingExpr { syntax })
        } else {
            None
        }
    }

    fn syntax(&self) -> (r: &SyntaxNode) {
        &self.syntax
    }
}

/// Typed wrapper for a `SyntaxKind::BracketExpr` node.
#[derive(Debug, Clone, PartialEq, Eq, Hash)]
pub struct BracketExpr {
    pub syntax: SyntaxNode,
}

impl BracketExpr {
    pub fn super_token(&self) -> (r: Option<SyntaxToken>)
        ensures
            optional_token_ens(self.syntax@, SyntaxKind::SuperKw, r),
    {
        as_optional_token(&self.syntax, SyntaxKind::SuperKw)
    }

    pub fn l_brack_token(&self) -> (r: SyntaxResult<SyntaxToken>)
        ensures
            mandatory_token_ens(self.syntax@, SyntaxKind::LBrack, r),
    {
        as_mandatory_token(&self.syntax, SyntaxKind::LBrack)
    }

    pub fn r_brack_token(&self) -> (r: SyntaxResult<SyntaxToken>)
        ensures
            mandatory_token_ens(self.syntax@, SyntaxKind::RBrack, r),
    {
        as_mandatory_token(&self.syntax, SyntaxKind::RBrack)
    }
}

impl AstNode for BracketExpr {
    open spec fn spec_can_cast(kind: SyntaxKind) -> bool {
        kind == SyntaxKind::BracketExpr
    }

    open spec fn spec_node(&self) -> SyntaxNodeV {
        self.syntax@
    }

    fn can_cast(kind: SyntaxKind) -> (r: bool) {
        kind == SyntaxKind::BracketExpr
    }

    fn cast(syntax: SyntaxNode) -> (r: Option<Self>) {
        if syntax.kind == SyntaxKind::BracketExpr {
            Some(BracketExpr { syntax })
        } else {
            None
        }
    }

    fn syntax(&self) -> (r: &SyntaxNode) {
        &self.syntax
    }
}

/// Typed wrapper for a `SyntaxKind::DotExpr` node.
#[derive(Debug, Clone, PartialEq, Eq, Hash)]
pub struct DotExpr {
    pub syntax: SyntaxNode,
}

impl DotExpr {
    pub fn super_token(&self) -> (r: Option<SyntaxToken>)
        ensures
            optional_token_ens(self.syntax@, SyntaxKind::SuperKw, r),
    {
        as_optional_token(&self.syntax, SyntaxKind::SuperKw)
    }

    pub fn object(&self) -> (r: SyntaxResult<Expr>)
        ensures
            mandatory_node_ens::<Expr>(self.syntax@, r),
    {
        as_mandatory_node::<Expr>(&self.syntax)
    }

    pub fn dot_token(&self) -> (r: SyntaxResult<SyntaxToken>)
        ensures
            mandatory_token_ens(self.syntax@, SyntaxKind::Dot, r),
    {
        as_mandatory_token(&self.syntax, SyntaxKind::Dot)
    }

    pub fn prop(&self) -> (r: SyntaxResult<Name>)
        ensures
            mandatory_node_ens::<Name>(self.syntax@, r),
    {
        as_mandatory_node::<Name>(&self.syntax)
    }
}

impl AstNode for DotExpr {
    open spec fn spec_can_cast(kind: SyntaxKind) -> bool {
        kind == SyntaxKind::DotExpr
    }

    open spec fn spec_node(&self) -> SyntaxNodeV {
        self.syntax@
    }

    fn can_cast(kind: SyntaxKind) -> (r: bool) {
        kind == SyntaxKind::DotExpr
    }

    fn cast(syntax: SyntaxNode) -> (r: Option<Self>) {
        if syntax.kind == SyntaxKind::DotExpr {
            Some(DotExpr { syntax })
        } else {
            None
        }
    }

    fn syntax(&self) -> (r: &SyntaxNode) {
        &self.syntax
    }
}

/// Typed wrapper for a `SyntaxKind::NewExpr` node.
#[derive(Debug, Clone, PartialEq, Eq, Hash)]
pub struct NewExpr {
    pub syntax: SyntaxNode,
}

impl NewExpr {
    pub fn new_token(&self) -> (r: SyntaxResult<SyntaxToken>)
        ensures
            mandatory_token_ens(self.syntax@, SyntaxKind::NewKw, r),
    {
        as_mandatory_token(&self.syntax, SyntaxKind::NewKw)
    }

    pub fn type_args(&self) -> (r: Option<TsTypeArgs>)
        ensures
            optional_node_ens::<TsTypeArgs>(self.syntax@, r),
    {
        as_optional_node::<TsTypeArgs>(&self.syntax)
    }

    pub fn object(&self) -> (r: SyntaxResult<Expr>)
        ensures
            mandatory_node_ens::<Expr>(self.syntax@, r),
    {
        as_mandatory_node::<Expr>(&self.syntax)
    }

    pub fn arguments(&self) -> (r: SyntaxResult<ArgList>)
        ensures
            mandatory_node_ens::<ArgList>(self.syntax@, r),
    {
        as_mandatory_node::<ArgList>(&self.syntax)
    }
}

impl AstNode for NewExpr {
    open spec fn spec_can_cast(kind: SyntaxKind) -> bool {
        kind == SyntaxKind::NewExpr
    }

    open spec fn spec_node(&self) -> SyntaxNodeV {
        self.syntax@
    }

    fn can_cast(kind: SyntaxKind) -> (r: bool) {
        kind == SyntaxKind::NewExpr
    }

    fn cast(syntax: SyntaxNode) -> (r: Option<Self>) {
        if syntax.kind == SyntaxKind::NewExpr {
            Some(NewExpr { syntax })
        } else {
            None
        }
    }

    fn syntax(&self) -> (r: &SyntaxNode) {
        &self.syntax
    }
}

/// Typed wrapper for a `SyntaxKind::CallExpr` node.
#[derive(Debug, Clone, PartialEq, Eq, Hash)]
pub struct CallExpr {
    pub syntax: SyntaxNode,
}

impl CallExpr {
    pub fn type_args(&self) -> (r: Option<TsTypeArgs>)
        ensures
            optional_node_ens::<TsTypeArgs>(self.syntax@, r),
    {
        as_optional_node::<TsTypeArgs>(&self.syntax)
    }

    pub fn callee(&self) -> (r: SyntaxResult<Expr>)
        ensures
            mandatory_node_ens::<Expr>(self.syntax@, r),
    {
        as_mandatory_node::<Expr>(&self.syntax)
    }

    pub fn arguments(&self) -> (r: SyntaxResult<ArgList>)
        ensures
            mandatory_node_ens::<ArgList>(self.syntax@, r),
    {
        as_mandatory_node::<ArgList>(&self.syntax)
    }
}

impl AstNode for CallExpr {
    open spec fn spec_can_cast(kind: SyntaxKind) -> bool {
        kind == SyntaxKind::CallExpr
    }

    open spec fn spec_node(&self) -> SyntaxNodeV {
        self.syntax@
    }

    fn can_cast(kind: SyntaxKind) -> (r: bool) {
        kind == SyntaxKind::CallExpr
    }

    fn cast(syntax: SyntaxNode) -> (r: Option<Self>) {
        if syntax.kind == SyntaxKind::CallExpr {
            Some(CallExpr { syntax })
        } else {
            None
        }
    }

    fn syntax(&self) -> (r: &SyntaxNode) {
        &self.syntax
    }
}

/// Typed wrapper for a `SyntaxKind::UnaryExpr` node.
#[derive(Debug, Clone, PartialEq, Eq, Hash)]
pub struct UnaryExpr {
    pub syntax: SyntaxNode,
}

impl UnaryExpr {
    pub fn operator(&self) -> (r: Option<SyntaxToken>)
        ensures
            find_token_ens(self.syntax@, unary_expr_operator_kinds(), r),
    {
        let mut kinds: Vec<SyntaxKind> = Vec::new();
        kinds.push(SyntaxKind::DeleteKw);
        kinds.push(SyntaxKind::VoidKw);
        kinds.push(SyntaxKind::TypeofKw);
        kinds.push(SyntaxKind::Plus);
        kinds.push(SyntaxKind::Minus);
        kinds.push(SyntaxKind::Tilde);
        kinds.push(SyntaxKind::Bang);
        kinds.push(SyntaxKind::AwaitKw);
        proof {
            assert(kinds@ =~= unary_expr_operator_kinds());
        }
        find_token(&self.syntax, kinds.as_slice())
    }

    pub fn argument(&self) -> (r: SyntaxResult<Expr>)
        ensures
            mandatory_node_ens::<Expr>(self.syntax@, r),
    {
        as_mandatory_node::<Expr>(&self.syntax)
    }
}

impl AstNode for UnaryExpr {
    open spec fn spec_can_cast(kind: SyntaxKind) -> bool {
        kind == SyntaxKind::UnaryExpr
    }

    open spec fn spec_node(&self) -> SyntaxNodeV {
        self.syntax@
    }

    fn can_cast(kind: SyntaxKind) -> (r: bool) {
        kind == SyntaxKind::UnaryExpr
    }

    fn cast(syntax: SyntaxNode) -> (r: Option<Self>) {
        if syntax.kind == SyntaxKind::UnaryExpr {
            Some(UnaryExpr { syntax })
        } else {
            None
        }
    }

    fn syntax(&self) -> (r: &SyntaxNode) {
        &self.syntax
    }
}

/// Typed wrapper for a `SyntaxKind::PreUpdateExpression` node.
#[derive(Debug, Clone, PartialEq, Eq, Hash)]
pub struct PreUpdateExpression {
    pub syntax: SyntaxNode,
}

impl PreUpdateExpression {
    pub fn operator(&self) -> (r: Option<SyntaxToken>)
        ensures
            find_token_ens(self.syntax@, pre_update_expression_operator_kinds(), r),
    {
        let mut kinds: Vec<SyntaxKind> = Vec::new();
        kinds.push(SyntaxKind::PlusPlus);
        kinds.push(SyntaxKind::MinusMinus);
        proof {
            assert(kinds@ =~= pre_update_expression_operator_kinds());
        }
        find_token(&self.syntax, kinds.as_slice())
    }

    pub fn operand(&self) -> (r: SyntaxResult<Expr>)
        ensures
            mandatory_node_ens::<Expr>(self.syntax@, r),
    {
        as_mandatory_node::<Expr>(&self.syntax)
    }
}

impl AstNode for PreUpdateExpression {
    open spec fn spec_can_cast(kind: SyntaxKind) -> bool {
        kind == SyntaxKind::PreUpdateExpression
    }

    open spec fn spec_node(&self) -> SyntaxNodeV {
        self.syntax@
    }

    fn can_cast(kind: SyntaxKind) -> (r: bool) {
        kind == SyntaxKind::PreUpdateExpression
    }

    fn cast(syntax: SyntaxNode) -> (r: Option<Self>) {
        if syntax.kind == SyntaxKind::PreUpdateExpression {
            Some(PreUpdateExpression { syntax })
        } else {
            None
        }
    }

    fn syntax(&self) -> (r: &SyntaxNode) {
        &self.syntax
    }
}

/// Typed wrapper for a `SyntaxKind::PostUpdateExpression` node.
#[derive(Debug, Clone, PartialEq, Eq, Hash)]
pub struct PostUpdateExpression {
    pub syntax: SyntaxNode,
}

impl PostUpdateExpression {
    pub fn operand(&self) -> (r: SyntaxResult<Expr>)
        ensures
            mandatory_node_ens::<Expr>(self.syntax@, r),
    {
        as_mandatory_node::<Expr>(&self.syntax)
    }

    pub fn operator(&self) -> (r: Option<SyntaxToken>)
        ensures
            find_token_ens(self.syntax@, post_update_expression_operator_kinds(), r),
    {
        let mut kinds: Vec<SyntaxKind> = Vec::new();
        kinds.push(SyntaxKind::PlusPlus);
        kinds.push(SyntaxKind::MinusMinus);
        proof {
            assert(kinds@ =~= post_update_expression_operator_kinds());
        }
        find_token(&self.syntax, kinds.as_slice())
    }
}

impl AstNode for PostUpdateExpression {
    open spec fn spec_can_cast(kind: SyntaxKind) -> bool {
        kind == SyntaxKind::PostUpdateExpression
    }

    open spec fn spec_node(&self) -> SyntaxNodeV {
        self.syntax@
    }

    fn can_cast(kind: SyntaxKind) -> (r: bool) {
        kind == SyntaxKind::PostUpdateExpression
    }

    fn cast(syntax: SyntaxNode) -> (r: Option<Self>) {
        if syntax.kind == SyntaxKind::PostUpdateExpression {
            Some(PostUpdateExpression { syntax })
        } else {
            None
        }
    }

    fn syntax(&self) -> (r: &SyntaxNode) {
        &self.syntax
    }
}

/// Typed wrapper for a `SyntaxKind::BinExpr` node.
#[derive(Debug, Clone, PartialEq, Eq, Hash)]
pub struct BinExpr {
    pub syntax: SyntaxNode,
}

impl BinExpr {
    pub fn operator(&self) -> (r: Option<SyntaxToken>)
        ensures
            find_token_ens(self.syntax@, bin_expr_operator_kinds(), r),
    {
        let mut kinds: Vec<SyntaxKind> = Vec::new();
        kinds.push(SyntaxKind::LAngle);
        kinds.push(SyntaxKind::RAngle);
        kinds.push(SyntaxKind::LtEq);
        kinds.push(SyntaxKind::GtEq);
        kinds.push(SyntaxKind::EqEq);
        kinds.push(SyntaxKind::EqEqEq);
        kinds.push(SyntaxKind::Neq);
        kinds.push(SyntaxKind::NeqStrict);
        kinds.push(SyntaxKind::Plus);
        kinds.push(SyntaxKind::Minus);
        kinds.push(SyntaxKind::Star);
        kinds.push(SyntaxKind::Slash);
        kinds.push(SyntaxKind::Percent);
        kinds.push(SyntaxKind::StarStar);
        kinds.push(SyntaxKind::Shl);
        kinds.push(SyntaxKind::Shr);
        kinds.push(SyntaxKind::UShr);
        kinds.push(SyntaxKind::Amp);
        kinds.push(SyntaxKind::Pipe);
        kinds.push(SyntaxKind::Caret);
        kinds.push(SyntaxKind::QuestionQuestion);
        kinds.push(SyntaxKind::PipePipe);
        kinds.push(SyntaxKind::AmpAmp);
        kinds.push(SyntaxKind::InKw);
        kinds.push(SyntaxKind::InstanceofKw);
        proof {
            assert(kinds@ =~= bin_expr_operator_kinds());
        }
        find_token(&self.syntax, kinds.as_slice())
    }
}

impl AstNode for BinExpr {
    open spec fn spec_can_cast(kind: SyntaxKind) -> bool {
        kind == SyntaxKind::BinExpr
    }

    open spec fn spec_node(&self) -> SyntaxNodeV {
        self.syntax@
    }

    fn can_cast(kind: SyntaxKind) -> (r: bool) {
        kind == SyntaxKind::BinExpr
    }

    fn cast(syntax: SyntaxNode) -> (r: Option<Self>) {
        if syntax.kind == SyntaxKind::BinExpr {
            Some(BinExpr { syntax })
        } else {
            None
        }
    }

    fn syntax(&self) -> (r: &SyntaxNode) {
        &self.syntax
    }
}

/// Typed wrapper for a `SyntaxKind::CondExpr` node.
#[derive(Debug, Clone, PartialEq, Eq, Hash)]
pub struct CondExpr {
    pub syntax: SyntaxNode,
}

impl CondExpr {
    pub fn question_mark_token(&self) -> (r: SyntaxResult<SyntaxToken>)
        ensures
            mandatory_token_ens(self.syntax@, SyntaxKind::QuestionMark, r),
    {
        as_mandatory_token(&self.syntax, SyntaxKind::QuestionMark)
    }

    pub fn colon_token(&self) -> (r: SyntaxResult<SyntaxToken>)
        ensures
            mandatory_token_ens(self.syntax@, SyntaxKind::Colon, r),
    {
        as_mandatory_token(&self.syntax, SyntaxKind::Colon)
    }
}

impl AstNode for CondExpr {
    open spec fn spec_can_cast(kind: SyntaxKind) -> bool {
        kind == SyntaxKind::CondExpr
    }

    open spec fn spec_node(&self) -> SyntaxNodeV {
        self.syntax@
    }

    fn can_cast(kind: SyntaxKind) -> (r: bool) {
        kind == SyntaxKind::CondExpr
    }

    fn cast(syntax: SyntaxNode) -> (r: Option<Self>) {
        if syntax.kind == SyntaxKind::CondExpr {
            Some(CondExpr { syntax })
        } else {
            None
        }
    }

    fn syntax(&self) -> (r: &SyntaxNode) {
        &self.syntax
    }
}

/// Typed wrapper for a `SyntaxKind::AssignExpr` node.
#[derive(Debug, Clone, PartialEq, Eq, Hash)]
pub struct AssignExpr {
    pub syntax: SyntaxNode,
}

impl AssignExpr {
    pub fn operator(&self) -> (r: Option<SyntaxToken>)
        ensures
            find_token_ens(self.syntax@, assign_expr_operator_kinds(), r),
    {
        let mut kinds: Vec<SyntaxKind> = Vec::new();
        kinds.push(SyntaxKind::Assign);
        kinds.push(SyntaxKind::PlusEq);
        kinds.push(SyntaxKind::MinusEq);
        kinds.push(SyntaxKind::StarEq);
        kinds.push(SyntaxKind::PercentEq);
        kinds.push(SyntaxKind::StarStarEq);
        kinds.push(SyntaxKind::ShrEq);
        kinds.push(SyntaxKind::ShlEq);
        kinds.push(SyntaxKind::UShrEq);
        kinds.push(SyntaxKind::AmpEq);
        kinds.push(SyntaxKind::PipeEq);
        kinds.push(SyntaxKind::CaretEq);
        kinds.push(SyntaxKind::AmpAmpEq);
        kinds.push(SyntaxKind::PipePipeEq);
        kinds.push(SyntaxKind::QuestionQuestionEq);
        proof {
            assert(kinds@ =~= assign_expr_operator_kinds());
        }
        find_token(&self.syntax, kinds.as_slice())
    }
}

impl AstNode for AssignExpr {
    open spec fn spec_can_cast(kind: SyntaxKind) -> bool {
        kind == SyntaxKind::AssignExpr
    }

    open spec fn spec_node(&self) -> SyntaxNodeV {
        self.syntax@
    }

    fn can_cast(kind: SyntaxKind) -> (r: bool) {
        kind == SyntaxKind::AssignExpr
    }

    fn cast(syntax: SyntaxNode) -> (r: Option<Self>) {
        if syntax.kind == SyntaxKind::AssignExpr {
            Some(AssignExpr { syntax })
        } else {
            None
        }
    }

    fn syntax(&self) -> (r: &SyntaxNode) {
        &self.syntax
    }
}

/// Typed wrapper for a `SyntaxKind::SequenceExpr` node.
#[derive(Debug, Clone, PartialEq, Eq, Hash)]
pub struct SequenceExpr {
    pub syntax: SyntaxNode,
}

impl SequenceExpr {
    pub fn exprs(&self) -> (r: AstSeparatedList<Expr>)
        ensures
            node_list_ens::<Expr>(self.syntax@, r@),
    {
        separated_list::<Expr>(&self.syntax)
    }

    pub fn bin_expr(&self) -> (r: SyntaxResult<BinExpr>)
        ensures
            mandatory_node_ens::<BinExpr>(self.syntax@, r),
    {
        as_mandatory_node::<BinExpr>(&self.syntax)
    }
}

impl AstNode for SequenceExpr {
    open spec fn spec_can_cast(kind: SyntaxKind) -> bool {
        kind == SyntaxKind::SequenceExpr
    }

    open spec fn spec_node(&self) -> SyntaxNodeV {
        self.syntax@
    }

    fn can_cast(kind: SyntaxKind) -> (r: bool) {
        kind == SyntaxKind::SequenceExpr
    }

    fn cast(syntax: SyntaxNode) -> (r: Option<Self>) {
        if syntax.kind == SyntaxKind::SequenceExpr {
            Some(SequenceExpr { syntax })
        } else {
            None
        }
    }

    fn syntax(&self) -> (r: &SyntaxNode) {
        &self.syntax
    }
}

/// Typed wrapper for a `SyntaxKind::FnExpr` node.
#[derive(Debug, Clone, PartialEq, Eq, Hash)]
pub struct FnExpr {
    pub syntax: SyntaxNode,
}

impl FnExpr {
    pub fn async_token(&self) -> (r: Option<SyntaxToken>)
        ensures
            optional_token_ens(self.syntax@, SyntaxKind::AsyncKw, r),
    {
        as_optional_token(&self.syntax, SyntaxKind::AsyncKw)
    }

    pub fn function_token(&self) -> (r: SyntaxResult<SyntaxToken>)
        ensures
            mandatory_token_ens(self.syntax@, SyntaxKind::FunctionKw, r),
    {
        as_mandatory_token(&self.syntax, SyntaxKind::FunctionKw)
    }

    pub fn star_token(&self) -> (r: Option<SyntaxToken>)
        ensures
            optional_token_ens(self.syntax@, SyntaxKind::Star, r),
    {
        as_optional_token(&self.syntax, SyntaxKind::Star)
    }

    pub fn name(&self) -> (r: SyntaxResult<Name>)
        ensures
            mandatory_node_ens::<Name>(self.syntax@, r),
    {
        as_mandatory_node::<Name>(&self.syntax)
    }

    pub fn type_params(&self) -> (r: Option<TsTypeParams>)
        ensures
            optional_node_ens::<TsTypeParams>(self.syntax@, r),
    {
        as_optional_node::<TsTypeParams>(&self.syntax)
    }

    pub fn parameters(&self) -> (r: SyntaxResult<ArgList>)
        ensures
            mandatory_node_ens::<ArgList>(self.syntax@, r),
    {
        as_mandatory_node::<ArgList>(&self.syntax)
    }

    pub fn colon_token(&self) -> (r: Option<SyntaxToken>)
        ensures
            optional_token_ens(self.syntax@, SyntaxKind::Colon, r),
    {
        as_optional_token(&self.syntax, SyntaxKind::Colon)
    }

    pub fn return_type(&self) -> (r: Option<TsType>)
        ensures
            optional_node_ens::<TsType>(self.syntax@, r),
    {
        as_optional_node::<TsType>(&self.syntax)
    }

    pub fn body(&self) -> (r: SyntaxResult<BlockStmt>)
        ensures
            mandatory_node_ens::<BlockStmt>(self.syntax@, r),
    {
        as_mandatory_node::<BlockStmt>(&self.syntax)
    }
}

impl AstNode for FnExpr {
    open spec fn spec_can_cast(kind: SyntaxKind) -> bool {
        kind == SyntaxKind::FnExpr
    }

    open spec fn spec_node(&self) -> SyntaxNodeV {
        self.syntax@
    }

    fn can_cast(kind: SyntaxKind) -> (r: bool) {
        kind == SyntaxKind::FnExpr
    }

    fn cast(syntax: SyntaxNode) -> (r: Option<Self>) {
        if syntax.kind == SyntaxKind::FnExpr {
            Some(FnExpr { syntax })
        } else {
            None
        }
    }

    fn syntax(&self) -> (r: &SyntaxNode) {
        &self.syntax
    }
}

/// Typed wrapper for a `SyntaxKind::ClassExpr` node.
#[derive(Debug, Clone, PartialEq, Eq, Hash)]
pub struct ClassExpr {
    pub syntax: SyntaxNode,
}

impl ClassExpr {
    pub fn class_token(&self) -> (r: SyntaxResult<SyntaxToken>)
        ensures
            mandatory_token_ens(self.syntax@, SyntaxKind::ClassKw, r),
    {
        as_mandatory_token(&self.syntax, SyntaxKind::ClassKw)
    }

    pub fn name(&self) -> (r: SyntaxResult<Name>)
        ensures
            mandatory_node_ens::<Name>(self.syntax@, r),
    {
        as_mandatory_node::<Name>(&self.syntax)
    }

    pub fn type_params(&self) -> (r: Option<TsTypeParams>)
        ensures
            optional_node_ens::<TsTypeParams>(self.syntax@, r),
    {
        as_optional_node::<TsTypeParams>(&self.syntax)
    }

    pub fn parent(&self) -> (r: Option<Expr>)
        ensures
            optional_node_ens::<Expr>(self.syntax@, r),
    {
        as_optional_node::<Expr>(&self.syntax)
    }

    pub fn implements_token(&self) -> (r: Option<SyntaxToken>)
        ensures
            optional_token_ens(self.syntax@, SyntaxKind::ImplementsKw, r),
    {
        as_optional_token(&self.syntax, SyntaxKind::ImplementsKw)
    }

    pub fn implements(&self) -> (r: Option<TsExprWithTypeArgs>)
        ensures
            optional_node_ens::<TsExprWithTypeArgs>(self.syntax@, r),
    {
        as_optional_node::<TsExprWithTypeArgs>(&self.syntax)
    }

    pub fn body(&self) -> (r: SyntaxResult<ClassBody>)
        ensures
            mandatory_node_ens::<ClassBody>(self.syntax@, r),
    {
        as_mandatory_node::<ClassBody>(&self.syntax)
    }
}

impl AstNode for ClassExpr {
    open spec fn spec_can_cast(kind: SyntaxKind) -> bool {
        kind == SyntaxKind::ClassExpr
    }

    open spec fn spec_node(&self) -> SyntaxNodeV {
        self.syntax@
    }

    fn can_cast(kind: SyntaxKind) -> (r: bool) {
        kind == SyntaxKind::ClassExpr
    }

    fn cast(syntax: SyntaxNode) -> (r: Option<Self>) {
        if syntax.kind == SyntaxKind::ClassExpr {
            Some(ClassExpr { syntax })
        } else {
            None
        }
    }

    fn syntax(&self) -> (r: &SyntaxNode) {
        &self.syntax
    }
}

/// Typed wrapper for a `SyntaxKind::NewTarget` node.
#[derive(Debug, Clone, PartialEq, Eq, Hash)]
pub struct NewTarget {
    pub syntax: SyntaxNode,
}

impl NewTarget {
    pub fn new_token(&self) -> (r: SyntaxResult<SyntaxToken>)
        ensures
            mandatory_token_ens(self.syntax@, SyntaxKind::NewKw, r),
    {
        as_mandatory_token(&self.syntax, SyntaxKind::NewKw)
    }

    pub fn dot_token(&self) -> (r: SyntaxResult<SyntaxToken>)
        ensures
            mandatory_token_ens(self.syntax@, SyntaxKind::Dot, r),
    {
        as_mandatory_token(&self.syntax, SyntaxKind::Dot)
    }

    pub fn target_token(&self) -> (r: SyntaxResult<SyntaxToken>)
        ensures
            mandatory_token_ens(self.syntax@, SyntaxKind::TargetKw, r),
    {
        as_mandatory_token(&self.syntax, SyntaxKind::TargetKw)
    }
}

impl AstNode for NewTarget {
    open spec fn spec_can_cast(kind: SyntaxKind) -> bool {
        kind == SyntaxKind::NewTarget
    }

    open spec fn spec_node(&self) -> SyntaxNodeV {
        self.syntax@
    }

    fn can_cast(kind: SyntaxKind) -> (r: bool) {
        kind == SyntaxKind::NewTarget
    }

    fn cast(syntax: SyntaxNode) -> (r: Option<Self>) {
        if syntax.kind == SyntaxKind::NewTarget {
            Some(NewTarget { syntax })
        } else {
            None
        }
    }

    fn syntax(&self) -> (r: &SyntaxNode) {
        &self.syntax
    }
}

/// Typed wrapper for a `SyntaxKind::ImportMeta` node.
#[derive(Debug, Clone, PartialEq, Eq, Hash)]
pub struct ImportMeta {
    pub syntax: SyntaxNode,
}

impl ImportMeta {
    pub fn import_token(&self) -> (r: SyntaxResult<SyntaxToken>)
        ensures
            mandatory_token_ens(self.syntax@, SyntaxKind::ImportKw, r),
    {
        as_mandatory_token(&self.syntax, SyntaxKind::ImportKw)
    }

    pub fn dot_token(&self) -> (r: SyntaxResult<SyntaxToken>)
        ensures
            mandatory_token_ens(self.syntax@, SyntaxKind::Dot, r),
    {
        as_mandatory_token(&self.syntax, SyntaxKind::Dot)
    }
}

impl AstNode for ImportMeta {
    open spec fn spec_can_cast(kind: SyntaxKind) -> bool {
        kind == SyntaxKind::ImportMeta
    }

    open spec fn spec_node(&self) -> SyntaxNodeV {
        self.syntax@
    }

    fn can_cast(kind: SyntaxKind) -> (r: bool) {
        kind == SyntaxKind::ImportMeta
    }

    fn cast(syntax: SyntaxNode) -> (r: Option<Self>) {
        if syntax.kind == SyntaxKind::ImportMeta {
            Some(ImportMeta { syntax })
        } else {
            None
        }
    }

    fn syntax(&self) -> (r: &SyntaxNode) {
        &self.syntax
    }
}

/// Typed wrapper for a `SyntaxKind::SuperCall` node.
#[derive(Debug, Clone, PartialEq, Eq, Hash)]
pub struct SuperCall {
    pub syntax: SyntaxNode,
}

impl SuperCall {
    pub fn super_token(&self) -> (r: SyntaxResult<SyntaxToken>)
        ensures
            mandatory_token_ens(self.syntax@, SyntaxKind::SuperKw, r),
    {
        as_mandatory_token(&self.syntax, SyntaxKind::SuperKw)
    }

    pub fn arguments(&self) -> (r: SyntaxResult<ArgList>)
        ensures
            mandatory_node_ens::<ArgList>(self.syntax@, r),
    {
        as_mandatory_node::<ArgList>(&self.syntax)
    }
}

impl AstNode for SuperCall {
    open spec fn spec_can_cast(kind: SyntaxKind) -> bool {
        kind == SyntaxKind::SuperCall
    }

    open spec fn spec_node(&self) -> SyntaxNodeV {
        self.syntax@
    }

    fn can_cast(kind: SyntaxKind) -> (r: bool) {
        kind == SyntaxKind::SuperCall
    }

    fn cast(syntax: SyntaxNode) -> (r: Option<Self>) {
        if syntax.kind == SyntaxKind::SuperCall {
            Some(SuperCall { syntax })
        } else {
            None
        }
    }

    fn syntax(&self) -> (r: &SyntaxNode) {
        &self.syntax
    }
}

/// Typed wrapper for a `SyntaxKind::ImportCall` node.
#[derive(Debug, Clone, PartialEq, Eq, Hash)]
pub struct ImportCall {
    pub syntax: SyntaxNode,
}

impl ImportCall {
    pub fn import_token(&self) -> (r: SyntaxResult<SyntaxToken>)
        ensures
            mandatory_token_ens(self.syntax@, SyntaxKind::ImportKw, r),
    {
        as_mandatory_token(&self.syntax, SyntaxKind::ImportKw)
    }

    pub fn l_paren_token(&self) -> (r: SyntaxResult<SyntaxToken>)
        ensures
            mandatory_token_ens(self.syntax@, SyntaxKind::LParen, r),
    {
        as_mandatory_token(&self.syntax, SyntaxKind::LParen)
    }

    pub fn argument(&self) -> (r: SyntaxResult<Expr>)
        ensures
            mandatory_node_ens::<Expr>(self.syntax@, r),
    {
        as_mandatory_node::<Expr>(&self.syntax)
    }

    pub fn r_paren_token(&self) -> (r: SyntaxResult<SyntaxToken>)
        ensures
            mandatory_token_ens(self.syntax@, SyntaxKind::RParen, r),
    {
        as_mandatory_token(&self.syntax, SyntaxKind::RParen)
    }
}

impl AstNode for ImportCall {
    open spec fn spec_can_cast(kind: SyntaxKind) -> bool {
        kind == SyntaxKind::ImportCall
    }

    open spec fn spec_node(&self) -> SyntaxNodeV {
        self.syntax@
    }

    fn can_cast(kind: SyntaxKind) -> (r: bool) {
        kind == SyntaxKind::ImportCall
    }

    fn cast(syntax: SyntaxNode) -> (r: Option<Self>) {
        if syntax.kind == SyntaxKind::ImportCall {
            Some(ImportCall { syntax })
        } else {
            None
        }
    }

    fn syntax(&self) -> (r: &SyntaxNode) {
        &self.syntax
    }
}

/// Typed wrapper for a `SyntaxKind::YieldExpr` node.
#[derive(Debug, Clone, PartialEq, Eq, Hash)]
pub struct YieldExpr {
    pub syntax: SyntaxNode,
}

impl YieldExpr {
    pub fn yield_token(&self) -> (r: SyntaxResult<SyntaxToken>)
        ensures
            mandatory_token_ens(self.syntax@, SyntaxKind::YieldKw, r),
    {
        as_mandatory_token(&self.syntax, SyntaxKind::YieldKw)
    }

    pub fn star_token(&self) -> (r: Option<SyntaxToken>)
        ensures
            optional_token_ens(self.syntax@, SyntaxKind::Star, r),
    {
        as_optional_token(&self.syntax, SyntaxKind::Star)
    }

    pub fn value(&self) -> (r: SyntaxResult<Expr>)
        ensures
            mandatory_node_ens::<Expr>(self.syntax@, r),
    {
        as_mandatory_node::<Expr>(&self.syntax)
    }
}

impl AstNode for YieldExpr {
    open spec fn spec_can_cast(kind: SyntaxKind) -> bool {
        kind == SyntaxKind::YieldExpr
    }

    open spec fn spec_node(&self) -> SyntaxNodeV {
        self.syntax@
    }

    fn can_cast(kind: SyntaxKind) -> (r: bool) {
        kind == SyntaxKind::YieldExpr
    }

    fn cast(syntax: SyntaxNode) -> (r: Option<Self>) {
        if syntax.kind == SyntaxKind::YieldExpr {
            Some(YieldExpr { syntax })
        } else {
            None
        }
    }

    fn syntax(&self) -> (r: &SyntaxNode) {
        &self.syntax
    }
}

/// Typed wrapper for a `SyntaxKind::AwaitExpr` node.
#[derive(Debug, Clone, PartialEq, Eq, Hash)]
pub struct AwaitExpr {
    pub syntax: SyntaxNode,
}

impl AwaitExpr {
    pub fn await_token(&self) -> (r: SyntaxResult<SyntaxToken>)
        ensures
            mandatory_token_ens(self.syntax@, SyntaxKind::AwaitKw, r),
    {
        as_mandatory_token(&self.syntax, SyntaxKind::AwaitKw)
    }

    pub fn expr(&self) -> (r: SyntaxResult<Expr>)
        ensures
            mandatory_node_ens::<Expr>(self.syntax@, r),
    {
        as_mandatory_node::<Expr>(&self.syntax)
    }
}

impl AstNode for AwaitExpr {
    open spec fn spec_can_cast(kind: SyntaxKind) -> bool {
        kind == SyntaxKind::AwaitExpr
    }

    open spec fn spec_node(&self) -> SyntaxNodeV {
        self.syntax@
    }

    fn can_cast(kind: SyntaxKind) -> (r: bool) {
        kind == SyntaxKind::AwaitExpr
    }

    fn cast(syntax: SyntaxNode) -> (r: Option<Self>) {
        if syntax.kind == SyntaxKind::AwaitExpr {
            Some(AwaitExpr { syntax })
        } else {
            None
        }
    }

    fn syntax(&self) -> (r: &SyntaxNode) {
        &self.syntax
    }
}

/// Typed wrapper for a `SyntaxKind::PrivatePropAccess` node.
#[derive(Debug, Clone, PartialEq, Eq, Hash)]
pub struct PrivatePropAccess {
    pub syntax: SyntaxNode,
}

impl PrivatePropAccess {
    pub fn lhs(&self) -> (r: SyntaxResult<Expr>)
        ensures
            mandatory_node_ens::<Expr>(self.syntax@, r),
    {
        as_mandatory_node::<Expr>(&self.syntax)
    }

    pub fn dot_token(&self) -> (r: SyntaxResult<SyntaxToken>)
        ensures
            mandatory_token_ens(self.syntax@, SyntaxKind::Dot, r),
    {
        as_mandatory_token(&self.syntax, SyntaxKind::Dot)
    }

    pub fn rhs(&self) -> (r: SyntaxResult<PrivateName>)
        ensures
            mandatory_node_ens::<PrivateName>(self.syntax@, r),
    {
        as_mandatory_node::<PrivateName>(&self.syntax)
    }
}

impl AstNode for PrivatePropAccess {
    open spec fn spec_can_cast(kind: SyntaxKind) -> bool {
        kind == SyntaxKind::PrivatePropAccess
    }

    open spec fn spec_node(&self) -> SyntaxNodeV {
        self.syntax@
    }

    fn can_cast(kind: SyntaxKind) -> (r: bool) {
        kind == SyntaxKind::PrivatePropAccess
    }

    fn cast(syntax: SyntaxNode) -> (r: Option<Self>) {
        if syntax.kind == SyntaxKind::PrivatePropAccess {
            Some(PrivatePropAccess { syntax })
        } else {
            None
        }
    }

    fn syntax(&self) -> (r: &SyntaxNode) {
        &self.syntax
    }
}

/// Typed wrapper for a `SyntaxKind::TsNonNull` node.
#[derive(Debug, Clone, PartialEq, Eq, Hash)]
pub struct TsNonNull {
    pub syntax: SyntaxNode,
}

impl TsNonNull {
    pub fn expr(&self) -> (r: SyntaxResult<Expr>)
        ensures
            mandatory_node_ens::<Expr>(self.syntax@, r),
    {
        as_mandatory_node::<Expr>(&self.syntax)
    }

    pub fn excl_token(&self) -> (r: SyntaxResult<SyntaxToken>)
        ensures
            mandatory_token_ens(self.syntax@, SyntaxKind::Bang, r),
    {
        as_mandatory_token(&self.syntax, SyntaxKind::Bang)
    }
}

impl AstNode for TsNonNull {
    open spec fn spec_can_cast(kind: SyntaxKind) -> bool {
        kind == SyntaxKind::TsNonNull
    }

    open spec fn spec_node(&self) -> SyntaxNodeV {
        self.syntax@
    }

    fn can_cast(kind: SyntaxKind) -> (r: bool) {
        kind == SyntaxKind::TsNonNull
    }

    fn cast(syntax: SyntaxNode) -> (r: Option<Self>) {
        if syntax.kind == SyntaxKind::TsNonNull {
            Some(TsNonNull { syntax })
        } else {
            None
        }
    }

    fn syntax(&self) -> (r: &SyntaxNode) {
        &self.syntax
    }
}

/// Typed wrapper for a `SyntaxKind::TsAssertion` node.
#[derive(Debug, Clone, PartialEq, Eq, Hash)]
pub struct TsAssertion {
    pub syntax: SyntaxNode,
}

impl TsAssertion {
    pub fn expr(&self) -> (r: SyntaxResult<Expr>)
        ensures
            mandatory_node_ens::<Expr>(self.syntax@, r),
    {
        as_mandatory_node::<Expr>(&self.syntax)
    }

    pub fn ident(&self) -> (r: SyntaxResult<Ident>)
        ensures
            mandatory_node_ens::<Ident>(self.syntax@, r),
    {
        as_mandatory_node::<Ident>(&self.syntax)
    }

    pub fn l_angle_token(&self) -> (r: SyntaxResult<SyntaxToken>)
        ensures
            mandatory_token_ens(self.syntax@, SyntaxKind::LAngle, r),
    {
        as_mandatory_token(&self.syntax, SyntaxKind::LAngle)
    }

    pub fn ty(&self) -> (r: SyntaxResult<TsType>)
        ensures
            mandatory_node_ens::<TsType>(self.syntax@, r),
    {
        as_mandatory_node::<TsType>(&self.syntax)
    }

    pub fn r_angle_token(&self) -> (r: SyntaxResult<SyntaxToken>)
        ensures
            mandatory_token_ens(self.syntax@, SyntaxKind::RAngle, r),
    {
        as_mandatory_token(&self.syntax, SyntaxKind::RAngle)
    }
}

impl AstNode for TsAssertion {
    open spec fn spec_can_cast(kind: SyntaxKind) -> bool {
        kind == SyntaxKind::TsAssertion
    }

    open spec fn spec_node(&self) -> SyntaxNodeV {
        self.syntax@
    }

    fn can_cast(kind: SyntaxKind) -> (r: bool) {
        kind == SyntaxKind::TsAssertion
    }

    fn cast(syntax: SyntaxNode) -> (r: Option<Self>) {
        if syntax.kind == SyntaxKind::TsAssertion {
            Some(TsAssertion { syntax })
        } else {
            None
        }
    }

    fn syntax(&self) -> (r: &SyntaxNode) {
        &self.syntax
    }
}

/// Typed wrapper for a `SyntaxKind::TsConstAssertion` node.
#[derive(Debug, Clone, PartialEq, Eq, Hash)]
pub struct TsConstAssertion {
    pub syntax: SyntaxNode,
}

impl TsConstAssertion {
    pub fn expr(&self) -> (r: SyntaxResult<Expr>)
        ensures
            mandatory_node_ens::<Expr>(self.syntax@, r),
    {
        as_mandatory_node::<Expr>(&self.syntax)
    }

    pub fn ident(&self) -> (r: SyntaxResult<Ident>)
        ensures
            mandatory_node_ens::<Ident>(self.syntax@, r),
    {
        as_mandatory_node::<Ident>(&self.syntax)
    }

    pub fn l_angle_token(&self) -> (r: SyntaxResult<SyntaxToken>)
        ensures
            mandatory_token_ens(self.syntax@, SyntaxKind::LAngle, r),
    {
        as_mandatory_token(&self.syntax, SyntaxKind::LAngle)
    }

    pub fn const_token(&self) -> (r: SyntaxResult<SyntaxToken>)
        ensures
            mandatory_token_ens(self.syntax@, SyntaxKind::ConstKw, r),
    {
        as_mandatory_token(&self.syntax, SyntaxKind::ConstKw)
    }

    pub fn r_angle_token(&self) -> (r: SyntaxResult<SyntaxToken>)
        ensures
            mandatory_token_ens(self.syntax@, SyntaxKind::RAngle, r),
    {
        as_mandatory_token(&self.syntax, SyntaxKind::RAngle)
    }
}

impl AstNode for TsConstAssertion {
    open spec fn spec_can_cast(kind: SyntaxKind) -> bool {
        kind == SyntaxKind::TsConstAssertion
    }

    open spec fn spec_node(&self) -> SyntaxNodeV {
        self.syntax@
    }

    fn can_cast(kind: SyntaxKind) -> (r: bool) {
        kind == SyntaxKind::TsConstAssertion
    }

    fn cast(syntax: SyntaxNode) -> (r: Option<Self>) {
        if syntax.kind == SyntaxKind::TsConstAssertion {
            Some(TsConstAssertion { syntax })
        } else {
            None
        }
    }

    fn syntax(&self) -> (r: &SyntaxNode) {
        &self.syntax
    }
}

/// Typed wrapper for a `SyntaxKind::TsTypeArgs` node.
#[derive(Debug, Clone, PartialEq, Eq, Hash)]
pub struct TsTypeArgs {
    pub syntax: SyntaxNode,
}

impl TsTypeArgs {
    pub fn l_angle_token(&self) -> (r: SyntaxResult<SyntaxToken>)
        ensures
            mandatory_token_ens(self.syntax@, SyntaxKind::LAngle, r),
    {
        as_mandatory_token(&self.syntax, SyntaxKind::LAngle)
    }

    pub fn args(&self) -> (r: SyntaxResult<TsType>)
        ensures
            mandatory_node_ens::<TsType>(self.syntax@, r),
    {
        as_mandatory_node::<TsType>(&self.syntax)
    }

    pub fn r_angle_token(&self) -> (r: SyntaxResult<SyntaxToken>)
        ensures
            mandatory_token_ens(self.syntax@, SyntaxKind::RAngle, r),
    {
        as_mandatory_token(&self.syntax, SyntaxKind::RAngle)
    }
}

impl AstNode for TsTypeArgs {
    open spec fn spec_can_cast(kind: SyntaxKind) -> bool {
        kind == SyntaxKind::TsTypeArgs
    }

    open spec fn spec_node(&self) -> SyntaxNodeV {
        self.syntax@
    }

    fn can_cast(kind: SyntaxKind) -> (r: bool) {
        kind == SyntaxKind::TsTypeArgs
    }

    fn cast(syntax: SyntaxNode) -> (r: Option<Self>) {
        if syntax.kind == SyntaxKind::TsTypeArgs {
            Some(TsTypeArgs { syntax })
        } else {
            None
        }
    }

    fn syntax(&self) -> (r: &SyntaxNode) {
        &self.syntax
    }
}

/// Typed wrapper for a `SyntaxKind::ArgList` node.
#[derive(Debug, Clone, PartialEq, Eq, Hash)]
pub struct ArgList {
    pub syntax: SyntaxNode,
}

impl ArgList {
    pub fn l_paren_token(&self) -> (r: SyntaxResult<SyntaxToken>)
        ensures
            mandatory_token_ens(self.syntax@, SyntaxKind::LParen, r),
    {
        as_mandatory_token(&self.syntax, SyntaxKind::LParen)
    }

    pub fn args(&self) -> (r: AstSeparatedList<Expr>)
        ensures
            node_list_ens::<Expr>(self.syntax@, r@),
    {
        separated_list::<Expr>(&self.syntax)
    }

    pub fn r_paren_token(&self) -> (r: SyntaxResult<SyntaxToken>)
        ensures
            mandatory_token_ens(self.syntax@, SyntaxKind::RParen, r),
    {
        as_mandatory_token(&self.syntax, SyntaxKind::RParen)
    }
}

impl AstNode for ArgList {
    open spec fn spec_can_cast(kind: SyntaxKind) -> bool {
        kind == SyntaxKind::ArgList
    }

    open spec fn spec_node(&self) -> SyntaxNodeV {
        self.syntax@
    }

    fn can_cast(kind: SyntaxKind) -> (r: bool) {
        kind == SyntaxKind::ArgList
    }

    fn cast(syntax: SyntaxNode) -> (r: Option<Self>) {
        if syntax.kind == SyntaxKind::ArgList {
            Some(ArgList { syntax })
        } else {
            None
        }
    }

    fn syntax(&self) -> (r: &SyntaxNode) {
        &self.syntax
    }
}

} // verus!
