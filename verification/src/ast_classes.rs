//! Typed wrappers for class members, object members and patterns.
//!
//! Every wrapper holds the untyped node it was cast from; its accessors
//! state, over the ghost tree, exactly which child they return.

use vstd::prelude::*;

use crate::support::{
    AstNode, AstNodeList, AstSeparatedList, as_mandatory_node, as_mandatory_token, as_optional_node, as_optional_token, mandatory_node_ens, mandatory_token_ens, node_list, node_list_ens, optional_node_ens, optional_token_ens, separated_list,
};
use crate::syntax::{SyntaxKind, SyntaxNode, SyntaxNodeV, SyntaxResult, SyntaxToken};
use crate::ast_exprs::{TsTypeArgs};
use crate::ast_stmts::{BlockStmt, Name};
use crate::ast_ts::{TsTypeParam};
use crate::ast_unions::{ClassElement, ConstructorParamOrPat, Expr, ObjectPatternProp, Pattern, PropName, TsEntityName, TsType};

verus! {

/// Typed wrapper for a `SyntaxKind::TsTypeParams` node.
#[derive(Debug, Clone, PartialEq, Eq, Hash)]
pub struct TsTypeParams {
    pub syntax: SyntaxNode,
}

impl TsTypeParams {
    pub fn l_angle_token(&self) -> (r: Option<SyntaxToken>)
        ensures
            optional_token_ens(self.syntax@, SyntaxKind::LAngle, r),
    {
        as_optional_token(&self.syntax, SyntaxKind::LAngle)
    }

    pub fn params(&self) -> (r: SyntaxResult<TsTypeParam>)
        ensures
            mandatory_node_ens::<TsTypeParam>(self.syntax@, r),
    {
        as_mandatory_node::<TsTypeParam>(&self.syntax)
    }

    pub fn r_angle_token(&self) -> (r: Option<SyntaxToken>)
        ensures
            optional_token_ens(self.syntax@, SyntaxKind::RAngle, r),
    {
        as_optional_token(&self.syntax, SyntaxKind::RAngle)
    }
}

impl AstNode for TsTypeParams {
    open spec fn spec_can_cast(kind: SyntaxKind) -> bool {
        kind == SyntaxKind::TsTypeParams
    }

    open spec fn spec_node(&self) -> SyntaxNodeV {
        self.syntax@
    }

    fn can_cast(kind: SyntaxKind) -> (r: bool) {
        kind == SyntaxKind::TsTypeParams
    }

    fn cast(syntax: SyntaxNode) -> (r: Option<Self>) {
        if syntax.kind == SyntaxKind::TsTypeParams {
            Some(TsTypeParams { syntax })
        } else {
            None
        }
    }

    fn syntax(&self) -> (r: &SyntaxNode) {
        &self.syntax
    }
}

/// Typed wrapper for a `SyntaxKind::ParameterList` node.
#[derive(Debug, Clone, PartialEq, Eq, Hash)]
pub struct ParameterList {
    pub syntax: SyntaxNode,
}

impl ParameterList {
    pub fn l_paren_token(&self) -> (r: SyntaxResult<SyntaxToken>)
        ensures
            mandatory_token_ens(self.syntax@, SyntaxKind::LParen, r),
    {
        as_mandatory_token(&self.syntax, SyntaxKind::LParen)
    }

    pub fn parameters(&self) -> (r: AstSeparatedList<Pattern>)
        ensures
            node_list_ens::<Pattern>(self.syntax@, r@),
    {
        separated_list::<Pattern>(&self.syntax)
    }

    pub fn r_paren_token(&self) -> (r: SyntaxResult<SyntaxToken>)
        ensures
            mandatory_token_ens(self.syntax@, SyntaxKind::RParen, r),
    {
        as_mandatory_token(&self.syntax, SyntaxKind::RParen)
    }
}

impl AstNode for ParameterList {
    open spec fn spec_can_cast(kind: SyntaxKind) -> bool {
        kind == SyntaxKind::ParameterList
    }

    open spec fn spec_node(&self) -> SyntaxNodeV {
        self.syntax@
    }

    fn can_cast(kind: SyntaxKind) -> (r: bool) {
        kind == SyntaxKind::ParameterList
    }

    fn cast(syntax: SyntaxNode) -> (r: Option<Self>) {
        if syntax.kind == SyntaxKind::ParameterList {
            Some(ParameterList { syntax })
        } else {
            None
        }
    }

    fn syntax(&self) -> (r: &SyntaxNode) {
        &self.syntax
    }
}

/// Typed wrapper for a `SyntaxKind::TsExprWithTypeArgs` node.
#[derive(Debug, Clone, PartialEq, Eq, Hash)]
pub struct TsExprWithTypeArgs {
    pub syntax: SyntaxNode,
}

impl TsExprWithTypeArgs {
    pub fn item(&self) -> (r: SyntaxResult<TsEntityName>)
        ensures
            mandatory_node_ens::<TsEntityName>(self.syntax@, r),
    {
        as_mandatory_node::<TsEntityName>(&self.syntax)
    }

    pub fn type_params(&self) -> (r: SyntaxResult<TsTypeArgs>)
        ensures
            mandatory_node_ens::<TsTypeArgs>(self.syntax@, r),
    {
        as_mandatory_node::<TsTypeArgs>(&self.syntax)
    }
}

impl AstNode for TsExprWithTypeArgs {
    open spec fn spec_can_cast(kind: SyntaxKind) -> bool {
        kind == SyntaxKind::TsExprWithTypeArgs
    }

    open spec fn spec_node(&self) -> SyntaxNodeV {
        self.syntax@
    }

    fn can_cast(kind: SyntaxKind) -> (r: bool) {
        kind == SyntaxKind::TsExprWithTypeArgs
    }

    fn cast(syntax: SyntaxNode) -> (r: Option<Self>) {
        if syntax.kind == SyntaxKind::TsExprWithTypeArgs {
            Some(TsExprWithTypeArgs { syntax })
        } else {
            None
        }
    }

    fn syntax(&self) -> (r: &SyntaxNode) {
        &self.syntax
    }
}

/// Typed wrapper for a `SyntaxKind::ClassBody` node.
#[derive(Debug, Clone, PartialEq, Eq, Hash)]
pub struct ClassBody {
    pub syntax: SyntaxNode,
}

impl ClassBody {
    pub fn l_curly_token(&self) -> (r: SyntaxResult<SyntaxToken>)
        ensures
            mandatory_token_ens(self.syntax@, SyntaxKind::LCurly, r),
    {
        as_mandatory_token(&self.syntax, SyntaxKind::LCurly)
    }

    pub fn elements(&self) -> (r: AstNodeList<ClassElement>)
        ensures
            node_list_ens::<ClassElement>(self.syntax@, r@),
    {
        node_list::<ClassElement>(&self.syntax)
    }

    pub fn r_curly_token(&self) -> (r: SyntaxResult<SyntaxToken>)
        ensures
            mandatory_token_ens(self.syntax@, SyntaxKind::RCurly, r),
    {
        as_mandatory_token(&self.syntax, SyntaxKind::RCurly)
    }
}

impl AstNode for ClassBody {
    open spec fn spec_can_cast(kind: SyntaxKind) -> bool {
        kind == SyntaxKind::ClassBody
    }

    open spec fn spec_node(&self) -> SyntaxNodeV {
        self.syntax@
    }

    fn can_cast(kind: SyntaxKind) -> (r: bool) {
        kind == SyntaxKind::ClassBody
    }

    fn cast(syntax: SyntaxNode) -> (r: Option<Self>) {
        if syntax.kind == SyntaxKind::ClassBody {
            Some(ClassBody { syntax })
        } else {
            None
        }
    }

    fn syntax(&self) -> (r: &SyntaxNode) {
        &self.syntax
    }
}

/// Typed wrapper for a `SyntaxKind::Method` node.
#[derive(Debug, Clone, PartialEq, Eq, Hash)]
pub struct Method {
    pub syntax: SyntaxNode,
}

impl Method {
    pub fn static_token(&self) -> (r: Option<SyntaxToken>)
        ensures
            optional_token_ens(self.syntax@, SyntaxKind::StaticKw, r),
    {
        as_optional_token(&self.syntax, SyntaxKind::StaticKw)
    }

    pub fn async_token(&self) -> (r: Option<SyntaxToken>)
        ensures
            optional_token_ens(self.syntax@, SyntaxKind::AsyncKw, r),
    {
        as_optional_token(&self.syntax, SyntaxKind::AsyncKw)
    }

    pub fn star_token(&self) -> (r: Option<SyntaxToken>)
        ensures
            optional_token_ens(self.syntax@, SyntaxKind::Star, r),
    {
        as_optional_token(&self.syntax, SyntaxKind::Star)
    }

    pub fn name(&self) -> (r: SyntaxResult<PropName>)
        ensures
            mandatory_node_ens::<PropName>(self.syntax@, r),
    {
        as_mandatory_node::<PropName>(&self.syntax)
    }

    pub fn type_params(&self) -> (r: Option<TsTypeParams>)
        ensures
            optional_node_ens::<TsTypeParams>(self.syntax@, r),
    {
        as_optional_node::<TsTypeParams>(&self.syntax)
    }

    pub fn parameters(&self) -> (r: SyntaxResult<ParameterList>)
        ensures
            mandatory_node_ens::<ParameterList>(self.syntax@, r),
    {
        as_mandatory_node::<ParameterList>(&self.syntax)
    }

    pub fn colon_token(&self) -> (r: Option<SyntaxToken>)
        ensures
            optional_token_ens(self.syntax@, SyntaxKind::Colon, r),
    {
        as_optional_token(&self.syntax, SyntaxKind::Colon)
    }

    pub fn return_type(&self) -> (r: Option<TsType>)
        ensures
            optional_node_ens::<TsType>(self.syntax@, r),
    {
        as_optional_node::<TsType>(&self.syntax)
    }

    pub fn body(&self) -> (r: SyntaxResult<BlockStmt>)
        ensures
            mandatory_node_ens::<BlockStmt>(self.syntax@, r),
    {
        as_mandatory_node::<BlockStmt>(&self.syntax)
    }
}

impl AstNode for Method {
    open spec fn spec_can_cast(kind: SyntaxKind) -> bool {
        kind == SyntaxKind::Method
    }

    open spec fn spec_node(&self) -> SyntaxNodeV {
        self.syntax@
    }

    fn can_cast(kind: SyntaxKind) -> (r: bool) {
        kind == SyntaxKind::Method
    }

    fn cast(syntax: SyntaxNode) -> (r: Option<Self>) {
        if syntax.kind == SyntaxKind::Method {
            Some(Method { syntax })
        } else {
            None
        }
    }

    fn syntax(&self) -> (r: &SyntaxNode) {
        &self.syntax
    }
}

/// Typed wrapper for a `SyntaxKind::PrivateProp` node.
#[derive(Debug, Clone, PartialEq, Eq, Hash)]
pub struct PrivateProp {
    pub syntax: SyntaxNode,
}

impl PrivateProp {
    pub fn class_prop(&self) -> (r: SyntaxResult<ClassProp>)
        ensures
            mandatory_node_ens::<ClassProp>(self.syntax@, r),
    {
        as_mandatory_node::<ClassProp>(&self.syntax)
    }
}

impl AstNode for PrivateProp {
    open spec fn spec_can_cast(kind: SyntaxKind) -> bool {
        kind == SyntaxKind::PrivateProp
    }

    open spec fn spec_node(&self) -> SyntaxNodeV {
        self.syntax@
    }

    fn can_cast(kind: SyntaxKind) -> (r: bool) {
        kind == SyntaxKind::PrivateProp
    }

    fn cast(syntax: SyntaxNode) -> (r: Option<Self>) {
        if syntax.kind == SyntaxKind::PrivateProp {
            Some(PrivateProp { syntax })
        } else {
            None
        }
    }

    fn syntax(&self) -> (r: &SyntaxNode) {
        &self.syntax
    }
}

/// Typed wrapper for a `SyntaxKind::ClassProp` node.
#[derive(Debug, Clone, PartialEq, Eq, Hash)]
pub struct ClassProp {
    pub syntax: SyntaxNode,
}

impl ClassProp {
    pub fn declare_token(&self) -> (r: Option<SyntaxToken>)
        ensures
            optional_token_ens(self.syntax@, SyntaxKind::DeclareKw, r),
    {
        as_optional_token(&self.syntax, SyntaxKind::DeclareKw)
    }

    pub fn abstract_token(&self) -> (r: Option<SyntaxToken>)
        ensures
            optional_token_ens(self.syntax@, SyntaxKind::AbstractKw, r),
    {
        as_optional_token(&self.syntax, SyntaxKind::AbstractKw)
    }

    pub fn static_token(&self) -> (r: Option<SyntaxToken>)
        ensures
            optional_token_ens(self.syntax@, SyntaxKind::StaticKw, r),
    {
        as_optional_token(&self.syntax, SyntaxKind::StaticKw)
    }

    pub fn accessibility(&self) -> (r: Option<TsAccessibility>)
        ensures
            optional_node_ens::<TsAccessibility>(self.syntax@, r),
    {
        as_optional_node::<TsAccessibility>(&self.syntax)
    }

    pub fn hash_token(&self) -> (r: Option<SyntaxToken>)
        ensures
            optional_token_ens(self.syntax@, SyntaxKind::HashSign, r),
    {
        as_optional_token(&self.syntax, SyntaxKind::HashSign)
    }

    pub fn key(&self) -> (r: SyntaxResult<PropName>)
        ensures
            mandatory_node_ens::<PropName>(self.syntax@, r),
    {
        as_mandatory_node::<PropName>(&self.syntax)
    }

    pub fn question_mark_token(&self) -> (r: Option<SyntaxToken>)
        ensures
            optional_token_ens(self.syntax@, SyntaxKind::QuestionMark, r),
    {
        as_optional_token(&self.syntax, SyntaxKind::QuestionMark)
    }

    pub fn excl_token(&self) -> (r: Option<SyntaxToken>)
        ensures
            optional_token_ens(self.syntax@, SyntaxKind::Bang, r),
    {
        as_optional_token(&self.syntax, SyntaxKind::Bang)
    }

    pub fn ty(&self) -> (r: SyntaxResult<TsType>)
        ensures
            mandatory_node_ens::<TsType>(self.syntax@, r),
    {
        as_mandatory_node::<TsType>(&self.syntax)
    }

    pub fn eq_token(&self) -> (r: Option<SyntaxToken>)
        ensures
            optional_token_ens(self.syntax@, SyntaxKind::Assign, r),
    {
        as_optional_token(&self.syntax, SyntaxKind::Assign)
    }

    pub fn value(&self) -> (r: Option<Expr>)
        ensures
            optional_node_ens::<Expr>(self.syntax@, r),
    {
        as_optional_node::<Expr>(&self.syntax)
    }

    pub fn semicolon_token(&self) -> (r: Option<SyntaxToken>)
        ensures
            optional_token_ens(self.syntax@, SyntaxKind::Semicolon, r),
    {
        as_optional_token(&self.syntax, SyntaxKind::Semicolon)
    }
}

impl AstNode for ClassProp {
    open spec fn spec_can_cast(kind: SyntaxKind) -> bool {
        kind == SyntaxKind::ClassProp
    }

    open spec fn spec_node(&self) -> SyntaxNodeV {
        self.syntax@
    }

    fn can_cast(kind: SyntaxKind) -> (r: bool) {
        kind == SyntaxKind::ClassProp
    }

    fn cast(syntax: SyntaxNode) -> (r: Option<Self>) {
        if syntax.kind == SyntaxKind::ClassProp {
            Some(ClassProp { syntax })
        } else {
            None
        }
    }

    fn syntax(&self) -> (r: &SyntaxNode) {
        &self.syntax
    }
}

/// Typed wrapper for a `SyntaxKind::Constructor` node.
#[derive(Debug, Clone, PartialEq, Eq, Hash)]
pub struct Constructor {
    pub syntax: SyntaxNode,
}

impl Constructor {
    pub fn accessibility(&self) -> (r: Option<TsAccessibility>)
        ensures
            optional_node_ens::<TsAccessibility>(self.syntax@, r),
    {
        as_optional_node::<TsAccessibility>(&self.syntax)
    }

    pub fn name(&self) -> (r: SyntaxResult<PropName>)
        ensures
            mandatory_node_ens::<PropName>(self.syntax@, r),
    {
        as_mandatory_node::<PropName>(&self.syntax)
    }

    pub fn type_params(&self) -> (r: Option<TsTypeParams>)
        ensures
            optional_node_ens::<TsTypeParams>(self.syntax@, r),
    {
        as_optional_node::<TsTypeParams>(&self.syntax)
    }

    pub fn parameters(&self) -> (r: SyntaxResult<ParameterList>)
        ensures
            mandatory_node_ens::<ParameterList>(self.syntax@, r),
    {
        as_mandatory_node::<ParameterList>(&self.syntax)
    }

    pub fn body(&self) -> (r: SyntaxResult<BlockStmt>)
        ensures
            mandatory_node_ens::<BlockStmt>(self.syntax@, r),
    {
        as_mandatory_node::<BlockStmt>(&self.syntax)
    }
}

impl AstNode for Constructor {
    open spec fn spec_can_cast(kind: SyntaxKind) -> bool {
        kind == SyntaxKind::Constructor
    }

    open spec fn spec_node(&self) -> SyntaxNodeV {
        self.syntax@
    }

    fn can_cast(kind: SyntaxKind) -> (r: bool) {
        kind == SyntaxKind::Constructor
    }

    fn cast(syntax: SyntaxNode) -> (r: Option<Self>) {
        if syntax.kind == SyntaxKind::Constructor {
            Some(Constructor { syntax })
        } else {
            None
        }
    }

    fn syntax(&self) -> (r: &SyntaxNode) {
        &self.syntax
    }
}

/// Typed wrapper for a `SyntaxKind::TsIndexSignature` node.
#[derive(Debug, Clone, PartialEq, Eq, Hash)]
pub struct TsIndexSignature {
    pub syntax: SyntaxNode,
}

impl TsIndexSignature {
    pub fn readonly_token(&self) -> (r: Option<SyntaxToken>)
        ensures
            optional_token_ens(self.syntax@, SyntaxKind::ReadonlyKw, r),
    {
        as_optional_token(&self.syntax, SyntaxKind::ReadonlyKw)
    }

    pub fn l_brack_token(&self) -> (r: SyntaxResult<SyntaxToken>)
        ensures
            mandatory_token_ens(self.syntax@, SyntaxKind::LBrack, r),
    {
        as_mandatory_token(&self.syntax, SyntaxKind::LBrack)
    }

    pub fn pat(&self) -> (r: SyntaxResult<SinglePattern>)
        ensures
            mandatory_node_ens::<SinglePattern>(self.syntax@, r),
    {
        as_mandatory_node::<SinglePattern>(&self.syntax)
    }

    pub fn colon_token(&self) -> (r: SyntaxResult<SyntaxToken>)
        ensures
            mandatory_token_ens(self.syntax@, SyntaxKind::Colon, r),
    {
        as_mandatory_token(&self.syntax, SyntaxKind::Colon)
    }

    pub fn ty(&self) -> (r: SyntaxResult<TsType>)
        ensures
            mandatory_node_ens::<TsType>(self.syntax@, r),
    {
        as_mandatory_node::<TsType>(&self.syntax)
    }

    pub fn r_brack_token(&self) -> (r: SyntaxResult<SyntaxToken>)
        ensures
            mandatory_token_ens(self.syntax@, SyntaxKind::RBrack, r),
    {
        as_mandatory_token(&self.syntax, SyntaxKind::RBrack)
    }
}

impl AstNode for TsIndexSignature {
    open spec fn spec_can_cast(kind: SyntaxKind) -> bool {
        kind == SyntaxKind::TsIndexSignature
    }

    open spec fn spec_node(&self) -> SyntaxNodeV {
        self.syntax@
    }

    fn can_cast(kind: SyntaxKind) -> (r: bool) {
        kind == SyntaxKind::TsIndexSignature
    }

    fn cast(syntax: SyntaxNode) -> (r: Option<Self>) {
        if syntax.kind == SyntaxKind::TsIndexSignature {
            Some(TsIndexSignature { syntax })
        } else {
            None
        }
    }

    fn syntax(&self) -> (r: &SyntaxNode) {
        &self.syntax
    }
}

/// Typed wrapper for a `SyntaxKind::Getter` node.
#[derive(Debug, Clone, PartialEq, Eq, Hash)]
pub struct Getter {
    pub syntax: SyntaxNode,
}

impl Getter {
    pub fn get_token(&self) -> (r: SyntaxResult<SyntaxToken>)
        ensures
            mandatory_token_ens(self.syntax@, SyntaxKind::GetKw, r),
    {
        as_mandatory_token(&self.syntax, SyntaxKind::GetKw)
    }

    pub fn key(&self) -> (r: SyntaxResult<PropName>)
        ensures
            mandatory_node_ens::<PropName>(self.syntax@, r),
    {
        as_mandatory_node::<PropName>(&self.syntax)
    }

    pub fn parameters(&self) -> (r: SyntaxResult<ParameterList>)
        ensures
            mandatory_node_ens::<ParameterList>(self.syntax@, r),
    {
        as_mandatory_node::<ParameterList>(&self.syntax)
    }

    pub fn body(&self) -> (r: SyntaxResult<BlockStmt>)
        ensures
            mandatory_node_ens::<BlockStmt>(self.syntax@, r),
    {
        as_mandatory_node::<BlockStmt>(&self.syntax)
    }
}

impl AstNode for Getter {
    open spec fn spec_can_cast(kind: SyntaxKind) -> bool {
        kind == SyntaxKind::Getter
    }

    open spec fn spec_node(&self) -> SyntaxNodeV {
        self.syntax@
    }

    fn can_cast(kind: SyntaxKind) -> (r: bool) {
        kind == SyntaxKind::Getter
    }

    fn cast(syntax: SyntaxNode) -> (r: Option<Self>) {
        if syntax.kind == SyntaxKind::Getter {
            Some(Getter { syntax })
        } else {
            None
        }
    }

    fn syntax(&self) -> (r: &SyntaxNode) {
        &self.syntax
    }
}

/// Typed wrapper for a `SyntaxKind::Setter` node.
#[derive(Debug, Clone, PartialEq, Eq, Hash)]
pub struct Setter {
    pub syntax: SyntaxNode,
}

impl Setter {
    pub fn set_token(&self) -> (r: SyntaxResult<SyntaxToken>)
        ensures
            mandatory_token_ens(self.syntax@, SyntaxKind::SetKw, r),
    {
        as_mandatory_token(&self.syntax, SyntaxKind::SetKw)
    }

    pub fn key(&self) -> (r: SyntaxResult<PropName>)
        ensures
            mandatory_node_ens::<PropName>(self.syntax@, r),
    {
        as_mandatory_node::<PropName>(&self.syntax)
    }

    pub fn parameters(&self) -> (r: SyntaxResult<ParameterList>)
        ensures
            mandatory_node_ens::<ParameterList>(self.syntax@, r),
    {
        as_mandatory_node::<ParameterList>(&self.syntax)
    }

    pub fn body(&self) -> (r: SyntaxResult<BlockStmt>)
        ensures
            mandatory_node_ens::<BlockStmt>(self.syntax@, r),
    {
        as_mandatory_node::<BlockStmt>(&self.syntax)
    }
}

impl AstNode for Setter {
    open spec fn spec_can_cast(kind: SyntaxKind) -> bool {
        kind == SyntaxKind::Setter
    }

    open spec fn spec_node(&self) -> SyntaxNodeV {
        self.syntax@
    }

    fn can_cast(kind: SyntaxKind) -> (r: bool) {
        kind == SyntaxKind::Setter
    }

    fn cast(syntax: SyntaxNode) -> (r: Option<Self>) {
        if syntax.kind == SyntaxKind::Setter {
            Some(Setter { syntax })
        } else {
            None
        }
    }

    fn syntax(&self) -> (r: &SyntaxNode) {
        &self.syntax
    }
}

/// Typed wrapper for a `SyntaxKind::TsAccessibility` node.
#[derive(Debug, Clone, PartialEq, Eq, Hash)]
pub struct TsAccessibility {
    pub syntax: SyntaxNode,
}

impl TsAccessibility {
    pub fn private_token(&self) -> (r: SyntaxResult<SyntaxToken>)
        ensures
            mandatory_token_ens(self.syntax@, SyntaxKind::PrivateKw, r),
    {
        as_mandatory_token(&self.syntax, SyntaxKind::PrivateKw)
    }

    pub fn readonly_token(&self) -> (r: SyntaxResult<SyntaxToken>)
        ensures
            mandatory_token_ens(self.syntax@, SyntaxKind::ReadonlyKw, r),
    {
        as_mandatory_token(&self.syntax, SyntaxKind::ReadonlyKw)
    }
}

impl AstNode for TsAccessibility {
    open spec fn spec_can_cast(kind: SyntaxKind) -> bool {
        kind == SyntaxKind::TsAccessibility
    }

    open spec fn spec_node(&self) -> SyntaxNodeV {
        self.syntax@
    }

    fn can_cast(kind: SyntaxKind) -> (r: bool) {
        kind == SyntaxKind::TsAccessibility
    }

    fn cast(syntax: SyntaxNode) -> (r: Option<Self>) {
        if syntax.kind == SyntaxKind::TsAccessibility {
            Some(TsAccessibility { syntax })
        } else {
            None
        }
    }

    fn syntax(&self) -> (r: &SyntaxNode) {
        &self.syntax
    }
}

/// Typed wrapper for a `SyntaxKind::ConstructorParameters` node.
#[derive(Debug, Clone, PartialEq, Eq, Hash)]
pub struct ConstructorParameters {
    pub syntax: SyntaxNode,
}

impl ConstructorParameters {
    pub fn l_paren_token(&self) -> (r: SyntaxResult<SyntaxToken>)
        ensures
            mandatory_token_ens(self.syntax@, SyntaxKind::LParen, r),
    {
        as_mandatory_token(&self.syntax, SyntaxKind::LParen)
    }

    pub fn parameters(&self) -> (r: AstSeparatedList<ConstructorParamOrPat>)
        ensures
            node_list_ens::<ConstructorParamOrPat>(self.syntax@, r@),
    {
        separated_list::<ConstructorParamOrPat>(&self.syntax)
    }

    pub fn r_paren_token(&self) -> (r: SyntaxResult<SyntaxToken>)
        ensures
            mandatory_token_ens(self.syntax@, SyntaxKind::RParen, r),
    {
        as_mandatory_token(&self.syntax, SyntaxKind::RParen)
    }
}

impl AstNode for ConstructorParameters {
    open spec fn spec_can_cast(kind: SyntaxKind) -> bool {
        kind == SyntaxKind::ConstructorParameters
    }

    open spec fn spec_node(&self) -> SyntaxNodeV {
        self.syntax@
    }

    fn can_cast(kind: SyntaxKind) -> (r: bool) {
        kind == SyntaxKind::ConstructorParameters
    }

    fn cast(syntax: SyntaxNode) -> (r: Option<Self>) {
        if syntax.kind == SyntaxKind::ConstructorParameters {
            Some(ConstructorParameters { syntax })
        } else {
            None
        }
    }

    fn syntax(&self) -> (r: &SyntaxNode) {
        &self.syntax
    }
}

/// Typed wrapper for a `SyntaxKind::TsConstructorParam` node.
#[derive(Debug, Clone, PartialEq, Eq, Hash)]
pub struct TsConstructorParam {
    pub syntax: SyntaxNode,
}

impl TsConstructorParam {
    pub fn readonly_token(&self) -> (r: SyntaxResult<SyntaxToken>)
        ensures
            mandatory_token_ens(self.syntax@, SyntaxKind::ReadonlyKw, r),
    {
        as_mandatory_token(&self.syntax, SyntaxKind::ReadonlyKw)
    }

    pub fn pat(&self) -> (r: SyntaxResult<Pattern>)
        ensures
            mandatory_node_ens::<Pattern>(self.syntax@, r),
    {
        as_mandatory_node::<Pattern>(&self.syntax)
    }
}

impl AstNode for TsConstructorParam {
    open spec fn spec_can_cast(kind: SyntaxKind) -> bool {
        kind == SyntaxKind::TsConstructorParam
    }

    open spec fn spec_node(&self) -> SyntaxNodeV {
        self.syntax@
    }

    fn can_cast(kind: SyntaxKind) -> (r: bool) {
        kind == SyntaxKind::TsConstructorParam
    }

    fn cast(syntax: SyntaxNode) -> (r: Option<Self>) {
        if syntax.kind == SyntaxKind::TsConstructorParam {
            Some(TsConstructorParam { syntax })
        } else {
            None
        }
    }

    fn syntax(&self) -> (r: &SyntaxNode) {
        &self.syntax
    }
}

/// Typed wrapper for a `SyntaxKind::SpreadElement` node.
#[derive(Debug, Clone, PartialEq, Eq, Hash)]
pub struct SpreadElement {
    pub syntax: SyntaxNode,
}

impl SpreadElement {
    pub fn dotdotdot_token(&self) -> (r: SyntaxResult<SyntaxToken>)
        ensures
            mandatory_token_ens(self.syntax@, SyntaxKind::DotDotDot, r),
    {
        as_mandatory_token(&self.syntax, SyntaxKind::DotDotDot)
    }

    pub fn element(&self) -> (r: SyntaxResult<Expr>)
        ensures
            mandatory_node_ens::<Expr>(self.syntax@, r),
    {
        as_mandatory_node::<Expr>(&self.syntax)
    }
}

impl AstNode for SpreadElement {
    open spec fn spec_can_cast(kind: SyntaxKind) -> bool {
        kind == SyntaxKind::SpreadElement
    }

    open spec fn spec_node(&self) -> SyntaxNodeV {
        self.syntax@
    }

    fn can_cast(kind: SyntaxKind) -> (r: bool) {
        kind == SyntaxKind::SpreadElement
    }

    fn cast(syntax: SyntaxNode) -> (r: Option<Self>) {
        if syntax.kind == SyntaxKind::SpreadElement {
            Some(SpreadElement { syntax })
        } else {
            None
        }
    }

    fn syntax(&self) -> (r: &SyntaxNode) {
        &self.syntax
    }
}

/// Typed wrapper for a `SyntaxKind::Null` node.
#[derive(Debug, Clone, PartialEq, Eq, Hash)]
pub struct Null {
    pub syntax: SyntaxNode,
}

impl Null {
    pub fn null_token(&self) -> (r: SyntaxResult<SyntaxToken>)
        ensures
            mandatory_token_ens(self.syntax@, SyntaxKind::Null, r),
    {
        as_mandatory_token(&self.syntax, SyntaxKind::Null)
    }
}

impl AstNode for Null {
    open spec fn spec_can_cast(kind: SyntaxKind) -> bool {
        kind == SyntaxKind::Null
    }

    open spec fn spec_node(&self) -> SyntaxNodeV {
        self.syntax@
    }

    fn can_cast(kind: SyntaxKind) -> (r: bool) {
        kind == SyntaxKind::Null
    }

    fn cast(syntax: SyntaxNode) -> (r: Option<Self>) {
        if syntax.kind == SyntaxKind::Null {
            Some(Null { syntax })
        } else {
            None
        }
    }

    fn syntax(&self) -> (r: &SyntaxNode) {
        &self.syntax
    }
}

/// Typed wrapper for a `SyntaxKind::Undefined` node.
#[derive(Debug, Clone, PartialEq, Eq, Hash)]
pub struct Undefined {
    pub syntax: SyntaxNode,
}

impl Undefined {
    pub fn undefined_token(&self) -> (r: SyntaxResult<SyntaxToken>)
        ensures
            mandatory_token_ens(self.syntax@, SyntaxKind::Undefined, r),
    {
        as_mandatory_token(&self.syntax, SyntaxKind::Undefined)
    }
}

impl AstNode for Undefined {
    open spec fn spec_can_cast(kind: SyntaxKind) -> bool {
        kind == SyntaxKind::Undefined
    }

    open spec fn spec_node(&self) -> SyntaxNodeV {
        self.syntax@
    }

    fn can_cast(kind: SyntaxKind) -> (r: bool) {
        kind == SyntaxKind::Undefined
    }

    fn cast(syntax: SyntaxNode) -> (r: Option<Self>) {
        if syntax.kind == SyntaxKind::Undefined {
            Some(Undefined { syntax })
        } else {
            None
        }
    }

    fn syntax(&self) -> (r: &SyntaxNode) {
        &self.syntax
    }
}

/// Typed wrapper for a `SyntaxKind::SinglePattern` node.
#[derive(Debug, Clone, PartialEq, Eq, Hash)]
pub struct SinglePattern {
    pub syntax: SyntaxNode,
}

impl SinglePattern {
    pub fn name(&self) -> (r: SyntaxResult<Name>)
        ensures
            mandatory_node_ens::<Name>(self.syntax@, r),
    {
        as_mandatory_node::<Name>(&self.syntax)
    }

    pub fn question_mark_token(&self) -> (r: Option<SyntaxToken>)
        ensures
            optional_token_ens(self.syntax@, SyntaxKind::QuestionMark, r),
    {
        as_optional_token(&self.syntax, SyntaxKind::QuestionMark)
    }

    pub fn excl_token(&self) -> (r: Option<SyntaxToken>)
        ensures
            optional_token_ens(self.syntax@, SyntaxKind::Bang, r),
    {
        as_optional_token(&self.syntax, SyntaxKind::Bang)
    }

    pub fn colon_token(&self) -> (r: Option<SyntaxToken>)
        ensures
            optional_token_ens(self.syntax@, SyntaxKind::Colon, r),
    {
        as_optional_token(&self.syntax, SyntaxKind::Colon)
    }

    pub fn ty(&self) -> (r: SyntaxResult<TsType>)
        ensures
            mandatory_node_ens::<TsType>(self.syntax@, r),
    {
        as_mandatory_node::<TsType>(&self.syntax)
    }
}

impl AstNode for SinglePattern {
    open spec fn spec_can_cast(kind: SyntaxKind) -> bool {
        kind == SyntaxKind::SinglePattern
    }

    open spec fn spec_node(&self) -> SyntaxNodeV {
        self.syntax@
    }

    fn can_cast(kind: SyntaxKind) -> (r: bool) {
        kind == SyntaxKind::SinglePattern
    }

    fn cast(syntax: SyntaxNode) -> (r: Option<Self>) {
        if syntax.kind == SyntaxKind::SinglePattern {
            Some(SinglePattern { syntax })
        } else {
            None
        }
    }

    fn syntax(&self) -> (r: &SyntaxNode) {
        &self.syntax
    }
}

/// Typed wrapper for a `SyntaxKind::RestPattern` node.
#[derive(Debug, Clone, PartialEq, Eq, Hash)]
pub struct RestPattern {
    pub syntax: SyntaxNode,
}

impl RestPattern {
    pub fn dotdotdot_token(&self) -> (r: SyntaxResult<SyntaxToken>)
        ensures
            mandatory_token_ens(self.syntax@, SyntaxKind::DotDotDot, r),
    {
        as_mandatory_token(&self.syntax, SyntaxKind::DotDotDot)
    }

    pub fn pat(&self) -> (r: SyntaxResult<Pattern>)
        ensures
            mandatory_node_ens::<Pattern>(self.syntax@, r),
    {
        as_mandatory_node::<Pattern>(&self.syntax)
    }
}

impl AstNode for RestPattern {
    open spec fn spec_can_cast(kind: SyntaxKind) -> bool {
        kind == SyntaxKind::RestPattern
    }

    open spec fn spec_node(&self) -> SyntaxNodeV {
        self.syntax@
    }

    fn can_cast(kind: SyntaxKind) -> (r: bool) {
        kind == SyntaxKind::RestPattern
    }

    fn cast(syntax: SyntaxNode) -> (r: Option<Self>) {
        if syntax.kind == SyntaxKind::RestPattern {
            Some(RestPattern { syntax })
        } else {
            None
        }
    }

    fn syntax(&self) -> (r: &SyntaxNode) {
        &self.syntax
    }
}

/// Typed wrapper for a `SyntaxKind::AssignPattern` node.
#[derive(Debug, Clone, PartialEq, Eq, Hash)]
pub struct AssignPattern {
    pub syntax: SyntaxNode,
}

impl AssignPattern {
    pub fn key(&self) -> (r: SyntaxResult<Pattern>)
        ensures
            mandatory_node_ens::<Pattern>(self.syntax@, r),
    {
        as_mandatory_node::<Pattern>(&self.syntax)
    }

    pub fn colon_token(&self) -> (r: Option<SyntaxToken>)
        ensures
            optional_token_ens(self.syntax@, SyntaxKind::Colon, r),
    {
        as_optional_token(&self.syntax, SyntaxKind::Colon)
    }

    pub fn ty(&self) -> (r: SyntaxResult<TsType>)
        ensures
            mandatory_node_ens::<TsType>(self.syntax@, r),
    {
        as_mandatory_node::<TsType>(&self.syntax)
    }

    pub fn eq_token(&self) -> (r: SyntaxResult<SyntaxToken>)
        ensures
            mandatory_token_ens(self.syntax@, SyntaxKind::Assign, r),
    {
        as_mandatory_token(&self.syntax, SyntaxKind::Assign)
    }

    pub fn value(&self) -> (r: SyntaxResult<Expr>)
        ensures
            mandatory_node_ens::<Expr>(self.syntax@, r),
    {
        as_mandatory_node::<Expr>(&self.syntax)
    }
}

impl AstNode for AssignPattern {
    open spec fn spec_can_cast(kind: SyntaxKind) -> bool {
        kind == SyntaxKind::AssignPattern
    }

    open spec fn spec_node(&self) -> SyntaxNodeV {
        self.syntax@
    }

    fn can_cast(kind: SyntaxKind) -> (r: bool) {
        kind == SyntaxKind::AssignPattern
    }

    fn cast(syntax: SyntaxNode) -> (r: Option<Self>) {
        if syntax.kind == SyntaxKind::AssignPattern {
            Some(AssignPattern { syntax })
        } else {
            None
        }
    }

    fn syntax(&self) -> (r: &SyntaxNode) {
        &self.syntax
    }
}

/// Typed wrapper for a `SyntaxKind::ObjectPattern` node.
#[derive(Debug, Clone, PartialEq, Eq, Hash)]
pub struct ObjectPattern {
    pub syntax: SyntaxNode,
}

impl ObjectPattern {
    pub fn l_curly_token(&self) -> (r: SyntaxResult<SyntaxToken>)
        ensures
            mandatory_token_ens(self.syntax@, SyntaxKind::LCurly, r),
    {
        as_mandatory_token(&self.syntax, SyntaxKind::LCurly)
    }

    pub fn elements(&self) -> (r: AstSeparatedList<ObjectPatternProp>)
        ensures
            node_list_ens::<ObjectPatternProp>(self.syntax@, r@),
    {
        separated_list::<ObjectPatternProp>(&self.syntax)
    }

    pub fn r_curly_token(&self) -> (r: SyntaxResult<SyntaxToken>)
        ensures
            mandatory_token_ens(self.syntax@, SyntaxKind::RCurly, r),
    {
        as_mandatory_token(&self.syntax, SyntaxKind::RCurly)
    }
}

impl AstNode for ObjectPattern {
    open spec fn spec_can_cast(kind: SyntaxKind) -> bool {
        kind == SyntaxKind::ObjectPattern
    }

    open spec fn spec_node(&self) -> SyntaxNodeV {
        self.syntax@
    }

    fn can_cast(kind: SyntaxKind) -> (r: bool) {
        kind == SyntaxKind::ObjectPattern
    }

    fn cast(syntax: SyntaxNode) -> (r: Option<Self>) {
        if syntax.kind == SyntaxKind::ObjectPattern {
            Some(ObjectPattern { syntax })
        } else {
            None
        }
    }

    fn syntax(&self) -> (r: &SyntaxNode) {
        &self.syntax
    }
}

/// Typed wrapper for a `SyntaxKind::ArrayPattern` node.
#[derive(Debug, Clone, PartialEq, Eq, Hash)]
pub struct ArrayPattern {
    pub syntax: SyntaxNode,
}

impl ArrayPattern {
    pub fn l_brack_token(&self) -> (r: SyntaxResult<SyntaxToken>)
        ensures
            mandatory_token_ens(self.syntax@, SyntaxKind::LBrack, r),
    {
        as_mandatory_token(&self.syntax, SyntaxKind::LBrack)
    }

    pub fn elements(&self) -> (r: AstNodeList<Pattern>)
        ensures
            node_list_ens::<Pattern>(self.syntax@, r@),
    {
        node_list::<Pattern>(&self.syntax)
    }

    pub fn r_brack_token(&self) -> (r: SyntaxResult<SyntaxToken>)
        ensures
            mandatory_token_ens(self.syntax@, SyntaxKind::RBrack, r),
    {
        as_mandatory_token(&self.syntax, SyntaxKind::RBrack)
    }

    pub fn excl_token(&self) -> (r: SyntaxResult<SyntaxToken>)
        ensures
            mandatory_token_ens(self.syntax@, SyntaxKind::Bang, r),
    {
        as_mandatory_token(&self.syntax, SyntaxKind::Bang)
    }

    pub fn colon_token(&self) -> (r: SyntaxResult<SyntaxToken>)
        ensures
            mandatory_token_ens(self.syntax@, SyntaxKind::Colon, r),
    {
        as_mandatory_token(&self.syntax, SyntaxKind::Colon)
    }

    pub fn ty(&self) -> (r: SyntaxResult<TsType>)
        ensures
            mandatory_node_ens::<TsType>(self.syntax@, r),
    {
        as_mandatory_node::<TsType>(&self.syntax)
    }
}

impl AstNode for ArrayPattern {
    open spec fn spec_can_cast(kind: SyntaxKind) -> bool {
        kind == SyntaxKind::ArrayPattern
    }

    open spec fn spec_node(&self) -> SyntaxNodeV {
        self.syntax@
    }

    fn can_cast(kind: SyntaxKind) -> (r: bool) {
        kind == SyntaxKind::ArrayPattern
    }

    fn cast(syntax: SyntaxNode) -> (r: Option<Self>) {
        if syntax.kind == SyntaxKind::ArrayPattern {
            Some(ArrayPattern { syntax })
        } else {
            None
        }
    }

    fn syntax(&self) -> (r: &SyntaxNode) {
        &self.syntax
    }
}

/// Typed wrapper for a `SyntaxKind::ExprPattern` node.
#[derive(Debug, Clone, PartialEq, Eq, Hash)]
pub struct ExprPattern {
    pub syntax: SyntaxNode,
}

impl ExprPattern {
    pub fn expr(&self) -> (r: SyntaxResult<Expr>)
        ensures
            mandatory_node_ens::<Expr>(self.syntax@, r),
    {
        as_mandatory_node::<Expr>(&self.syntax)
    }
}

impl AstNode for ExprPattern {
    open spec fn spec_can_cast(kind: SyntaxKind) -> bool {
        kind == SyntaxKind::ExprPattern
    }

    open spec fn spec_node(&self) -> SyntaxNodeV {
        self.syntax@
    }

    fn can_cast(kind: SyntaxKind) -> (r: bool) {
        kind == SyntaxKind::ExprPattern
    }

    fn cast(syntax: SyntaxNode) -> (r: Option<Self>) {
        if syntax.kind == SyntaxKind::ExprPattern {
            Some(ExprPattern { syntax })
        } else {
            None
        }
    }

    fn syntax(&self) -> (r: &SyntaxNode) {
        &self.syntax
    }
}

/// Typed wrapper for a `SyntaxKind::KeyValuePattern` node.
#[derive(Debug, Clone, PartialEq, Eq, Hash)]
pub struct KeyValuePattern {
    pub syntax: SyntaxNode,
}

impl KeyValuePattern {
    pub fn key(&self) -> (r: SyntaxResult<PropName>)
        ensures
            mandatory_node_ens::<PropName>(self.syntax@, r),
    {
        as_mandatory_node::<PropName>(&self.syntax)
    }

    pub fn colon_token(&self) -> (r: SyntaxResult<SyntaxToken>)
        ensures
            mandatory_token_ens(self.syntax@, SyntaxKind::Colon, r),
    {
        as_mandatory_token(&self.syntax, SyntaxKind::Colon)
    }
}

impl AstNode for KeyValuePattern {
    open spec fn spec_can_cast(kind: SyntaxKind) -> bool {
        kind == SyntaxKind::KeyValuePattern
    }

    open spec fn spec_node(&self) -> SyntaxNodeV {
        self.syntax@
    }

    fn can_cast(kind: SyntaxKind) -> (r: bool) {
        kind == SyntaxKind::KeyValuePattern
    }

    fn cast(syntax: SyntaxNode) -> (r: Option<Self>) {
        if syntax.kind == SyntaxKind::KeyValuePattern {
            Some(KeyValuePattern { syntax })
        } else {
            None
        }
    }

    fn syntax(&self) -> (r: &SyntaxNode) {
        &self.syntax
    }
}

/// Typed wrapper for a `SyntaxKind::LiteralProp` node.
#[derive(Debug, Clone, PartialEq, Eq, Hash)]
pub struct LiteralProp {
    pub syntax: SyntaxNode,
}

impl LiteralProp {
    pub fn colon_token(&self) -> (r: SyntaxResult<SyntaxToken>)
        ensures
            mandatory_token_ens(self.syntax@, SyntaxKind::Colon, r),
    {
        as_mandatory_token(&self.syntax, SyntaxKind::Colon)
    }
}

impl AstNode for LiteralProp {
    open spec fn spec_can_cast(kind: SyntaxKind) -> bool {
        kind == SyntaxKind::LiteralProp
    }

    open spec fn spec_node(&self) -> SyntaxNodeV {
        self.syntax@
    }

    fn can_cast(kind: SyntaxKind) -> (r: bool) {
        kind == SyntaxKind::LiteralProp
    }

    fn cast(syntax: SyntaxNode) -> (r: Option<Self>) {
        if syntax.kind == SyntaxKind::LiteralProp {
            Some(LiteralProp { syntax })
        } else {
            None
        }
    }

    fn syntax(&self) -> (r: &SyntaxNode) {
        &self.syntax
    }
}

/// Typed wrapper for a `SyntaxKind::SpreadProp` node.
#[derive(Debug, Clone, PartialEq, Eq, Hash)]
pub struct SpreadProp {
    pub syntax: SyntaxNode,
}

impl SpreadProp {
    pub fn dotdotdot_token(&self) -> (r: SyntaxResult<SyntaxToken>)
        ensures
            mandatory_token_ens(self.syntax@, SyntaxKind::DotDotDot, r),
    {
        as_mandatory_token(&self.syntax, SyntaxKind::DotDotDot)
    }

    pub fn value(&self) -> (r: SyntaxResult<Expr>)
        ensures
            mandatory_node_ens::<Expr>(self.syntax@, r),
    {
        as_mandatory_node::<Expr>(&self.syntax)
    }
}

impl AstNode for SpreadProp {
    open spec fn spec_can_cast(kind: SyntaxKind) -> bool {
        kind == SyntaxKind::SpreadProp
    }

    open spec fn spec_node(&self) -> SyntaxNodeV {
        self.syntax@
    }

    fn can_cast(kind: SyntaxKind) -> (r: bool) {
        kind == SyntaxKind::SpreadProp
    }

    fn cast(syntax: SyntaxNode) -> (r: Option<Self>) {
        if syntax.kind == SyntaxKind::SpreadProp {
            Some(SpreadProp { syntax })
        } else {
            None
        }
    }

    fn syntax(&self) -> (r: &SyntaxNode) {
        &self.syntax
    }
}

/// Typed wrapper for a `SyntaxKind::InitializedProp` node.
#[derive(Debug, Clone, PartialEq, Eq, Hash)]
pub struct InitializedProp {
    pub syntax: SyntaxNode,
}

impl InitializedProp {
    pub fn key(&self) -> (r: SyntaxResult<Name>)
        ensures
            mandatory_node_ens::<Name>(self.syntax@, r),
    {
        as_mandatory_node::<Name>(&self.syntax)
    }

    pub fn eq_token(&self) -> (r: SyntaxResult<SyntaxToken>)
        ensures
            mandatory_token_ens(self.syntax@, SyntaxKind::Assign, r),
    {
        as_mandatory_token(&self.syntax, SyntaxKind::Assign)
    }

    pub fn value(&self) -> (r: SyntaxResult<Expr>)
        ensures
            mandatory_node_ens::<Expr>(self.syntax@, r),
    {
        as_mandatory_node::<Expr>(&self.syntax)
    }
}

impl AstNode for InitializedProp {
    open spec fn spec_can_cast(kind: SyntaxKind) -> bool {
        kind == SyntaxKind::InitializedProp
    }

    open spec fn spec_node(&self) -> SyntaxNodeV {
        self.syntax@
    }

    fn can_cast(kind: SyntaxKind) -> (r: bool) {
        kind == SyntaxKind::InitializedProp
    }

    fn cast(syntax: SyntaxNode) -> (r: Option<Self>) {
        if syntax.kind == SyntaxKind::InitializedProp {
            Some(InitializedProp { syntax })
        } else {
            None
        }
    }

    fn syntax(&self) -> (r: &SyntaxNode) {
        &self.syntax
    }
}

/// Typed wrapper for a `SyntaxKind::IdentProp` node.
#[derive(Debug, Clone, PartialEq, Eq, Hash)]
pub struct IdentProp {
    pub syntax: SyntaxNode,
}

impl IdentProp {
    pub fn name(&self) -> (r: SyntaxResult<Name>)
        ensures
            mandatory_node_ens::<Name>(self.syntax@, r),
    {
        as_mandatory_node::<Name>(&self.syntax)
    }
}

impl AstNode for IdentProp {
    open spec fn spec_can_cast(kind: SyntaxKind) -> bool {
        kind == SyntaxKind::IdentProp
    }

    open spec fn spec_node(&self) -> SyntaxNodeV {
        self.syntax@
    }

    fn can_cast(kind: SyntaxKind) -> (r: bool) {
        kind == SyntaxKind::IdentProp
    }

    fn cast(syntax: SyntaxNode) -> (r: Option<Self>) {
        if syntax.kind == SyntaxKind::IdentProp {
            Some(IdentProp { syntax })
        } else {
            None
        }
    }

    fn syntax(&self) -> (r: &SyntaxNode) {
        &self.syntax
    }
}

/// Typed wrapper for a `SyntaxKind::ComputedPropertyName` node.
#[derive(Debug, Clone, PartialEq, Eq, Hash)]
pub struct ComputedPropertyName {
    pub syntax: SyntaxNode,
}

impl ComputedPropertyName {
    pub fn l_brack_token(&self) -> (r: SyntaxResult<SyntaxToken>)
        ensures
            mandatory_token_ens(self.syntax@, SyntaxKind::LBrack, r),
    {
        as_mandatory_token(&self.syntax, SyntaxKind::LBrack)
    }

    pub fn expr(&self) -> (r: SyntaxResult<Expr>)
        ensures
            mandatory_node_ens::<Expr>(self.syntax@, r),
    {
        as_mandatory_node::<Expr>(&self.syntax)
    }

    pub fn r_brack_token(&self) -> (r: SyntaxResult<SyntaxToken>)
        ensures
            mandatory_token_ens(self.syntax@, SyntaxKind::RBrack, r),
    {
        as_mandatory_token(&self.syntax, SyntaxKind::RBrack)
    }
}

impl AstNode for ComputedPropertyName {
    open spec fn spec_can_cast(kind: SyntaxKind) -> bool {
        kind == SyntaxKind::ComputedPropertyName
    }

    open spec fn spec_node(&self) -> SyntaxNodeV {
        self.syntax@
    }

    fn can_cast(kind: SyntaxKind) -> (r: bool) {
        kind == SyntaxKind::ComputedPropertyName
    }

    fn cast(syntax: SyntaxNode) -> (r: Option<Self>) {
        if syntax.kind == SyntaxKind::ComputedPropertyName {
            Some(ComputedPropertyName { syntax })
        } else {
            None
        }
    }

    fn syntax(&self) -> (r: &SyntaxNode) {
        &self.syntax
    }
}

/// Typed wrapper for a `SyntaxKind::PrivateName` node.
#[derive(Debug, Clone, PartialEq, Eq, Hash)]
pub struct PrivateName {
    pub syntax: SyntaxNode,
}

impl PrivateName {
    pub fn hash_token(&self) -> (r: SyntaxResult<SyntaxToken>)
        ensures
            mandatory_token_ens(self.syntax@, SyntaxKind::HashSign, r),
    {
        as_mandatory_token(&self.syntax, SyntaxKind::HashSign)
    }

    pub fn name(&self) -> (r: SyntaxResult<Name>)
        ensures
            mandatory_node_ens::<Name>(self.syntax@, r),
    {
        as_mandatory_node::<Name>(&self.syntax)
    }
}

impl AstNode for PrivateName {
    open spec fn spec_can_cast(kind: SyntaxKind) -> bool {
        kind == SyntaxKind::PrivateName
    }

    open spec fn spec_node(&self) -> SyntaxNodeV {
        self.syntax@
    }

    fn can_cast(kind: SyntaxKind) -> (r: bool) {
        kind == SyntaxKind::PrivateName
    }

    fn cast(syntax: SyntaxNode) -> (r: Option<Self>) {
        if syntax.kind == SyntaxKind::PrivateName {
            Some(PrivateName { syntax })
        } else {
            None
        }
    }

    fn syntax(&self) -> (r: &SyntaxNode) {
        &self.syntax
    }
}

} // verus!
