//! Typed wrappers for type annotations.
//!
//! Every wrapper holds the untyped node it was cast from; its accessors
//! state, over the ghost tree, exactly which child they return.

use vstd::prelude::*;

use crate::support::{
    AstNode, AstNodeList, as_mandatory_node, as_mandatory_token, as_optional_node, as_optional_token, mandatory_node_ens, mandatory_token_ens, node_list, node_list_ens, optional_node_ens, optional_token_ens,
};
use crate::syntax::{SyntaxKind, SyntaxNode, SyntaxNodeV, SyntaxResult, SyntaxToken};
use crate::ast_classes::{ParameterList, TsTypeParams};
use crate::ast_exprs::{TsTypeArgs};
use crate::ast_stmts::{Ident};
use crate::ast_unions::{Expr, ModuleItem, TsEntityName, TsThisOrMore, TsType, TsTypeElement};

verus! {

/// Typed wrapper for a `SyntaxKind::TsAny` node.
#[derive(Debug, Clone, PartialEq, Eq, Hash)]
pub struct TsAny {
    pub syntax: SyntaxNode,
}

impl TsAny {
    pub fn any_token(&self) -> (r: SyntaxResult<SyntaxToken>)
        ensures
            mandatory_token_ens(self.syntax@, SyntaxKind::AnyKw, r),
    {
        as_mandatory_token(&self.syntax, SyntaxKind::AnyKw)
    }
}

impl AstNode for TsAny {
    open spec fn spec_can_cast(kind: SyntaxKind) -> bool {
        kind == SyntaxKind::TsAny
    }

    open spec fn spec_node(&self) -> SyntaxNodeV {
        self.syntax@
    }

    fn can_cast(kind: SyntaxKind) -> (r: bool) {
        kind == SyntaxKind::TsAny
    }

    fn cast(syntax: SyntaxNode) -> (r: Option<Self>) {
        if syntax.kind == SyntaxKind::TsAny {
            Some(TsAny { syntax })
        } else {
            None
        }
    }

    fn syntax(&self) -> (r: &SyntaxNode) {
        &self.syntax
    }
}

/// Typed wrapper for a `SyntaxKind::TsUnknown` node.
#[derive(Debug, Clone, PartialEq, Eq, Hash)]
pub struct TsUnknown {
    pub syntax: SyntaxNode,
}

impl TsUnknown {
    pub fn unknown_token(&self) -> (r: SyntaxResult<SyntaxToken>)
        ensures
            mandatory_token_ens(self.syntax@, SyntaxKind::UnknownKw, r),
    {
        as_mandatory_token(&self.syntax, SyntaxKind::UnknownKw)
    }
}

impl AstNode for TsUnknown {
    open spec fn spec_can_cast(kind: SyntaxKind) -> bool {
        kind == SyntaxKind::TsUnknown
    }

    open spec fn spec_node(&self) -> SyntaxNodeV {
        self.syntax@
    }

    fn can_cast(kind: SyntaxKind) -> (r: bool) {
        kind == SyntaxKind::TsUnknown
    }

    fn cast(syntax: SyntaxNode) -> (r: Option<Self>) {
        if syntax.kind == SyntaxKind::TsUnknown {
            Some(TsUnknown { syntax })
        } else {
            None
        }
    }

    fn syntax(&self) -> (r: &SyntaxNode) {
        &self.syntax
    }
}

/// Typed wrapper for a `SyntaxKind::TsNumber` node.
#[derive(Debug, Clone, PartialEq, Eq, Hash)]
pub struct TsNumber {
    pub syntax: SyntaxNode,
}

impl TsNumber {
    pub fn ident(&self) -> (r: SyntaxResult<Ident>)
        ensures
            mandatory_node_ens::<Ident>(self.syntax@, r),
    {
        as_mandatory_node::<Ident>(&self.syntax)
    }
}

impl AstNode for TsNumber {
    open spec fn spec_can_cast(kind: SyntaxKind) -> bool {
        kind == SyntaxKind::TsNumber
    }

    open spec fn spec_node(&self) -> SyntaxNodeV {
        self.syntax@
    }

    fn can_cast(kind: SyntaxKind) -> (r: bool) {
        kind == SyntaxKind::TsNumber
    }

    fn cast(syntax: SyntaxNode) -> (r: Option<Self>) {
        if syntax.kind == SyntaxKind::TsNumber {
            Some(TsNumber { syntax })
        } else {
            None
        }
    }

    fn syntax(&self) -> (r: &SyntaxNode) {
        &self.syntax
    }
}

/// Typed wrapper for a `SyntaxKind::TsObject` node.
#[derive(Debug, Clone, PartialEq, Eq, Hash)]
pub struct TsObject {
    pub syntax: SyntaxNode,
}

impl TsObject {
    pub fn ident(&self) -> (r: SyntaxResult<Ident>)
        ensures
            mandatory_node_ens::<Ident>(self.syntax@, r),
    {
        as_mandatory_node::<Ident>(&self.syntax)
    }
}

impl AstNode for TsObject {
    open spec fn spec_can_cast(kind: SyntaxKind) -> bool {
        kind == SyntaxKind::TsObject
    }

    open spec fn spec_node(&self) -> SyntaxNodeV {
        self.syntax@
    }

    fn can_cast(kind: SyntaxKind) -> (r: bool) {
        kind == SyntaxKind::TsObject
    }

    fn cast(syntax: SyntaxNode) -> (r: Option<Self>) {
        if syntax.kind == SyntaxKind::TsObject {
            Some(TsObject { syntax })
        } else {
            None
        }
    }

    fn syntax(&self) -> (r: &SyntaxNode) {
        &self.syntax
    }
}

/// Typed wrapper for a `SyntaxKind::TsBoolean` node.
#[derive(Debug, Clone, PartialEq, Eq, Hash)]
pub struct TsBoolean {
    pub syntax: SyntaxNode,
}

impl TsBoolean {
    pub fn ident(&self) -> (r: SyntaxResult<Ident>)
        ensures
            mandatory_node_ens::<Ident>(self.syntax@, r),
    {
        as_mandatory_node::<Ident>(&self.syntax)
    }
}

impl AstNode for TsBoolean {
    open spec fn spec_can_cast(kind: SyntaxKind) -> bool {
        kind == SyntaxKind::TsBoolean
    }

    open spec fn spec_node(&self) -> SyntaxNodeV {
        self.syntax@
    }

    fn can_cast(kind: SyntaxKind) -> (r: bool) {
        kind == SyntaxKind::TsBoolean
    }

    fn cast(syntax: SyntaxNode) -> (r: Option<Self>) {
        if syntax.kind == SyntaxKind::TsBoolean {
            Some(TsBoolean { syntax })
        } else {
            None
        }
    }

    fn syntax(&self) -> (r: &SyntaxNode) {
        &self.syntax
    }
}

/// Typed wrapper for a `SyntaxKind::TsBigint` node.
#[derive(Debug, Clone, PartialEq, Eq, Hash)]
pub struct TsBigint {
    pub syntax: SyntaxNode,
}

impl TsBigint {
    pub fn ident(&self) -> (r: SyntaxResult<Ident>)
        ensures
            mandatory_node_ens::<Ident>(self.syntax@, r),
    {
        as_mandatory_node::<Ident>(&self.syntax)
    }
}

impl AstNode for TsBigint {
    open spec fn spec_can_cast(kind: SyntaxKind) -> bool {
        kind == SyntaxKind::TsBigint
    }

    open spec fn spec_node(&self) -> SyntaxNodeV {
        self.syntax@
    }

    fn can_cast(kind: SyntaxKind) -> (r: bool) {
        kind == SyntaxKind::TsBigint
    }

    fn cast(syntax: SyntaxNode) -> (r: Option<Self>) {
        if syntax.kind == SyntaxKind::TsBigint {
            Some(TsBigint { syntax })
        } else {
            None
        }
    }

    fn syntax(&self) -> (r: &SyntaxNode) {
        &self.syntax
    }
}

/// Typed wrapper for a `SyntaxKind::TsString` node.
#[derive(Debug, Clone, PartialEq, Eq, Hash)]
pub struct TsString {
    pub syntax: SyntaxNode,
}

impl TsString {
    pub fn ident(&self) -> (r: SyntaxResult<Ident>)
        ensures
            mandatory_node_ens::<Ident>(self.syntax@, r),
    {
        as_mandatory_node::<Ident>(&self.syntax)
    }
}

impl AstNode for TsString {
    open spec fn spec_can_cast(kind: SyntaxKind) -> bool {
        kind == SyntaxKind::TsString
    }

    open spec fn spec_node(&self) -> SyntaxNodeV {
        self.syntax@
    }

    fn can_cast(kind: SyntaxKind) -> (r: bool) {
        kind == SyntaxKind::TsString
    }

    fn cast(syntax: SyntaxNode) -> (r: Option<Self>) {
        if syntax.kind == SyntaxKind::TsString {
            Some(TsString { syntax })
        } else {
            None
        }
    }

    fn syntax(&self) -> (r: &SyntaxNode) {
        &self.syntax
    }
}

/// Typed wrapper for a `SyntaxKind::TsSymbol` node.
#[derive(Debug, Clone, PartialEq, Eq, Hash)]
pub struct TsSymbol {
    pub syntax: SyntaxNode,
}

impl TsSymbol {
    pub fn ident(&self) -> (r: SyntaxResult<Ident>)
        ensures
            mandatory_node_ens::<Ident>(self.syntax@, r),
    {
        as_mandatory_node::<Ident>(&self.syntax)
    }
}

impl AstNode for TsSymbol {
    open spec fn spec_can_cast(kind: SyntaxKind) -> bool {
        kind == SyntaxKind::TsSymbol
    }

    open spec fn spec_node(&self) -> SyntaxNodeV {
        self.syntax@
    }

    fn can_cast(kind: SyntaxKind) -> (r: bool) {
        kind == SyntaxKind::TsSymbol
    }

    fn cast(syntax: SyntaxNode) -> (r: Option<Self>) {
        if syntax.kind == SyntaxKind::TsSymbol {
            Some(TsSymbol { syntax })
        } else {
            None
        }
    }

    fn syntax(&self) -> (r: &SyntaxNode) {
        &self.syntax
    }
}

/// Typed wrapper for a `SyntaxKind::TsVoid` node.
#[derive(Debug, Clone, PartialEq, Eq, Hash)]
pub struct TsVoid {
    pub syntax: SyntaxNode,
}

impl TsVoid {
    pub fn void_token(&self) -> (r: SyntaxResult<SyntaxToken>)
        ensures
            mandatory_token_ens(self.syntax@, SyntaxKind::VoidKw, r),
    {
        as_mandatory_token(&self.syntax, SyntaxKind::VoidKw)
    }
}

impl AstNode for TsVoid {
    open spec fn spec_can_cast(kind: SyntaxKind) -> bool {
        kind == SyntaxKind::TsVoid
    }

    open spec fn spec_node(&self) -> SyntaxNodeV {
        self.syntax@
    }

    fn can_cast(kind: SyntaxKind) -> (r: bool) {
        kind == SyntaxKind::TsVoid
    }

    fn cast(syntax: SyntaxNode) -> (r: Option<Self>) {
        if syntax.kind == SyntaxKind::TsVoid {
            Some(TsVoid { syntax })
        } else {
            None
        }
    }

    fn syntax(&self) -> (r: &SyntaxNode) {
        &self.syntax
    }
}

/// Typed wrapper for a `SyntaxKind::TsUndefined` node.
#[derive(Debug, Clone, PartialEq, Eq, Hash)]
pub struct TsUndefined {
    pub syntax: SyntaxNode,
}

impl TsUndefined {
    pub fn undefined_token(&self) -> (r: SyntaxResult<SyntaxToken>)
        ensures
            mandatory_token_ens(self.syntax@, SyntaxKind::Undefined, r),
    {
        as_mandatory_token(&self.syntax, SyntaxKind::Undefined)
    }
}

impl AstNode for TsUndefined {
    open spec fn spec_can_cast(kind: SyntaxKind) -> bool {
        kind == SyntaxKind::TsUndefined
    }

    open spec fn spec_node(&self) -> SyntaxNodeV {
        self.syntax@
    }

    fn can_cast(kind: SyntaxKind) -> (r: bool) {
        kind == SyntaxKind::TsUndefined
    }

    fn cast(syntax: SyntaxNode) -> (r: Option<Self>) {
        if syntax.kind == SyntaxKind::TsUndefined {
            Some(TsUndefined { syntax })
        } else {
            None
        }
    }

    fn syntax(&self) -> (r: &SyntaxNode) {
        &self.syntax
    }
}

/// Typed wrapper for a `SyntaxKind::TsNull` node.
#[derive(Debug, Clone, PartialEq, Eq, Hash)]
pub struct TsNull {
    pub syntax: SyntaxNode,
}

impl TsNull {
    pub fn null_token(&self) -> (r: SyntaxResult<SyntaxToken>)
        ensures
            mandatory_token_ens(self.syntax@, SyntaxKind::Null, r),
    {
        as_mandatory_token(&self.syntax, SyntaxKind::Null)
    }
}

impl AstNode for TsNull {
    open spec fn spec_can_cast(kind: SyntaxKind) -> bool {
        kind == SyntaxKind::TsNull
    }

    open spec fn spec_node(&self) -> SyntaxNodeV {
        self.syntax@
    }

    fn can_cast(kind: SyntaxKind) -> (r: bool) {
        kind == SyntaxKind::TsNull
    }

    fn cast(syntax: SyntaxNode) -> (r: Option<Self>) {
        if syntax.kind == SyntaxKind::TsNull {
            Some(TsNull { syntax })
        } else {
            None
        }
    }

    fn syntax(&self) -> (r: &SyntaxNode) {
        &self.syntax
    }
}

/// Typed wrapper for a `SyntaxKind::TsNever` node.
#[derive(Debug, Clone, PartialEq, Eq, Hash)]
pub struct TsNever {
    pub syntax: SyntaxNode,
}

impl TsNever {
    pub fn never_token(&self) -> (r: SyntaxResult<SyntaxToken>)
        ensures
            mandatory_token_ens(self.syntax@, SyntaxKind::NeverKw, r),
    {
        as_mandatory_token(&self.syntax, SyntaxKind::NeverKw)
    }
}

impl AstNode for TsNever {
    open spec fn spec_can_cast(kind: SyntaxKind) -> bool {
        kind == SyntaxKind::TsNever
    }

    open spec fn spec_node(&self) -> SyntaxNodeV {
        self.syntax@
    }

    fn can_cast(kind: SyntaxKind) -> (r: bool) {
        kind == SyntaxKind::TsNever
    }

    fn cast(syntax: SyntaxNode) -> (r: Option<Self>) {
        if syntax.kind == SyntaxKind::TsNever {
            Some(TsNever { syntax })
        } else {
            None
        }
    }

    fn syntax(&self) -> (r: &SyntaxNode) {
        &self.syntax
    }
}

/// Typed wrapper for a `SyntaxKind::TsThis` node.
#[derive(Debug, Clone, PartialEq, Eq, Hash)]
pub struct TsThis {
    pub syntax: SyntaxNode,
}

impl TsThis {
    pub fn this_token(&self) -> (r: SyntaxResult<SyntaxToken>)
        ensures
            mandatory_token_ens(self.syntax@, SyntaxKind::ThisKw, r),
    {
        as_mandatory_token(&self.syntax, SyntaxKind::ThisKw)
    }
}

impl AstNode for TsThis {
    open spec fn spec_can_cast(kind: SyntaxKind) -> bool {
        kind == SyntaxKind::TsThis
    }

    open spec fn spec_node(&self) -> SyntaxNodeV {
        self.syntax@
    }

    fn can_cast(kind: SyntaxKind) -> (r: bool) {
        kind == SyntaxKind::TsThis
    }

    fn cast(syntax: SyntaxNode) -> (r: Option<Self>) {
        if syntax.kind == SyntaxKind::TsThis {
            Some(TsThis { syntax })
        } else {
            None
        }
    }

    fn syntax(&self) -> (r: &SyntaxNode) {
        &self.syntax
    }
}

/// Typed wrapper for a `SyntaxKind::TsLiteral` node.
#[derive(Debug, Clone, PartialEq, Eq, Hash)]
pub struct TsLiteral {
    pub syntax: SyntaxNode,
}

impl TsLiteral {
    pub fn ident(&self) -> (r: SyntaxResult<Ident>)
        ensures
            mandatory_node_ens::<Ident>(self.syntax@, r),
    {
        as_mandatory_node::<Ident>(&self.syntax)
    }
}

impl AstNode for TsLiteral {
    open spec fn spec_can_cast(kind: SyntaxKind) -> bool {
        kind == SyntaxKind::TsLiteral
    }

    open spec fn spec_node(&self) -> SyntaxNodeV {
        self.syntax@
    }

    fn can_cast(kind: SyntaxKind) -> (r: bool) {
        kind == SyntaxKind::TsLiteral
    }

    fn cast(syntax: SyntaxNode) -> (r: Option<Self>) {
        if syntax.kind == SyntaxKind::TsLiteral {
            Some(TsLiteral { syntax })
        } else {
            None
        }
    }

    fn syntax(&self) -> (r: &SyntaxNode) {
        &self.syntax
    }
}

/// Typed wrapper for a `SyntaxKind::TsPredicate` node.
#[derive(Debug, Clone, PartialEq, Eq, Hash)]
pub struct TsPredicate {
    pub syntax: SyntaxNode,
}

impl TsPredicate {
    pub fn lhs(&self) -> (r: SyntaxResult<TsThisOrMore>)
        ensures
            mandatory_node_ens::<TsThisOrMore>(self.syntax@, r),
    {
        as_mandatory_node::<TsThisOrMore>(&self.syntax)
    }

    pub fn rhs(&self) -> (r: SyntaxResult<TsType>)
        ensures
            mandatory_node_ens::<TsType>(self.syntax@, r),
    {
        as_mandatory_node::<TsType>(&self.syntax)
    }
}

impl AstNode for TsPredicate {
    open spec fn spec_can_cast(kind: SyntaxKind) -> bool {
        kind == SyntaxKind::TsPredicate
    }

    open spec fn spec_node(&self) -> SyntaxNodeV {
        self.syntax@
    }

    fn can_cast(kind: SyntaxKind) -> (r: bool) {
        kind == SyntaxKind::TsPredicate
    }

    fn cast(syntax: SyntaxNode) -> (r: Option<Self>) {
        if syntax.kind == SyntaxKind::TsPredicate {
            Some(TsPredicate { syntax })
        } else {
            None
        }
    }

    fn syntax(&self) -> (r: &SyntaxNode) {
        &self.syntax
    }
}

/// Typed wrapper for a `SyntaxKind::TsTuple` node.
#[derive(Debug, Clone, PartialEq, Eq, Hash)]
pub struct TsTuple {
    pub syntax: SyntaxNode,
}

impl TsTuple {
    pub fn l_brack_token(&self) -> (r: SyntaxResult<SyntaxToken>)
        ensures
            mandatory_token_ens(self.syntax@, SyntaxKind::LBrack, r),
    {
        as_mandatory_token(&self.syntax, SyntaxKind::LBrack)
    }

    pub fn elements(&self) -> (r: SyntaxResult<TsTupleElement>)
        ensures
            mandatory_node_ens::<TsTupleElement>(self.syntax@, r),
    {
        as_mandatory_node::<TsTupleElement>(&self.syntax)
    }

    pub fn r_brack_token(&self) -> (r: SyntaxResult<SyntaxToken>)
        ensures
            mandatory_token_ens(self.syntax@, SyntaxKind::RBrack, r),
    {
        as_mandatory_token(&self.syntax, SyntaxKind::RBrack)
    }
}

impl AstNode for TsTuple {
    open spec fn spec_can_cast(kind: SyntaxKind) -> bool {
        kind == SyntaxKind::TsTuple
    }

    open spec fn spec_node(&self) -> SyntaxNodeV {
        self.syntax@
    }

    fn can_cast(kind: SyntaxKind) -> (r: bool) {
        kind == SyntaxKind::TsTuple
    }

    fn cast(syntax: SyntaxNode) -> (r: Option<Self>) {
        if syntax.kind == SyntaxKind::TsTuple {
            Some(TsTuple { syntax })
        } else {
            None
        }
    }

    fn syntax(&self) -> (r: &SyntaxNode) {
        &self.syntax
    }
}

/// Typed wrapper for a `SyntaxKind::TsParen` node.
#[derive(Debug, Clone, PartialEq, Eq, Hash)]
pub struct TsParen {
    pub syntax: SyntaxNode,
}

impl TsParen {
    pub fn l_paren_token(&self) -> (r: SyntaxResult<SyntaxToken>)
        ensures
            mandatory_token_ens(self.syntax@, SyntaxKind::LParen, r),
    {
        as_mandatory_token(&self.syntax, SyntaxKind::LParen)
    }

    pub fn ty(&self) -> (r: SyntaxResult<TsType>)
        ensures
            mandatory_node_ens::<TsType>(self.syntax@, r),
    {
        as_mandatory_node::<TsType>(&self.syntax)
    }

    pub fn r_paren_token(&self) -> (r: SyntaxResult<SyntaxToken>)
        ensures
            mandatory_token_ens(self.syntax@, SyntaxKind::RParen, r),
    {
        as_mandatory_token(&self.syntax, SyntaxKind::RParen)
    }
}

impl AstNode for TsParen {
    open spec fn spec_can_cast(kind: SyntaxKind) -> bool {
        kind == SyntaxKind::TsParen
    }

    open spec fn spec_node(&self) -> SyntaxNodeV {
        self.syntax@
    }

    fn can_cast(kind: SyntaxKind) -> (r: bool) {
        kind == SyntaxKind::TsParen
    }

    fn cast(syntax: SyntaxNode) -> (r: Option<Self>) {
        if syntax.kind == SyntaxKind::TsParen {
            Some(TsParen { syntax })
        } else {
            None
        }
    }

    fn syntax(&self) -> (r: &SyntaxNode) {
        &self.syntax
    }
}

/// Typed wrapper for a `SyntaxKind::TsTypeRef` node.
#[derive(Debug, Clone, PartialEq, Eq, Hash)]
pub struct TsTypeRef {
    pub syntax: SyntaxNode,
}

impl TsTypeRef {
    pub fn name(&self) -> (r: SyntaxResult<TsEntityName>)
        ensures
            mandatory_node_ens::<TsEntityName>(self.syntax@, r),
    {
        as_mandatory_node::<TsEntityName>(&self.syntax)
    }

    pub fn type_args(&self) -> (r: SyntaxResult<TsTypeArgs>)
        ensures
            mandatory_node_ens::<TsTypeArgs>(self.syntax@, r),
    {
        as_mandatory_node::<TsTypeArgs>(&self.syntax)
    }
}

impl AstNode for TsTypeRef {
    open spec fn spec_can_cast(kind: SyntaxKind) -> bool {
        kind == SyntaxKind::TsTypeRef
    }

    open spec fn spec_node(&self) -> SyntaxNodeV {
        self.syntax@
    }

    fn can_cast(kind: SyntaxKind) -> (r: bool) {
        kind == SyntaxKind::TsTypeRef
    }

    fn cast(syntax: SyntaxNode) -> (r: Option<Self>) {
        if syntax.kind == SyntaxKind::TsTypeRef {
            Some(TsTypeRef { syntax })
        } else {
            None
        }
    }

    fn syntax(&self) -> (r: &SyntaxNode) {
        &self.syntax
    }
}

/// Typed wrapper for a `SyntaxKind::TsTemplate` node.
#[derive(Debug, Clone, PartialEq, Eq, Hash)]
pub struct TsTemplate {
    pub syntax: SyntaxNode,
}

impl TsTemplate {
    pub fn elements(&self) -> (r: SyntaxResult<TsTemplateElement>)
        ensures
            mandatory_node_ens::<TsTemplateElement>(self.syntax@, r),
    {
        as_mandatory_node::<TsTemplateElement>(&self.syntax)
    }
}

impl AstNode for TsTemplate {
    open spec fn spec_can_cast(kind: SyntaxKind) -> bool {
        kind == SyntaxKind::TsTemplate
    }

    open spec fn spec_node(&self) -> SyntaxNodeV {
        self.syntax@
    }

    fn can_cast(kind: SyntaxKind) -> (r: bool) {
        kind == SyntaxKind::TsTemplate
    }

    fn cast(syntax: SyntaxNode) -> (r: Option<Self>) {
        if syntax.kind == SyntaxKind::TsTemplate {
            Some(TsTemplate { syntax })
        } else {
            None
        }
    }

    fn syntax(&self) -> (r: &SyntaxNode) {
        &self.syntax
    }
}

/// Typed wrapper for a `SyntaxKind::TsMappedType` node.
#[derive(Debug, Clone, PartialEq, Eq, Hash)]
pub struct TsMappedType {
    pub syntax: SyntaxNode,
}

impl TsMappedType {
    pub fn l_curly_token(&self) -> (r: SyntaxResult<SyntaxToken>)
        ensures
            mandatory_token_ens(self.syntax@, SyntaxKind::LCurly, r),
    {
        as_mandatory_token(&self.syntax, SyntaxKind::LCurly)
    }

    pub fn readonly_modifier(&self) -> (r: Option<TsMappedTypeReadonly>)
        ensures
            optional_node_ens::<TsMappedTypeReadonly>(self.syntax@, r),
    {
        as_optional_node::<TsMappedTypeReadonly>(&self.syntax)
    }

    pub fn minus_token(&self) -> (r: Option<SyntaxToken>)
        ensures
            optional_token_ens(self.syntax@, SyntaxKind::Minus, r),
    {
        as_optional_token(&self.syntax, SyntaxKind::Minus)
    }

    pub fn plus_token(&self) -> (r: Option<SyntaxToken>)
        ensures
            optional_token_ens(self.syntax@, SyntaxKind::Plus, r),
    {
        as_optional_token(&self.syntax, SyntaxKind::Plus)
    }

    pub fn question_mark_token(&self) -> (r: Option<SyntaxToken>)
        ensures
            optional_token_ens(self.syntax@, SyntaxKind::QuestionMark, r),
    {
        as_optional_token(&self.syntax, SyntaxKind::QuestionMark)
    }

    pub fn param(&self) -> (r: SyntaxResult<TsMappedTypeParam>)
        ensures
            mandatory_node_ens::<TsMappedTypeParam>(self.syntax@, r),
    {
        as_mandatory_node::<TsMappedTypeParam>(&self.syntax)
    }

    pub fn colon_token(&self) -> (r: SyntaxResult<SyntaxToken>)
        ensures
            mandatory_token_ens(self.syntax@, SyntaxKind::Colon, r),
    {
        as_mandatory_token(&self.syntax, SyntaxKind::Colon)
    }

    pub fn ty(&self) -> (r: SyntaxResult<TsType>)
        ensures
            mandatory_node_ens::<TsType>(self.syntax@, r),
    {
        as_mandatory_node::<TsType>(&self.syntax)
    }

    pub fn r_curly_token(&self) -> (r: SyntaxResult<SyntaxToken>)
        ensures
            mandatory_token_ens(self.syntax@, SyntaxKind::RCurly, r),
    {
        as_mandatory_token(&self.syntax, SyntaxKind::RCurly)
    }

    pub fn semicolon_token(&self) -> (r: Option<SyntaxToken>)
        ensures
            optional_token_ens(self.syntax@, SyntaxKind::Semicolon, r),
    {
        as_optional_token(&self.syntax, SyntaxKind::Semicolon)
    }
}

impl AstNode for TsMappedType {
    open spec fn spec_can_cast(kind: SyntaxKind) -> bool {
        kind == SyntaxKind::TsMappedType
    }

    open spec fn spec_node(&self) -> SyntaxNodeV {
        self.syntax@
    }

    fn can_cast(kind: SyntaxKind) -> (r: bool) {
        kind == SyntaxKind::TsMappedType
    }

    fn cast(syntax: SyntaxNode) -> (r: Option<Self>) {
        if syntax.kind == SyntaxKind::TsMappedType {
            Some(TsMappedType { syntax })
        } else {
            None
        }
    }

    fn syntax(&self) -> (r: &SyntaxNode) {
        &self.syntax
    }
}

/// Typed wrapper for a `SyntaxKind::TsImport` node.
#[derive(Debug, Clone, PartialEq, Eq, Hash)]
pub struct TsImport {
    pub syntax: SyntaxNode,
}

impl TsImport {
    pub fn import_token(&self) -> (r: SyntaxResult<SyntaxToken>)
        ensures
            mandatory_token_ens(self.syntax@, SyntaxKind::ImportKw, r),
    {
        as_mandatory_token(&self.syntax, SyntaxKind::ImportKw)
    }

    pub fn type_args(&self) -> (r: SyntaxResult<TsTypeArgs>)
        ensures
            mandatory_node_ens::<TsTypeArgs>(self.syntax@, r),
    {
        as_mandatory_node::<TsTypeArgs>(&self.syntax)
    }

    pub fn dot_token(&self) -> (r: Option<SyntaxToken>)
        ensures
            optional_token_ens(self.syntax@, SyntaxKind::Dot, r),
    {
        as_optional_token(&self.syntax, SyntaxKind::Dot)
    }

    pub fn l_paren_token(&self) -> (r: SyntaxResult<SyntaxToken>)
        ensures
            mandatory_token_ens(self.syntax@, SyntaxKind::LParen, r),
    {
        as_mandatory_token(&self.syntax, SyntaxKind::LParen)
    }

    pub fn qualifier(&self) -> (r: SyntaxResult<TsEntityName>)
        ensures
            mandatory_node_ens::<TsEntityName>(self.syntax@, r),
    {
        as_mandatory_node::<TsEntityName>(&self.syntax)
    }

    pub fn r_paren_token(&self) -> (r: SyntaxResult<SyntaxToken>)
        ensures
            mandatory_token_ens(self.syntax@, SyntaxKind::RParen, r),
    {
        as_mandatory_token(&self.syntax, SyntaxKind::RParen)
    }
}

impl AstNode for TsImport {
    open spec fn spec_can_cast(kind: SyntaxKind) -> bool {
        kind == SyntaxKind::TsImport
    }

    open spec fn spec_node(&self) -> SyntaxNodeV {
        self.syntax@
    }

    fn can_cast(kind: SyntaxKind) -> (r: bool) {
        kind == SyntaxKind::TsImport
    }

    fn cast(syntax: SyntaxNode) -> (r: Option<Self>) {
        if syntax.kind == SyntaxKind::TsImport {
            Some(TsImport { syntax })
        } else {
            None
        }
    }

    fn syntax(&self) -> (r: &SyntaxNode) {
        &self.syntax
    }
}

/// Typed wrapper for a `SyntaxKind::TsArray` node.
#[derive(Debug, Clone, PartialEq, Eq, Hash)]
pub struct TsArray {
    pub syntax: SyntaxNode,
}

impl TsArray {
    pub fn l_brack_token(&self) -> (r: SyntaxResult<SyntaxToken>)
        ensures
            mandatory_token_ens(self.syntax@, SyntaxKind::LBrack, r),
    {
        as_mandatory_token(&self.syntax, SyntaxKind::LBrack)
    }

    pub fn ty(&self) -> (r: SyntaxResult<TsType>)
        ensures
            mandatory_node_ens::<TsType>(self.syntax@, r),
    {
        as_mandatory_node::<TsType>(&self.syntax)
    }

    pub fn r_brack_token(&self) -> (r: SyntaxResult<SyntaxToken>)
        ensures
            mandatory_token_ens(self.syntax@, SyntaxKind::RBrack, r),
    {
        as_mandatory_token(&self.syntax, SyntaxKind::RBrack)
    }
}

impl AstNode for TsArray {
    open spec fn spec_can_cast(kind: SyntaxKind) -> bool {
        kind == SyntaxKind::TsArray
    }

    open spec fn spec_node(&self) -> SyntaxNodeV {
        self.syntax@
    }

    fn can_cast(kind: SyntaxKind) -> (r: bool) {
        kind == SyntaxKind::TsArray
    }

    fn cast(syntax: SyntaxNode) -> (r: Option<Self>) {
        if syntax.kind == SyntaxKind::TsArray {
            Some(TsArray { syntax })
        } else {
            None
        }
    }

    fn syntax(&self) -> (r: &SyntaxNode) {
        &self.syntax
    }
}

/// Typed wrapper for a `SyntaxKind::TsIndexedArray` node.
#[derive(Debug, Clone, PartialEq, Eq, Hash)]
pub struct TsIndexedArray {
    pub syntax: SyntaxNode,
}

impl TsIndexedArray {
    pub fn l_brack_token(&self) -> (r: SyntaxResult<SyntaxToken>)
        ensures
            mandatory_token_ens(self.syntax@, SyntaxKind::LBrack, r),
    {
        as_mandatory_token(&self.syntax, SyntaxKind::LBrack)
    }

    pub fn ty(&self) -> (r: SyntaxResult<TsType>)
        ensures
            mandatory_node_ens::<TsType>(self.syntax@, r),
    {
        as_mandatory_node::<TsType>(&self.syntax)
    }

    pub fn r_brack_token(&self) -> (r: SyntaxResult<SyntaxToken>)
        ensures
            mandatory_token_ens(self.syntax@, SyntaxKind::RBrack, r),
    {
        as_mandatory_token(&self.syntax, SyntaxKind::RBrack)
    }
}

impl AstNode for TsIndexedArray {
    open spec fn spec_can_cast(kind: SyntaxKind) -> bool {
        kind == SyntaxKind::TsIndexedArray
    }

    open spec fn spec_node(&self) -> SyntaxNodeV {
        self.syntax@
    }

    fn can_cast(kind: SyntaxKind) -> (r: bool) {
        kind == SyntaxKind::TsIndexedArray
    }

    fn cast(syntax: SyntaxNode) -> (r: Option<Self>) {
        if syntax.kind == SyntaxKind::TsIndexedArray {
            Some(TsIndexedArray { syntax })
        } else {
            None
        }
    }

    fn syntax(&self) -> (r: &SyntaxNode) {
        &self.syntax
    }
}

/// Typed wrapper for a `SyntaxKind::TsTypeOperator` node.
#[derive(Debug, Clone, PartialEq, Eq, Hash)]
pub struct TsTypeOperator {
    pub syntax: SyntaxNode,
}

impl TsTypeOperator {
    pub fn ty(&self) -> (r: SyntaxResult<TsType>)
        ensures
            mandatory_node_ens::<TsType>(self.syntax@, r),
    {
        as_mandatory_node::<TsType>(&self.syntax)
    }
}

impl AstNode for TsTypeOperator {
    open spec fn spec_can_cast(kind: SyntaxKind) -> bool {
        kind == SyntaxKind::TsTypeOperator
    }

    open spec fn spec_node(&self) -> SyntaxNodeV {
        self.syntax@
    }

    fn can_cast(kind: SyntaxKind) -> (r: bool) {
        kind == SyntaxKind::TsTypeOperator
    }

    fn cast(syntax: SyntaxNode) -> (r: Option<Self>) {
        if syntax.kind == SyntaxKind::TsTypeOperator {
            Some(TsTypeOperator { syntax })
        } else {
            None
        }
    }

    fn syntax(&self) -> (r: &SyntaxNode) {
        &self.syntax
    }
}

/// Typed wrapper for a `SyntaxKind::TsIntersection` node.
#[derive(Debug, Clone, PartialEq, Eq, Hash)]
pub struct TsIntersection {
    pub syntax: SyntaxNode,
}

impl TsIntersection {
    pub fn types(&self) -> (r: AstNodeList<TsType>)
        ensures
            node_list_ens::<TsType>(self.syntax@, r@),
    {
        node_list::<TsType>(&self.syntax)
    }
}

impl AstNode for TsIntersection {
    open spec fn spec_can_cast(kind: SyntaxKind) -> bool {
        kind == SyntaxKind::TsIntersection
    }

    open spec fn spec_node(&self) -> SyntaxNodeV {
        self.syntax@
    }

    fn can_cast(kind: SyntaxKind) -> (r: bool) {
        kind == SyntaxKind::TsIntersection
    }

    fn cast(syntax: SyntaxNode) -> (r: Option<Self>) {
        if syntax.kind == SyntaxKind::TsIntersection {
            Some(TsIntersection { syntax })
        } else {
            None
        }
    }

    fn syntax(&self) -> (r: &SyntaxNode) {
        &self.syntax
    }
}

/// Typed wrapper for a `SyntaxKind::TsUnion` node.
#[derive(Debug, Clone, PartialEq, Eq, Hash)]
pub struct TsUnion {
    pub syntax: SyntaxNode,
}

impl TsUnion {
    pub fn types(&self) -> (r: AstNodeList<TsType>)
        ensures
            node_list_ens::<TsType>(self.syntax@, r@),
    {
        node_list::<TsType>(&self.syntax)
    }
}

impl AstNode for TsUnion {
    open spec fn spec_can_cast(kind: SyntaxKind) -> bool {
        kind == SyntaxKind::TsUnion
    }

    open spec fn spec_node(&self) -> SyntaxNodeV {
        self.syntax@
    }

    fn can_cast(kind: SyntaxKind) -> (r: bool) {
        kind == SyntaxKind::TsUnion
    }

    fn cast(syntax: SyntaxNode) -> (r: Option<Self>) {
        if syntax.kind == SyntaxKind::TsUnion {
            Some(TsUnion { syntax })
        } else {
            None
        }
    }

    fn syntax(&self) -> (r: &SyntaxNode) {
        &self.syntax
    }
}

/// Typed wrapper for a `SyntaxKind::TsFnType` node.
#[derive(Debug, Clone, PartialEq, Eq, Hash)]
pub struct TsFnType {
    pub syntax: SyntaxNode,
}

impl TsFnType {
    pub fn params(&self) -> (r: SyntaxResult<ParameterList>)
        ensures
            mandatory_node_ens::<ParameterList>(self.syntax@, r),
    {
        as_mandatory_node::<ParameterList>(&self.syntax)
    }

    pub fn fat_arrow_token(&self) -> (r: SyntaxResult<SyntaxToken>)
        ensures
            mandatory_token_ens(self.syntax@, SyntaxKind::FatArrow, r),
    {
        as_mandatory_token(&self.syntax, SyntaxKind::FatArrow)
    }

    pub fn return_type(&self) -> (r: Option<TsType>)
        ensures
            optional_node_ens::<TsType>(self.syntax@, r),
    {
        as_optional_node::<TsType>(&self.syntax)
    }
}

impl AstNode for TsFnType {
    open spec fn spec_can_cast(kind: SyntaxKind) -> bool {
        kind == SyntaxKind::TsFnType
    }

    open spec fn spec_node(&self) -> SyntaxNodeV {
        self.syntax@
    }

    fn can_cast(kind: SyntaxKind) -> (r: bool) {
        kind == SyntaxKind::TsFnType
    }

    fn cast(syntax: SyntaxNode) -> (r: Option<Self>) {
        if syntax.kind == SyntaxKind::TsFnType {
            Some(TsFnType { syntax })
        } else {
            None
        }
    }

    fn syntax(&self) -> (r: &SyntaxNode) {
        &self.syntax
    }
}

/// Typed wrapper for a `SyntaxKind::TsConstructorType` node.
#[derive(Debug, Clone, PartialEq, Eq, Hash)]
pub struct TsConstructorType {
    pub syntax: SyntaxNode,
}

impl TsConstructorType {
    pub fn new_token(&self) -> (r: SyntaxResult<SyntaxToken>)
        ensures
            mandatory_token_ens(self.syntax@, SyntaxKind::NewKw, r),
    {
        as_mandatory_token(&self.syntax, SyntaxKind::NewKw)
    }

    pub fn params(&self) -> (r: SyntaxResult<ParameterList>)
        ensures
            mandatory_node_ens::<ParameterList>(self.syntax@, r),
    {
        as_mandatory_node::<ParameterList>(&self.syntax)
    }

    pub fn colon_token(&self) -> (r: SyntaxResult<SyntaxToken>)
        ensures
            mandatory_token_ens(self.syntax@, SyntaxKind::Colon, r),
    {
        as_mandatory_token(&self.syntax, SyntaxKind::Colon)
    }

    pub fn return_type(&self) -> (r: Option<TsType>)
        ensures
            optional_node_ens::<TsType>(self.syntax@, r),
    {
        as_optional_node::<TsType>(&self.syntax)
    }
}

impl AstNode for TsConstructorType {
    open spec fn spec_can_cast(kind: SyntaxKind) -> bool {
        kind == SyntaxKind::TsConstructorType
    }

    open spec fn spec_node(&self) -> SyntaxNodeV {
        self.syntax@
    }

    fn can_cast(kind: SyntaxKind) -> (r: bool) {
        kind == SyntaxKind::TsConstructorType
    }

    fn cast(syntax: SyntaxNode) -> (r: Option<Self>) {
        if syntax.kind == SyntaxKind::TsConstructorType {
            Some(TsConstructorType { syntax })
        } else {
            None
        }
    }

    fn syntax(&self) -> (r: &SyntaxNode) {
        &self.syntax
    }
}

/// Typed wrapper for a `SyntaxKind::TsConditionalType` node.
#[derive(Debug, Clone, PartialEq, Eq, Hash)]
pub struct TsConditionalType {
    pub syntax: SyntaxNode,
}

impl TsConditionalType {
    pub fn ty(&self) -> (r: SyntaxResult<TsType>)
        ensures
            mandatory_node_ens::<TsType>(self.syntax@, r),
    {
        as_mandatory_node::<TsType>(&self.syntax)
    }

    pub fn question_mark_token(&self) -> (r: SyntaxResult<SyntaxToken>)
        ensures
            mandatory_token_ens(self.syntax@, SyntaxKind::QuestionMark, r),
    {
        as_mandatory_token(&self.syntax, SyntaxKind::QuestionMark)
    }

    pub fn colon_token(&self) -> (r: SyntaxResult<SyntaxToken>)
        ensures
            mandatory_token_ens(self.syntax@, SyntaxKind::Colon, r),
    {
        as_mandatory_token(&self.syntax, SyntaxKind::Colon)
    }

    pub fn extends(&self) -> (r: SyntaxResult<TsExtends>)
        ensures
            mandatory_node_ens::<TsExtends>(self.syntax@, r),
    {
        as_mandatory_node::<TsExtends>(&self.syntax)
    }
}

impl AstNode for TsConditionalType {
    open spec fn spec_can_cast(kind: SyntaxKind) -> bool {
        kind == SyntaxKind::TsConditionalType
    }

    open spec fn spec_node(&self) -> SyntaxNodeV {
        self.syntax@
    }

    fn can_cast(kind: SyntaxKind) -> (r: bool) {
        kind == SyntaxKind::TsConditionalType
    }

    fn cast(syntax: SyntaxNode) -> (r: Option<Self>) {
        if syntax.kind == SyntaxKind::TsConditionalType {
            Some(TsConditionalType { syntax })
        } else {
            None
        }
    }

    fn syntax(&self) -> (r: &SyntaxNode) {
        &self.syntax
    }
}

/// Typed wrapper for a `SyntaxKind::TsObjectType` node.
#[derive(Debug, Clone, PartialEq, Eq, Hash)]
pub struct TsObjectType {
    pub syntax: SyntaxNode,
}

impl TsObjectType {
    pub fn l_curly_token(&self) -> (r: SyntaxResult<SyntaxToken>)
        ensures
            mandatory_token_ens(self.syntax@, SyntaxKind::LCurly, r),
    {
        as_mandatory_token(&self.syntax, SyntaxKind::LCurly)
    }

    pub fn members(&self) -> (r: AstNodeList<TsTypeElement>)
        ensures
            node_list_ens::<TsTypeElement>(self.syntax@, r@),
    {
        node_list::<TsTypeElement>(&self.syntax)
    }

    pub fn r_curly_token(&self) -> (r: SyntaxResult<SyntaxToken>)
        ensures
            mandatory_token_ens(self.syntax@, SyntaxKind::RCurly, r),
    {
        as_mandatory_token(&self.syntax, SyntaxKind::RCurly)
    }
}

impl AstNode for TsObjectType {
    open spec fn spec_can_cast(kind: SyntaxKind) -> bool {
        kind == SyntaxKind::TsObjectType
    }

    open spec fn spec_node(&self) -> SyntaxNodeV {
        self.syntax@
    }

    fn can_cast(kind: SyntaxKind) -> (r: bool) {
        kind == SyntaxKind::TsObjectType
    }

    fn cast(syntax: SyntaxNode) -> (r: Option<Self>) {
        if syntax.kind == SyntaxKind::TsObjectType {
            Some(TsObjectType { syntax })
        } else {
            None
        }
    }

    fn syntax(&self) -> (r: &SyntaxNode) {
        &self.syntax
    }
}

/// Typed wrapper for a `SyntaxKind::TsInfer` node.
#[derive(Debug, Clone, PartialEq, Eq, Hash)]
pub struct TsInfer {
    pub syntax: SyntaxNode,
}

impl TsInfer {
    pub fn infer_token(&self) -> (r: SyntaxResult<SyntaxToken>)
        ensures
            mandatory_token_ens(self.syntax@, SyntaxKind::InferKw, r),
    {
        as_mandatory_token(&self.syntax, SyntaxKind::InferKw)
    }

    pub fn ident(&self) -> (r: SyntaxResult<Ident>)
        ensures
            mandatory_node_ens::<Ident>(self.syntax@, r),
    {
        as_mandatory_node::<Ident>(&self.syntax)
    }
}

impl AstNode for TsInfer {
    open spec fn spec_can_cast(kind: SyntaxKind) -> bool {
        kind == SyntaxKind::TsInfer
    }

    open spec fn spec_node(&self) -> SyntaxNodeV {
        self.syntax@
    }

    fn can_cast(kind: SyntaxKind) -> (r: bool) {
        kind == SyntaxKind::TsInfer
    }

    fn cast(syntax: SyntaxNode) -> (r: Option<Self>) {
        if syntax.kind == SyntaxKind::TsInfer {
            Some(TsInfer { syntax })
        } else {
            None
        }
    }

    fn syntax(&self) -> (r: &SyntaxNode) {
        &self.syntax
    }
}

/// Typed wrapper for a `SyntaxKind::TsTupleElement` node.
#[derive(Debug, Clone, PartialEq, Eq, Hash)]
pub struct TsTupleElement {
    pub syntax: SyntaxNode,
}

impl TsTupleElement {
    pub fn ident(&self) -> (r: SyntaxResult<Ident>)
        ensures
            mandatory_node_ens::<Ident>(self.syntax@, r),
    {
        as_mandatory_node::<Ident>(&self.syntax)
    }

    pub fn colon_token(&self) -> (r: SyntaxResult<SyntaxToken>)
        ensures
            mandatory_token_ens(self.syntax@, SyntaxKind::Colon, r),
    {
        as_mandatory_token(&self.syntax, SyntaxKind::Colon)
    }

    pub fn question_mark_token(&self) -> (r: SyntaxResult<SyntaxToken>)
        ensures
            mandatory_token_ens(self.syntax@, SyntaxKind::QuestionMark, r),
    {
        as_mandatory_token(&self.syntax, SyntaxKind::QuestionMark)
    }

    pub fn dotdotdot_token(&self) -> (r: Option<SyntaxToken>)
        ensures
            optional_token_ens(self.syntax@, SyntaxKind::DotDotDot, r),
    {
        as_optional_token(&self.syntax, SyntaxKind::DotDotDot)
    }

    pub fn ty(&self) -> (r: SyntaxResult<TsType>)
        ensures
            mandatory_node_ens::<TsType>(self.syntax@, r),
    {
        as_mandatory_node::<TsType>(&self.syntax)
    }
}

impl AstNode for TsTupleElement {
    open spec fn spec_can_cast(kind: SyntaxKind) -> bool {
        kind == SyntaxKind::TsTupleElement
    }

    open spec fn spec_node(&self) -> SyntaxNodeV {
        self.syntax@
    }

    fn can_cast(kind: SyntaxKind) -> (r: bool) {
        kind == SyntaxKind::TsTupleElement
    }

    fn cast(syntax: SyntaxNode) -> (r: Option<Self>) {
        if syntax.kind == SyntaxKind::TsTupleElement {
            Some(TsTupleElement { syntax })
        } else {
            None
        }
    }

    fn syntax(&self) -> (r: &SyntaxNode) {
        &self.syntax
    }
}

/// Typed wrapper for a `SyntaxKind::TsEnumMember` node.
#[derive(Debug, Clone, PartialEq, Eq, Hash)]
pub struct TsEnumMember {
    pub syntax: SyntaxNode,
}

impl TsEnumMember {
    pub fn ident(&self) -> (r: SyntaxResult<Ident>)
        ensures
            mandatory_node_ens::<Ident>(self.syntax@, r),
    {
        as_mandatory_node::<Ident>(&self.syntax)
    }

    pub fn eq_token(&self) -> (r: SyntaxResult<SyntaxToken>)
        ensures
            mandatory_token_ens(self.syntax@, SyntaxKind::Assign, r),
    {
        as_mandatory_token(&self.syntax, SyntaxKind::Assign)
    }

    pub fn value(&self) -> (r: SyntaxResult<Expr>)
        ensures
            mandatory_node_ens::<Expr>(self.syntax@, r),
    {
        as_mandatory_node::<Expr>(&self.syntax)
    }
}

impl AstNode for TsEnumMember {
    open spec fn spec_can_cast(kind: SyntaxKind) -> bool {
        kind == SyntaxKind::TsEnumMember
    }

    open spec fn spec_node(&self) -> SyntaxNodeV {
        self.syntax@
    }

    fn can_cast(kind: SyntaxKind) -> (r: bool) {
        kind == SyntaxKind::TsEnumMember
    }

    fn cast(syntax: SyntaxNode) -> (r: Option<Self>) {
        if syntax.kind == SyntaxKind::TsEnumMember {
            Some(TsEnumMember { syntax })
        } else {
            None
        }
    }

    fn syntax(&self) -> (r: &SyntaxNode) {
        &self.syntax
    }
}

/// Typed wrapper for a `SyntaxKind::TsTemplateElement` node.
#[derive(Debug, Clone, PartialEq, Eq, Hash)]
pub struct TsTemplateElement {
    pub syntax: SyntaxNode,
}

impl TsTemplateElement {
    pub fn ty(&self) -> (r: SyntaxResult<TsType>)
        ensures
            mandatory_node_ens::<TsType>(self.syntax@, r),
    {
        as_mandatory_node::<TsType>(&self.syntax)
    }

    pub fn r_curly_token(&self) -> (r: SyntaxResult<SyntaxToken>)
        ensures
            mandatory_token_ens(self.syntax@, SyntaxKind::RCurly, r),
    {
        as_mandatory_token(&self.syntax, SyntaxKind::RCurly)
    }
}

impl AstNode for TsTemplateElement {
    open spec fn spec_can_cast(kind: SyntaxKind) -> bool {
        kind == SyntaxKind::TsTemplateElement
    }

    open spec fn spec_node(&self) -> SyntaxNodeV {
        self.syntax@
    }

    fn can_cast(kind: SyntaxKind) -> (r: bool) {
        kind == SyntaxKind::TsTemplateElement
    }

    fn cast(syntax: SyntaxNode) -> (r: Option<Self>) {
        if syntax.kind == SyntaxKind::TsTemplateElement {
            Some(TsTemplateElement { syntax })
        } else {
            None
        }
    }

    fn syntax(&self) -> (r: &SyntaxNode) {
        &self.syntax
    }
}

/// Typed wrapper for a `SyntaxKind::TsMappedTypeReadonly` node.
#[derive(Debug, Clone, PartialEq, Eq, Hash)]
pub struct TsMappedTypeReadonly {
    pub syntax: SyntaxNode,
}

impl TsMappedTypeReadonly {
    pub fn minus_token(&self) -> (r: Option<SyntaxToken>)
        ensures
            optional_token_ens(self.syntax@, SyntaxKind::Minus, r),
    {
        as_optional_token(&self.syntax, SyntaxKind::Minus)
    }

    pub fn plus_token(&self) -> (r: Option<SyntaxToken>)
        ensures
            optional_token_ens(self.syntax@, SyntaxKind::Plus, r),
    {
        as_optional_token(&self.syntax, SyntaxKind::Plus)
    }

    pub fn readonly_token(&self) -> (r: Option<SyntaxToken>)
        ensures
            optional_token_ens(self.syntax@, SyntaxKind::ReadonlyKw, r),
    {
        as_optional_token(&self.syntax, SyntaxKind::ReadonlyKw)
    }
}

impl AstNode for TsMappedTypeReadonly {
    open spec fn spec_can_cast(kind: SyntaxKind) -> bool {
        kind == SyntaxKind::TsMappedTypeReadonly
    }

    open spec fn spec_node(&self) -> SyntaxNodeV {
        self.syntax@
    }

    fn can_cast(kind: SyntaxKind) -> (r: bool) {
        kind == SyntaxKind::TsMappedTypeReadonly
    }

    fn cast(syntax: SyntaxNode) -> (r: Option<Self>) {
        if syntax.kind == SyntaxKind::TsMappedTypeReadonly {
            Some(TsMappedTypeReadonly { syntax })
        } else {
            None
        }
    }

    fn syntax(&self) -> (r: &SyntaxNode) {
        &self.syntax
    }
}

/// Typed wrapper for a `SyntaxKind::TsMappedTypeParam` node.
#[derive(Debug, Clone, PartialEq, Eq, Hash)]
pub struct TsMappedTypeParam {
    pub syntax: SyntaxNode,
}

impl TsMappedTypeParam {
    pub fn l_brack_token(&self) -> (r: Option<SyntaxToken>)
        ensures
            optional_token_ens(self.syntax@, SyntaxKind::LBrack, r),
    {
        as_optional_token(&self.syntax, SyntaxKind::LBrack)
    }

    pub fn name(&self) -> (r: Option<TsTypeName>)
        ensures
            optional_node_ens::<TsTypeName>(self.syntax@, r),
    {
        as_optional_node::<TsTypeName>(&self.syntax)
    }

    pub fn r_brack_token(&self) -> (r: Option<SyntaxToken>)
        ensures
            optional_token_ens(self.syntax@, SyntaxKind::RBrack, r),
    {
        as_optional_token(&self.syntax, SyntaxKind::RBrack)
    }

    pub fn ident(&self) -> (r: Option<Ident>)
        ensures
            optional_node_ens::<Ident>(self.syntax@, r),
    {
        as_optional_node::<Ident>(&self.syntax)
    }

    pub fn ty(&self) -> (r: SyntaxResult<TsType>)
        ensures
            mandatory_node_ens::<TsType>(self.syntax@, r),
    {
        as_mandatory_node::<TsType>(&self.syntax)
    }
}

impl AstNode for TsMappedTypeParam {
    open spec fn spec_can_cast(kind: SyntaxKind) -> bool {
        kind == SyntaxKind::TsMappedTypeParam
    }

    open spec fn spec_node(&self) -> SyntaxNodeV {
        self.syntax@
    }

    fn can_cast(kind: SyntaxKind) -> (r: bool) {
        kind == SyntaxKind::TsMappedTypeParam
    }

    fn cast(syntax: SyntaxNode) -> (r: Option<Self>) {
        if syntax.kind == SyntaxKind::TsMappedTypeParam {
            Some(TsMappedTypeParam { syntax })
        } else {
            None
        }
    }

    fn syntax(&self) -> (r: &SyntaxNode) {
        &self.syntax
    }
}

/// Typed wrapper for a `SyntaxKind::TsTypeName` node.
#[derive(Debug, Clone, PartialEq, Eq, Hash)]
pub struct TsTypeName {
    pub syntax: SyntaxNode,
}

impl TsTypeName {
    pub fn ident(&self) -> (r: SyntaxResult<Ident>)
        ensures
            mandatory_node_ens::<Ident>(self.syntax@, r),
    {
        as_mandatory_node::<Ident>(&self.syntax)
    }
}

impl AstNode for TsTypeName {
    open spec fn spec_can_cast(kind: SyntaxKind) -> bool {
        kind == SyntaxKind::TsTypeName
    }

    open spec fn spec_node(&self) -> SyntaxNodeV {
        self.syntax@
    }

    fn can_cast(kind: SyntaxKind) -> (r: bool) {
        kind == SyntaxKind::TsTypeName
    }

    fn cast(syntax: SyntaxNode) -> (r: Option<Self>) {
        if syntax.kind == SyntaxKind::TsTypeName {
            Some(TsTypeName { syntax })
        } else {
            None
        }
    }

    fn syntax(&self) -> (r: &SyntaxNode) {
        &self.syntax
    }
}

/// Typed wrapper for a `SyntaxKind::TsExtends` node.
#[derive(Debug, Clone, PartialEq, Eq, Hash)]
pub struct TsExtends {
    pub syntax: SyntaxNode,
}

impl TsExtends {
    pub fn extends_token(&self) -> (r: SyntaxResult<SyntaxToken>)
        ensures
            mandatory_token_ens(self.syntax@, SyntaxKind::ExtendsKw, r),
    {
        as_mandatory_token(&self.syntax, SyntaxKind::ExtendsKw)
    }

    pub fn ty(&self) -> (r: SyntaxResult<TsType>)
        ensures
            mandatory_node_ens::<TsType>(self.syntax@, r),
    {
        as_mandatory_node::<TsType>(&self.syntax)
    }
}

impl AstNode for TsExtends {
    open spec fn spec_can_cast(kind: SyntaxKind) -> bool {
        kind == SyntaxKind::TsExtends
    }

    open spec fn spec_node(&self) -> SyntaxNodeV {
        self.syntax@
    }

    fn can_cast(kind: SyntaxKind) -> (r: bool) {
        kind == SyntaxKind::TsExtends
    }

    fn cast(syntax: SyntaxNode) -> (r: Option<Self>) {
        if syntax.kind == SyntaxKind::TsExtends {
            Some(TsExtends { syntax })
        } else {
            None
        }
    }

    fn syntax(&self) -> (r: &SyntaxNode) {
        &self.syntax
    }
}

/// Typed wrapper for a `SyntaxKind::TsModuleBlock` node.
#[derive(Debug, Clone, PartialEq, Eq, Hash)]
pub struct TsModuleBlock {
    pub syntax: SyntaxNode,
}

impl TsModuleBlock {
    pub fn l_curly_token(&self) -> (r: SyntaxResult<SyntaxToken>)
        ensures
            mandatory_token_ens(self.syntax@, SyntaxKind::LCurly, r),
    {
        as_mandatory_token(&self.syntax, SyntaxKind::LCurly)
    }

    pub fn items(&self) -> (r: SyntaxResult<ModuleItem>)
        ensures
            mandatory_node_ens::<ModuleItem>(self.syntax@, r),
    {
        as_mandatory_node::<ModuleItem>(&self.syntax)
    }

    pub fn r_curly_token(&self) -> (r: SyntaxResult<SyntaxToken>)
        ensures
            mandatory_token_ens(self.syntax@, SyntaxKind::RCurly, r),
    {
        as_mandatory_token(&self.syntax, SyntaxKind::RCurly)
    }
}

impl AstNode for TsModuleBlock {
    open spec fn spec_can_cast(kind: SyntaxKind) -> bool {
        kind == SyntaxKind::TsModuleBlock
    }

    open spec fn spec_node(&self) -> SyntaxNodeV {
        self.syntax@
    }

    fn can_cast(kind: SyntaxKind) -> (r: bool) {
        kind == SyntaxKind::TsModuleBlock
    }

    fn cast(syntax: SyntaxNode) -> (r: Option<Self>) {
        if syntax.kind == SyntaxKind::TsModuleBlock {
            Some(TsModuleBlock { syntax })
        } else {
            None
        }
    }

    fn syntax(&self) -> (r: &SyntaxNode) {
        &self.syntax
    }
}

/// Typed wrapper for a `SyntaxKind::TsTypeParam` node.
#[derive(Debug, Clone, PartialEq, Eq, Hash)]
pub struct TsTypeParam {
    pub syntax: SyntaxNode,
}

impl TsTypeParam {
    pub fn ident(&self) -> (r: SyntaxResult<Ident>)
        ensures
            mandatory_node_ens::<Ident>(self.syntax@, r),
    {
        as_mandatory_node::<Ident>(&self.syntax)
    }

    pub fn constraint(&self) -> (r: SyntaxResult<TsConstraint>)
        ensures
            mandatory_node_ens::<TsConstraint>(self.syntax@, r),
    {
        as_mandatory_node::<TsConstraint>(&self.syntax)
    }

    pub fn default(&self) -> (r: SyntaxResult<TsDefault>)
        ensures
            mandatory_node_ens::<TsDefault>(self.syntax@, r),
    {
        as_mandatory_node::<TsDefault>(&self.syntax)
    }
}

impl AstNode for TsTypeParam {
    open spec fn spec_can_cast(kind: SyntaxKind) -> bool {
        kind == SyntaxKind::TsTypeParam
    }

    open spec fn spec_node(&self) -> SyntaxNodeV {
        self.syntax@
    }

    fn can_cast(kind: SyntaxKind) -> (r: bool) {
        kind == SyntaxKind::TsTypeParam
    }

    fn cast(syntax: SyntaxNode) -> (r: Option<Self>) {
        if syntax.kind == SyntaxKind::TsTypeParam {
            Some(TsTypeParam { syntax })
        } else {
            None
        }
    }

    fn syntax(&self) -> (r: &SyntaxNode) {
        &self.syntax
    }
}

/// Typed wrapper for a `SyntaxKind::TsConstraint` node.
#[derive(Debug, Clone, PartialEq, Eq, Hash)]
pub struct TsConstraint {
    pub syntax: SyntaxNode,
}

impl TsConstraint {
    pub fn extends_token(&self) -> (r: SyntaxResult<SyntaxToken>)
        ensures
            mandatory_token_ens(self.syntax@, SyntaxKind::ExtendsKw, r),
    {
        as_mandatory_token(&self.syntax, SyntaxKind::ExtendsKw)
    }

    pub fn ty(&self) -> (r: SyntaxResult<TsType>)
        ensures
            mandatory_node_ens::<TsType>(self.syntax@, r),
    {
        as_mandatory_node::<TsType>(&self.syntax)
    }
}

impl AstNode for TsConstraint {
    open spec fn spec_can_cast(kind: SyntaxKind) -> bool {
        kind == SyntaxKind::TsConstraint
    }

    open spec fn spec_node(&self) -> SyntaxNodeV {
        self.syntax@
    }

    fn can_cast(kind: SyntaxKind) -> (r: bool) {
        kind == SyntaxKind::TsConstraint
    }

    fn cast(syntax: SyntaxNode) -> (r: Option<Self>) {
        if syntax.kind == SyntaxKind::TsConstraint {
            Some(TsConstraint { syntax })
        } else {
            None
        }
    }

    fn syntax(&self) -> (r: &SyntaxNode) {
        &self.syntax
    }
}

/// Typed wrapper for a `SyntaxKind::TsDefault` node.
#[derive(Debug, Clone, PartialEq, Eq, Hash)]
pub struct TsDefault {
    pub syntax: SyntaxNode,
}

impl TsDefault {
    pub fn eq_token(&self) -> (r: SyntaxResult<SyntaxToken>)
        ensures
            mandatory_token_ens(self.syntax@, SyntaxKind::Assign, r),
    {
        as_mandatory_token(&self.syntax, SyntaxKind::Assign)
    }

    pub fn ty(&self) -> (r: SyntaxResult<TsType>)
        ensures
            mandatory_node_ens::<TsType>(self.syntax@, r),
    {
        as_mandatory_node::<TsType>(&self.syntax)
    }
}

impl AstNode for TsDefault {
    open spec fn spec_can_cast(kind: SyntaxKind) -> bool {
        kind == SyntaxKind::TsDefault
    }

    open spec fn spec_node(&self) -> SyntaxNodeV {
        self.syntax@
    }

    fn can_cast(kind: SyntaxKind) -> (r: bool) {
        kind == SyntaxKind::TsDefault
    }

    fn cast(syntax: SyntaxNode) -> (r: Option<Self>) {
        if syntax.kind == SyntaxKind::TsDefault {
            Some(TsDefault { syntax })
        } else {
            None
        }
    }

    fn syntax(&self) -> (r: &SyntaxNode) {
        &self.syntax
    }
}

/// Typed wrapper for a `SyntaxKind::TsCallSignatureDecl` node.
#[derive(Debug, Clone, PartialEq, Eq, Hash)]
pub struct TsCallSignatureDecl {
    pub syntax: SyntaxNode,
}

impl TsCallSignatureDecl {
    pub fn type_params(&self) -> (r: SyntaxResult<TsTypeParams>)
        ensures
            mandatory_node_ens::<TsTypeParams>(self.syntax@, r),
    {
        as_mandatory_node::<TsTypeParams>(&self.syntax)
    }

    pub fn parameters(&self) -> (r: SyntaxResult<ParameterList>)
        ensures
            mandatory_node_ens::<ParameterList>(self.syntax@, r),
    {
        as_mandatory_node::<ParameterList>(&self.syntax)
    }

    pub fn colon_token(&self) -> (r: SyntaxResult<SyntaxToken>)
        ensures
            mandatory_token_ens(self.syntax@, SyntaxKind::Colon, r),
    {
        as_mandatory_token(&self.syntax, SyntaxKind::Colon)
    }

    pub fn return_type(&self) -> (r: SyntaxResult<TsType>)
        ensures
            mandatory_node_ens::<TsType>(self.syntax@, r),
    {
        as_mandatory_node::<TsType>(&self.syntax)
    }
}

impl AstNode for TsCallSignatureDecl {
    open spec fn spec_can_cast(kind: SyntaxKind) -> bool {
        kind == SyntaxKind::TsCallSignatureDecl
    }

    open spec fn spec_node(&self) -> SyntaxNodeV {
        self.syntax@
    }

    fn can_cast(kind: SyntaxKind) -> (r: bool) {
        kind == SyntaxKind::TsCallSignatureDecl
    }

    fn cast(syntax: SyntaxNode) -> (r: Option<Self>) {
        if syntax.kind == SyntaxKind::TsCallSignatureDecl {
            Some(TsCallSignatureDecl { syntax })
        } else {
            None
        }
    }

    fn syntax(&self) -> (r: &SyntaxNode) {
        &self.syntax
    }
}

/// Typed wrapper for a `SyntaxKind::TsConstructSignatureDecl` node.
#[derive(Debug, Clone, PartialEq, Eq, Hash)]
pub struct TsConstructSignatureDecl {
    pub syntax: SyntaxNode,
}

impl TsConstructSignatureDecl {
    pub fn new_token(&self) -> (r: SyntaxResult<SyntaxToken>)
        ensures
            mandatory_token_ens(self.syntax@, SyntaxKind::NewKw, r),
    {
        as_mandatory_token(&self.syntax, SyntaxKind::NewKw)
    }

    pub fn type_params(&self) -> (r: SyntaxResult<TsTypeParams>)
        ensures
            mandatory_node_ens::<TsTypeParams>(self.syntax@, r),
    {
        as_mandatory_node::<TsTypeParams>(&self.syntax)
    }

    pub fn parameters(&self) -> (r: SyntaxResult<ParameterList>)
        ensures
            mandatory_node_ens::<ParameterList>(self.syntax@, r),
    {
        as_mandatory_node::<ParameterList>(&self.syntax)
    }

    pub fn colon_token(&self) -> (r: Option<SyntaxToken>)
        ensures
            optional_token_ens(self.syntax@, SyntaxKind::Colon, r),
    {
        as_optional_token(&self.syntax, SyntaxKind::Colon)
    }

    pub fn return_type(&self) -> (r: SyntaxResult<TsType>)
        ensures
            mandatory_node_ens::<TsType>(self.syntax@, r),
    {
        as_mandatory_node::<TsType>(&self.syntax)
    }
}

impl AstNode for TsConstructSignatureDecl {
    open spec fn spec_can_cast(kind: SyntaxKind) -> bool {
        kind == SyntaxKind::TsConstructSignatureDecl
    }

    open spec fn spec_node(&self) -> SyntaxNodeV {
        self.syntax@
    }

    fn can_cast(kind: SyntaxKind) -> (r: bool) {
        kind == SyntaxKind::TsConstructSignatureDecl
    }

    fn cast(syntax: SyntaxNode) -> (r: Option<Self>) {
        if syntax.kind == SyntaxKind::TsConstructSignatureDecl {
            Some(TsConstructSignatureDecl { syntax })
        } else {
            None
        }
    }

    fn syntax(&self) -> (r: &SyntaxNode) {
        &self.syntax
    }
}

/// Typed wrapper for a `SyntaxKind::TsPropertySignature` node.
#[derive(Debug, Clone, PartialEq, Eq, Hash)]
pub struct TsPropertySignature {
    pub syntax: SyntaxNode,
}

impl TsPropertySignature {
    pub fn readonly_token(&self) -> (r: Option<SyntaxToken>)
        ensures
            optional_token_ens(self.syntax@, SyntaxKind::ReadonlyKw, r),
    {
        as_optional_token(&self.syntax, SyntaxKind::ReadonlyKw)
    }

    pub fn prop(&self) -> (r: SyntaxResult<Expr>)
        ensures
            mandatory_node_ens::<Expr>(self.syntax@, r),
    {
        as_mandatory_node::<Expr>(&self.syntax)
    }

    pub fn question_mark_token(&self) -> (r: SyntaxResult<SyntaxToken>)
        ensures
            mandatory_token_ens(self.syntax@, SyntaxKind::QuestionMark, r),
    {
        as_mandatory_token(&self.syntax, SyntaxKind::QuestionMark)
    }

    pub fn colon_token(&self) -> (r: SyntaxResult<SyntaxToken>)
        ensures
            mandatory_token_ens(self.syntax@, SyntaxKind::Colon, r),
    {
        as_mandatory_token(&self.syntax, SyntaxKind::Colon)
    }

    pub fn ty(&self) -> (r: SyntaxResult<TsType>)
        ensures
            mandatory_node_ens::<TsType>(self.syntax@, r),
    {
        as_mandatory_node::<TsType>(&self.syntax)
    }
}

impl AstNode for TsPropertySignature {
    open spec fn spec_can_cast(kind: SyntaxKind) -> bool {
        kind == SyntaxKind::TsPropertySignature
    }

    open spec fn spec_node(&self) -> SyntaxNodeV {
        self.syntax@
    }

    fn can_cast(kind: SyntaxKind) -> (r: bool) {
        kind == SyntaxKind::TsPropertySignature
    }

    fn cast(syntax: SyntaxNode) -> (r: Option<Self>) {
        if syntax.kind == SyntaxKind::TsPropertySignature {
            Some(TsPropertySignature { syntax })
        } else {
            None
        }
    }

    fn syntax(&self) -> (r: &SyntaxNode) {
        &self.syntax
    }
}

/// Typed wrapper for a `SyntaxKind::TsMethodSignature` node.
#[derive(Debug, Clone, PartialEq, Eq, Hash)]
pub struct TsMethodSignature {
    pub syntax: SyntaxNode,
}

impl TsMethodSignature {
    pub fn readonly_token(&self) -> (r: Option<SyntaxToken>)
        ensures
            optional_token_ens(self.syntax@, SyntaxKind::ReadonlyKw, r),
    {
        as_optional_token(&self.syntax, SyntaxKind::ReadonlyKw)
    }

    pub fn key(&self) -> (r: SyntaxResult<Expr>)
        ensures
            mandatory_node_ens::<Expr>(self.syntax@, r),
    {
        as_mandatory_node::<Expr>(&self.syntax)
    }

    pub fn type_params(&self) -> (r: SyntaxResult<TsTypeParams>)
        ensures
            mandatory_node_ens::<TsTypeParams>(self.syntax@, r),
    {
        as_mandatory_node::<TsTypeParams>(&self.syntax)
    }

    pub fn parameters(&self) -> (r: SyntaxResult<ParameterList>)
        ensures
            mandatory_node_ens::<ParameterList>(self.syntax@, r),
    {
        as_mandatory_node::<ParameterList>(&self.syntax)
    }

    pub fn question_mark_token(&self) -> (r: Option<SyntaxToken>)
        ensures
            optional_token_ens(self.syntax@, SyntaxKind::QuestionMark, r),
    {
        as_optional_token(&self.syntax, SyntaxKind::QuestionMark)
    }

    pub fn colon_token(&self) -> (r: SyntaxResult<SyntaxToken>)
        ensures
            mandatory_token_ens(self.syntax@, SyntaxKind::Colon, r),
    {
        as_mandatory_token(&self.syntax, SyntaxKind::Colon)
    }

    pub fn return_type(&self) -> (r: SyntaxResult<TsType>)
        ensures
            mandatory_node_ens::<TsType>(self.syntax@, r),
    {
        as_mandatory_node::<TsType>(&self.syntax)
    }
}

impl AstNode for TsMethodSignature {
    open spec fn spec_can_cast(kind: SyntaxKind) -> bool {
        kind == SyntaxKind::TsMethodSignature
    }

    open spec fn spec_node(&self) -> SyntaxNodeV {
        self.syntax@
    }

    fn can_cast(kind: SyntaxKind) -> (r: bool) {
        kind == SyntaxKind::TsMethodSignature
    }

    fn cast(syntax: SyntaxNode) -> (r: Option<Self>) {
        if syntax.kind == SyntaxKind::TsMethodSignature {
            Some(TsMethodSignature { syntax })
        } else {
            None
        }
    }

    fn syntax(&self) -> (r: &SyntaxNode) {
        &self.syntax
    }
}

/// Typed wrapper for a `SyntaxKind::TsQualifiedPath` node.
#[derive(Debug, Clone, PartialEq, Eq, Hash)]
pub struct TsQualifiedPath {
    pub syntax: SyntaxNode,
}

impl TsQualifiedPath {
    pub fn lhs(&self) -> (r: SyntaxResult<TsEntityName>)
        ensures
            mandatory_node_ens::<TsEntityName>(self.syntax@, r),
    {
        as_mandatory_node::<TsEntityName>(&self.syntax)
    }

    pub fn dot_token(&self) -> (r: SyntaxResult<SyntaxToken>)
        ensures
            mandatory_token_ens(self.syntax@, SyntaxKind::Dot, r),
    {
        as_mandatory_token(&self.syntax, SyntaxKind::Dot)
    }

    pub fn rhs(&self) -> (r: SyntaxResult<TsTypeName>)
        ensures
            mandatory_node_ens::<TsTypeName>(self.syntax@, r),
    {
        as_mandatory_node::<TsTypeName>(&self.syntax)
    }
}

impl AstNode for TsQualifiedPath {
    open spec fn spec_can_cast(kind: SyntaxKind) -> bool {
        kind == SyntaxKind::TsQualifiedPath
    }

    open spec fn spec_node(&self) -> SyntaxNodeV {
        self.syntax@
    }

    fn can_cast(kind: SyntaxKind) -> (r: bool) {
        kind == SyntaxKind::TsQualifiedPath
    }

    fn cast(syntax: SyntaxNode) -> (r: Option<Self>) {
        if syntax.kind == SyntaxKind::TsQualifiedPath {
            Some(TsQualifiedPath { syntax })
        } else {
            None
        }
    }

    fn syntax(&self) -> (r: &SyntaxNode) {
        &self.syntax
    }
}

} // verus!
