//! Typed wrappers for declarations, imports and exports.
//!
//! Every wrapper holds the untyped node it was cast from; its accessors
//! state, over the ghost tree, exactly which child they return.

use vstd::prelude::*;

use crate::support::{
    AstNode, AstNodeList, AstSeparatedList, as_mandatory_node, as_mandatory_token, as_optional_node, as_optional_token, mandatory_node_ens, mandatory_token_ens, node_list, node_list_ens, optional_node_ens, optional_token_ens, separated_list,
};
use crate::syntax::{SyntaxKind, SyntaxNode, SyntaxNodeV, SyntaxResult, SyntaxToken};
use crate::ast_classes::{ClassBody, ParameterList, TsExprWithTypeArgs, TsTypeParams};
use crate::ast_exprs::{ObjectExpr};
use crate::ast_stmts::{BlockStmt, Ident, Name, NameRef};
use crate::ast_ts::{TsEnumMember};
use crate::ast_unions::{Decl, DefaultDecl, Expr, ImportClause, Pattern, TsModuleRef, TsNamespaceBody, TsType, TsTypeElement};

verus! {

/// Typed wrapper for a `SyntaxKind::FnDecl` node.
#[derive(Debug, Clone, PartialEq, Eq, Hash)]
pub struct FnDecl {
    pub syntax: SyntaxNode,
}

impl FnDecl {
    pub fn async_token(&self) -> (r: Option<SyntaxToken>)
        ensures
            optional_token_ens(self.syntax@, SyntaxKind::AsyncKw, r),
    {
        as_optional_token(&self.syntax, SyntaxKind::AsyncKw)
    }

    pub fn function_token(&self) -> (r: SyntaxResult<SyntaxToken>)
        ensures
            mandatory_token_ens(self.syntax@, SyntaxKind::FunctionKw, r),
    {
        as_mandatory_token(&self.syntax, SyntaxKind::FunctionKw)
    }

    pub fn star_token(&self) -> (r: Option<SyntaxToken>)
        ensures
            optional_token_ens(self.syntax@, SyntaxKind::Star, r),
    {
        as_optional_token(&self.syntax, SyntaxKind::Star)
    }

    pub fn name(&self) -> (r: SyntaxResult<Name>)
        ensures
            mandatory_node_ens::<Name>(self.syntax@, r),
    {
        as_mandatory_node::<Name>(&self.syntax)
    }

    pub fn type_parameters(&self) -> (r: Option<TsTypeParams>)
        ensures
            optional_node_ens::<TsTypeParams>(self.syntax@, r),
    {
        as_optional_node::<TsTypeParams>(&self.syntax)
    }

    pub fn parameters(&self) -> (r: SyntaxResult<ParameterList>)
        ensures
            mandatory_node_ens::<ParameterList>(self.syntax@, r),
    {
        as_mandatory_node::<ParameterList>(&self.syntax)
    }

    pub fn colon_token(&self) -> (r: Option<SyntaxToken>)
        ensures
            optional_token_ens(self.syntax@, SyntaxKind::Colon, r),
    {
        as_optional_token(&self.syntax, SyntaxKind::Colon)
    }

    pub fn return_type(&self) -> (r: Option<TsType>)
        ensures
            optional_node_ens::<TsType>(self.syntax@, r),
    {
        as_optional_node::<TsType>(&self.syntax)
    }

    pub fn body(&self) -> (r: SyntaxResult<BlockStmt>)
        ensures
            mandatory_node_ens::<BlockStmt>(self.syntax@, r),
    {
        as_mandatory_node::<BlockStmt>(&self.syntax)
    }
}

impl AstNode for FnDecl {
    open spec fn spec_can_cast(kind: SyntaxKind) -> bool {
        kind == SyntaxKind::FnDecl
    }

    open spec fn spec_node(&self) -> SyntaxNodeV {
        self.syntax@
    }

    fn can_cast(kind: SyntaxKind) -> (r: bool) {
        kind == SyntaxKind::FnDecl
    }

    fn cast(syntax: SyntaxNode) -> (r: Option<Self>) {
        if syntax.kind == SyntaxKind::FnDecl {
            Some(FnDecl { syntax })
        } else {
            None
        }
    }

    fn syntax(&self) -> (r: &SyntaxNode) {
        &self.syntax
    }
}

/// Typed wrapper for a `SyntaxKind::ClassDecl` node.
#[derive(Debug, Clone, PartialEq, Eq, Hash)]
pub struct ClassDecl {
    pub syntax: SyntaxNode,
}

impl ClassDecl {
    pub fn class_token(&self) -> (r: SyntaxResult<SyntaxToken>)
        ensures
            mandatory_token_ens(self.syntax@, SyntaxKind::ClassKw, r),
    {
        as_mandatory_token(&self.syntax, SyntaxKind::ClassKw)
    }

    pub fn name(&self) -> (r: SyntaxResult<Name>)
        ensures
            mandatory_node_ens::<Name>(self.syntax@, r),
    {
        as_mandatory_node::<Name>(&self.syntax)
    }

    pub fn extends_token(&self) -> (r: SyntaxResult<SyntaxToken>)
        ensures
            mandatory_token_ens(self.syntax@, SyntaxKind::ExtendsKw, r),
    {
        as_mandatory_token(&self.syntax, SyntaxKind::ExtendsKw)
    }

    pub fn parent(&self) -> (r: SyntaxResult<NameRef>)
        ensures
            mandatory_node_ens::<NameRef>(self.syntax@, r),
    {
        as_mandatory_node::<NameRef>(&self.syntax)
    }

    pub fn body(&self) -> (r: SyntaxResult<ClassBody>)
        ensures
            mandatory_node_ens::<ClassBody>(self.syntax@, r),
    {
        as_mandatory_node::<ClassBody>(&self.syntax)
    }
}

impl AstNode for ClassDecl {
    open spec fn spec_can_cast(kind: SyntaxKind) -> bool {
        kind == SyntaxKind::ClassDecl
    }

    open spec fn spec_node(&self) -> SyntaxNodeV {
        self.syntax@
    }

    fn can_cast(kind: SyntaxKind) -> (r: bool) {
        kind == SyntaxKind::ClassDecl
    }

    fn cast(syntax: SyntaxNode) -> (r: Option<Self>) {
        if syntax.kind == SyntaxKind::ClassDecl {
            Some(ClassDecl { syntax })
        } else {
            None
        }
    }

    fn syntax(&self) -> (r: &SyntaxNode) {
        &self.syntax
    }
}

/// Typed wrapper for a `SyntaxKind::TsEnum` node.
#[derive(Debug, Clone, PartialEq, Eq, Hash)]
pub struct TsEnum {
    pub syntax: SyntaxNode,
}

impl TsEnum {
    pub fn const_token(&self) -> (r: Option<SyntaxToken>)
        ensures
            optional_token_ens(self.syntax@, SyntaxKind::ConstKw, r),
    {
        as_optional_token(&self.syntax, SyntaxKind::ConstKw)
    }

    pub fn enum_token(&self) -> (r: SyntaxResult<SyntaxToken>)
        ensures
            mandatory_token_ens(self.syntax@, SyntaxKind::EnumKw, r),
    {
        as_mandatory_token(&self.syntax, SyntaxKind::EnumKw)
    }

    pub fn ident(&self) -> (r: SyntaxResult<Ident>)
        ensures
            mandatory_node_ens::<Ident>(self.syntax@, r),
    {
        as_mandatory_node::<Ident>(&self.syntax)
    }

    pub fn l_curly_token(&self) -> (r: SyntaxResult<SyntaxToken>)
        ensures
            mandatory_token_ens(self.syntax@, SyntaxKind::LCurly, r),
    {
        as_mandatory_token(&self.syntax, SyntaxKind::LCurly)
    }

    pub fn members(&self) -> (r: AstNodeList<TsEnumMember>)
        ensures
            node_list_ens::<TsEnumMember>(self.syntax@, r@),
    {
        node_list::<TsEnumMember>(&self.syntax)
    }

    pub fn r_curly_token(&self) -> (r: SyntaxResult<SyntaxToken>)
        ensures
            mandatory_token_ens(self.syntax@, SyntaxKind::RCurly, r),
    {
        as_mandatory_token(&self.syntax, SyntaxKind::RCurly)
    }
}

impl AstNode for TsEnum {
    open spec fn spec_can_cast(kind: SyntaxKind) -> bool {
        kind == SyntaxKind::TsEnum
    }

    open spec fn spec_node(&self) -> SyntaxNodeV {
        self.syntax@
    }

    fn can_cast(kind: SyntaxKind) -> (r: bool) {
        kind == SyntaxKind::TsEnum
    }

    fn cast(syntax: SyntaxNode) -> (r: Option<Self>) {
        if syntax.kind == SyntaxKind::TsEnum {
            Some(TsEnum { syntax })
        } else {
            None
        }
    }

    fn syntax(&self) -> (r: &SyntaxNode) {
        &self.syntax
    }
}

/// Typed wrapper for a `SyntaxKind::TsTypeAliasDecl` node.
#[derive(Debug, Clone, PartialEq, Eq, Hash)]
pub struct TsTypeAliasDecl {
    pub syntax: SyntaxNode,
}

impl TsTypeAliasDecl {
    pub fn type_token(&self) -> (r: SyntaxResult<SyntaxToken>)
        ensures
            mandatory_token_ens(self.syntax@, SyntaxKind::TypeKw, r),
    {
        as_mandatory_token(&self.syntax, SyntaxKind::TypeKw)
    }

    pub fn type_params(&self) -> (r: SyntaxResult<TsTypeParams>)
        ensures
            mandatory_node_ens::<TsTypeParams>(self.syntax@, r),
    {
        as_mandatory_node::<TsTypeParams>(&self.syntax)
    }

    pub fn eq_token(&self) -> (r: SyntaxResult<SyntaxToken>)
        ensures
            mandatory_token_ens(self.syntax@, SyntaxKind::Assign, r),
    {
        as_mandatory_token(&self.syntax, SyntaxKind::Assign)
    }

    pub fn ts_type(&self) -> (r: SyntaxResult<TsType>)
        ensures
            mandatory_node_ens::<TsType>(self.syntax@, r),
    {
        as_mandatory_node::<TsType>(&self.syntax)
    }
}

impl AstNode for TsTypeAliasDecl {
    open spec fn spec_can_cast(kind: SyntaxKind) -> bool {
        kind == SyntaxKind::TsTypeAliasDecl
    }

    open spec fn spec_node(&self) -> SyntaxNodeV {
        self.syntax@
    }

    fn can_cast(kind: SyntaxKind) -> (r: bool) {
        kind == SyntaxKind::TsTypeAliasDecl
    }

    fn cast(syntax: SyntaxNode) -> (r: Option<Self>) {
        if syntax.kind == SyntaxKind::TsTypeAliasDecl {
            Some(TsTypeAliasDecl { syntax })
        } else {
            None
        }
    }

    fn syntax(&self) -> (r: &SyntaxNode) {
        &self.syntax
    }
}

/// Typed wrapper for a `SyntaxKind::TsNamespaceDecl` node.
#[derive(Debug, Clone, PartialEq, Eq, Hash)]
pub struct TsNamespaceDecl {
    pub syntax: SyntaxNode,
}

impl TsNamespaceDecl {
    pub fn declare_token(&self) -> (r: SyntaxResult<SyntaxToken>)
        ensures
            mandatory_token_ens(self.syntax@, SyntaxKind::DeclareKw, r),
    {
        as_mandatory_token(&self.syntax, SyntaxKind::DeclareKw)
    }

    pub fn ident(&self) -> (r: SyntaxResult<Ident>)
        ensures
            mandatory_node_ens::<Ident>(self.syntax@, r),
    {
        as_mandatory_node::<Ident>(&self.syntax)
    }

    pub fn dot_token(&self) -> (r: Option<SyntaxToken>)
        ensures
            optional_token_ens(self.syntax@, SyntaxKind::Dot, r),
    {
        as_optional_token(&self.syntax, SyntaxKind::Dot)
    }

    pub fn ts_namespace_body(&self) -> (r: SyntaxResult<TsNamespaceBody>)
        ensures
            mandatory_node_ens::<TsNamespaceBody>(self.syntax@, r),
    {
        as_mandatory_node::<TsNamespaceBody>(&self.syntax)
    }
}

impl AstNode for TsNamespaceDecl {
    open spec fn spec_can_cast(kind: SyntaxKind) -> bool {
        kind == SyntaxKind::TsNamespaceDecl
    }

    open spec fn spec_node(&self) -> SyntaxNodeV {
        self.syntax@
    }

    fn can_cast(kind: SyntaxKind) -> (r: bool) {
        kind == SyntaxKind::TsNamespaceDecl
    }

    fn cast(syntax: SyntaxNode) -> (r: Option<Self>) {
        if syntax.kind == SyntaxKind::TsNamespaceDecl {
            Some(TsNamespaceDecl { syntax })
        } else {
            None
        }
    }

    fn syntax(&self) -> (r: &SyntaxNode) {
        &self.syntax
    }
}

/// Typed wrapper for a `SyntaxKind::TsModuleDecl` node.
#[derive(Debug, Clone, PartialEq, Eq, Hash)]
pub struct TsModuleDecl {
    pub syntax: SyntaxNode,
}

impl TsModuleDecl {
    pub fn declare_token(&self) -> (r: SyntaxResult<SyntaxToken>)
        ensures
            mandatory_token_ens(self.syntax@, SyntaxKind::DeclareKw, r),
    {
        as_mandatory_token(&self.syntax, SyntaxKind::DeclareKw)
    }

    pub fn global_token(&self) -> (r: Option<SyntaxToken>)
        ensures
            optional_token_ens(self.syntax@, SyntaxKind::GlobalKw, r),
    {
        as_optional_token(&self.syntax, SyntaxKind::GlobalKw)
    }

    pub fn module_token(&self) -> (r: SyntaxResult<SyntaxToken>)
        ensures
            mandatory_token_ens(self.syntax@, SyntaxKind::ModuleKw, r),
    {
        as_mandatory_token(&self.syntax, SyntaxKind::ModuleKw)
    }

    pub fn dot_token(&self) -> (r: Option<SyntaxToken>)
        ensures
            optional_token_ens(self.syntax@, SyntaxKind::Dot, r),
    {
        as_optional_token(&self.syntax, SyntaxKind::Dot)
    }

    pub fn ident(&self) -> (r: SyntaxResult<Ident>)
        ensures
            mandatory_node_ens::<Ident>(self.syntax@, r),
    {
        as_mandatory_node::<Ident>(&self.syntax)
    }

    pub fn body(&self) -> (r: SyntaxResult<TsNamespaceBody>)
        ensures
            mandatory_node_ens::<TsNamespaceBody>(self.syntax@, r),
    {
        as_mandatory_node::<TsNamespaceBody>(&self.syntax)
    }
}

impl AstNode for TsModuleDecl {
    open spec fn spec_can_cast(kind: SyntaxKind) -> bool {
        kind == SyntaxKind::TsModuleDecl
    }

    open spec fn spec_node(&self) -> SyntaxNodeV {
        self.syntax@
    }

    fn can_cast(kind: SyntaxKind) -> (r: bool) {
        kind == SyntaxKind::TsModuleDecl
    }

    fn cast(syntax: SyntaxNode) -> (r: Option<Self>) {
        if syntax.kind == SyntaxKind::TsModuleDecl {
            Some(TsModuleDecl { syntax })
        } else {
            None
        }
    }

    fn syntax(&self) -> (r: &SyntaxNode) {
        &self.syntax
    }
}

/// Typed wrapper for a `SyntaxKind::TsInterfaceDecl` node.
#[derive(Debug, Clone, PartialEq, Eq, Hash)]
pub struct TsInterfaceDecl {
    pub syntax: SyntaxNode,
}

impl TsInterfaceDecl {
    pub fn declare_token(&self) -> (r: Option<SyntaxToken>)
        ensures
            optional_token_ens(self.syntax@, SyntaxKind::DeclareKw, r),
    {
        as_optional_token(&self.syntax, SyntaxKind::DeclareKw)
    }

    pub fn interface_token(&self) -> (r: SyntaxResult<SyntaxToken>)
        ensures
            mandatory_token_ens(self.syntax@, SyntaxKind::InterfaceKw, r),
    {
        as_mandatory_token(&self.syntax, SyntaxKind::InterfaceKw)
    }

    pub fn type_params(&self) -> (r: SyntaxResult<TsTypeParams>)
        ensures
            mandatory_node_ens::<TsTypeParams>(self.syntax@, r),
    {
        as_mandatory_node::<TsTypeParams>(&self.syntax)
    }

    pub fn extends_token(&self) -> (r: Option<SyntaxToken>)
        ensures
            optional_token_ens(self.syntax@, SyntaxKind::ExtendsKw, r),
    {
        as_optional_token(&self.syntax, SyntaxKind::ExtendsKw)
    }

    pub fn extends(&self) -> (r: Option<TsExprWithTypeArgs>)
        ensures
            optional_node_ens::<TsExprWithTypeArgs>(self.syntax@, r),
    {
        as_optional_node::<TsExprWithTypeArgs>(&self.syntax)
    }

    pub fn l_curly_token(&self) -> (r: SyntaxResult<SyntaxToken>)
        ensures
            mandatory_token_ens(self.syntax@, SyntaxKind::LCurly, r),
    {
        as_mandatory_token(&self.syntax, SyntaxKind::LCurly)
    }

    pub fn members(&self) -> (r: SyntaxResult<TsTypeElement>)
        ensures
            mandatory_node_ens::<TsTypeElement>(self.syntax@, r),
    {
        as_mandatory_node::<TsTypeElement>(&self.syntax)
    }

    pub fn r_curly_token(&self) -> (r: SyntaxResult<SyntaxToken>)
        ensures
            mandatory_token_ens(self.syntax@, SyntaxKind::RCurly, r),
    {
        as_mandatory_token(&self.syntax, SyntaxKind::RCurly)
    }
}

impl AstNode for TsInterfaceDecl {
    open spec fn spec_can_cast(kind: SyntaxKind) -> bool {
        kind == SyntaxKind::TsInterfaceDecl
    }

    open spec fn spec_node(&self) -> SyntaxNodeV {
        self.syntax@
    }

    fn can_cast(kind: SyntaxKind) -> (r: bool) {
        kind == SyntaxKind::TsInterfaceDecl
    }

    fn cast(syntax: SyntaxNode) -> (r: Option<Self>) {
        if syntax.kind == SyntaxKind::TsInterfaceDecl {
            Some(TsInterfaceDecl { syntax })
        } else {
            None
        }
    }

    fn syntax(&self) -> (r: &SyntaxNode) {
        &self.syntax
    }
}

/// Typed wrapper for a `SyntaxKind::Declarator` node.
#[derive(Debug, Clone, PartialEq, Eq, Hash)]
pub struct Declarator {
    pub syntax: SyntaxNode,
}

impl Declarator {
    pub fn pattern(&self) -> (r: SyntaxResult<Pattern>)
        ensures
            mandatory_node_ens::<Pattern>(self.syntax@, r),
    {
        as_mandatory_node::<Pattern>(&self.syntax)
    }

    pub fn excl_token(&self) -> (r: SyntaxResult<SyntaxToken>)
        ensures
            mandatory_token_ens(self.syntax@, SyntaxKind::Bang, r),
    {
        as_mandatory_token(&self.syntax, SyntaxKind::Bang)
    }

    pub fn eq_token(&self) -> (r: SyntaxResult<SyntaxToken>)
        ensures
            mandatory_token_ens(self.syntax@, SyntaxKind::Assign, r),
    {
        as_mandatory_token(&self.syntax, SyntaxKind::Assign)
    }

    pub fn value(&self) -> (r: SyntaxResult<Expr>)
        ensures
            mandatory_node_ens::<Expr>(self.syntax@, r),
    {
        as_mandatory_node::<Expr>(&self.syntax)
    }
}

impl AstNode for Declarator {
    open spec fn spec_can_cast(kind: SyntaxKind) -> bool {
        kind == SyntaxKind::Declarator
    }

    open spec fn spec_node(&self) -> SyntaxNodeV {
        self.syntax@
    }

    fn can_cast(kind: SyntaxKind) -> (r: bool) {
        kind == SyntaxKind::Declarator
    }

    fn cast(syntax: SyntaxNode) -> (r: Option<Self>) {
        if syntax.kind == SyntaxKind::Declarator {
            Some(Declarator { syntax })
        } else {
            None
        }
    }

    fn syntax(&self) -> (r: &SyntaxNode) {
        &self.syntax
    }
}

/// Typed wrapper for a `SyntaxKind::ImportDecl` node.
#[derive(Debug, Clone, PartialEq, Eq, Hash)]
pub struct ImportDecl {
    pub syntax: SyntaxNode,
}

impl ImportDecl {
    pub fn import_token(&self) -> (r: SyntaxResult<SyntaxToken>)
        ensures
            mandatory_token_ens(self.syntax@, SyntaxKind::ImportKw, r),
    {
        as_mandatory_token(&self.syntax, SyntaxKind::ImportKw)
    }

    pub fn imports(&self) -> (r: AstNodeList<ImportClause>)
        ensures
            node_list_ens::<ImportClause>(self.syntax@, r@),
    {
        node_list::<ImportClause>(&self.syntax)
    }

    pub fn type_token(&self) -> (r: Option<SyntaxToken>)
        ensures
            optional_token_ens(self.syntax@, SyntaxKind::TypeKw, r),
    {
        as_optional_token(&self.syntax, SyntaxKind::TypeKw)
    }

    pub fn from_token(&self) -> (r: SyntaxResult<SyntaxToken>)
        ensures
            mandatory_token_ens(self.syntax@, SyntaxKind::FromKw, r),
    {
        as_mandatory_token(&self.syntax, SyntaxKind::FromKw)
    }

    pub fn asserted_object(&self) -> (r: SyntaxResult<ObjectExpr>)
        ensures
            mandatory_node_ens::<ObjectExpr>(self.syntax@, r),
    {
        as_mandatory_node::<ObjectExpr>(&self.syntax)
    }

    pub fn assert_token(&self) -> (r: Option<SyntaxToken>)
        ensures
            optional_token_ens(self.syntax@, SyntaxKind::AssertKw, r),
    {
        as_optional_token(&self.syntax, SyntaxKind::AssertKw)
    }

    pub fn semicolon_token(&self) -> (r: Option<SyntaxToken>)
        ensures
            optional_token_ens(self.syntax@, SyntaxKind::Semicolon, r),
    {
        as_optional_token(&self.syntax, SyntaxKind::Semicolon)
    }
}

impl AstNode for ImportDecl {
    open spec fn spec_can_cast(kind: SyntaxKind) -> bool {
        kind == SyntaxKind::ImportDecl
    }

    open spec fn spec_node(&self) -> SyntaxNodeV {
        self.syntax@
    }

    fn can_cast(kind: SyntaxKind) -> (r: bool) {
        kind == SyntaxKind::ImportDecl
    }

    fn cast(syntax: SyntaxNode) -> (r: Option<Self>) {
        if syntax.kind == SyntaxKind::ImportDecl {
            Some(ImportDecl { syntax })
        } else {
            None
        }
    }

    fn syntax(&self) -> (r: &SyntaxNode) {
        &self.syntax
    }
}

/// Typed wrapper for a `SyntaxKind::ExportNamed` node.
#[derive(Debug, Clone, PartialEq, Eq, Hash)]
pub struct ExportNamed {
    pub syntax: SyntaxNode,
}

impl ExportNamed {
    pub fn export_token(&self) -> (r: SyntaxResult<SyntaxToken>)
        ensures
            mandatory_token_ens(self.syntax@, SyntaxKind::ExportKw, r),
    {
        as_mandatory_token(&self.syntax, SyntaxKind::ExportKw)
    }

    pub fn type_token(&self) -> (r: Option<SyntaxToken>)
        ensures
            optional_token_ens(self.syntax@, SyntaxKind::TypeKw, r),
    {
        as_optional_token(&self.syntax, SyntaxKind::TypeKw)
    }

    pub fn from_token(&self) -> (r: Option<SyntaxToken>)
        ensures
            optional_token_ens(self.syntax@, SyntaxKind::FromKw, r),
    {
        as_optional_token(&self.syntax, SyntaxKind::FromKw)
    }

    pub fn l_curly_token(&self) -> (r: SyntaxResult<SyntaxToken>)
        ensures
            mandatory_token_ens(self.syntax@, SyntaxKind::LCurly, r),
    {
        as_mandatory_token(&self.syntax, SyntaxKind::LCurly)
    }

    pub fn specifiers(&self) -> (r: AstSeparatedList<Specifier>)
        ensures
            node_list_ens::<Specifier>(self.syntax@, r@),
    {
        separated_list::<Specifier>(&self.syntax)
    }

    pub fn r_curly_token(&self) -> (r: SyntaxResult<SyntaxToken>)
        ensures
            mandatory_token_ens(self.syntax@, SyntaxKind::RCurly, r),
    {
        as_mandatory_token(&self.syntax, SyntaxKind::RCurly)
    }
}

impl AstNode for ExportNamed {
    open spec fn spec_can_cast(kind: SyntaxKind) -> bool {
        kind == SyntaxKind::ExportNamed
    }

    open spec fn spec_node(&self) -> SyntaxNodeV {
        self.syntax@
    }

    fn can_cast(kind: SyntaxKind) -> (r: bool) {
        kind == SyntaxKind::ExportNamed
    }

    fn cast(syntax: SyntaxNode) -> (r: Option<Self>) {
        if syntax.kind == SyntaxKind::ExportNamed {
            Some(ExportNamed { syntax })
        } else {
            None
        }
    }

    fn syntax(&self) -> (r: &SyntaxNode) {
        &self.syntax
    }
}

/// Typed wrapper for a `SyntaxKind::ExportDefaultDecl` node.
#[derive(Debug, Clone, PartialEq, Eq, Hash)]
pub struct ExportDefaultDecl {
    pub syntax: SyntaxNode,
}

impl ExportDefaultDecl {
    pub fn export_token(&self) -> (r: SyntaxResult<SyntaxToken>)
        ensures
            mandatory_token_ens(self.syntax@, SyntaxKind::ExportKw, r),
    {
        as_mandatory_token(&self.syntax, SyntaxKind::ExportKw)
    }

    pub fn default_token(&self) -> (r: Option<SyntaxToken>)
        ensures
            optional_token_ens(self.syntax@, SyntaxKind::DefaultKw, r),
    {
        as_optional_token(&self.syntax, SyntaxKind::DefaultKw)
    }

    pub fn type_token(&self) -> (r: Option<SyntaxToken>)
        ensures
            optional_token_ens(self.syntax@, SyntaxKind::TypeKw, r),
    {
        as_optional_token(&self.syntax, SyntaxKind::TypeKw)
    }

    pub fn decl(&self) -> (r: SyntaxResult<DefaultDecl>)
        ensures
            mandatory_node_ens::<DefaultDecl>(self.syntax@, r),
    {
        as_mandatory_node::<DefaultDecl>(&self.syntax)
    }
}

impl AstNode for ExportDefaultDecl {
    open spec fn spec_can_cast(kind: SyntaxKind) -> bool {
        kind == SyntaxKind::ExportDefaultDecl
    }

    open spec fn spec_node(&self) -> SyntaxNodeV {
        self.syntax@
    }

    fn can_cast(kind: SyntaxKind) -> (r: bool) {
        kind == SyntaxKind::ExportDefaultDecl
    }

    fn cast(syntax: SyntaxNode) -> (r: Option<Self>) {
        if syntax.kind == SyntaxKind::ExportDefaultDecl {
            Some(ExportDefaultDecl { syntax })
        } else {
            None
        }
    }

    fn syntax(&self) -> (r: &SyntaxNode) {
        &self.syntax
    }
}

/// Typed wrapper for a `SyntaxKind::ExportDefaultExpr` node.
#[derive(Debug, Clone, PartialEq, Eq, Hash)]
pub struct ExportDefaultExpr {
    pub syntax: SyntaxNode,
}

impl ExportDefaultExpr {
    pub fn export_token(&self) -> (r: SyntaxResult<SyntaxToken>)
        ensures
            mandatory_token_ens(self.syntax@, SyntaxKind::ExportKw, r),
    {
        as_mandatory_token(&self.syntax, SyntaxKind::ExportKw)
    }

    pub fn type_token(&self) -> (r: Option<SyntaxToken>)
        ensures
            optional_token_ens(self.syntax@, SyntaxKind::TypeKw, r),
    {
        as_optional_token(&self.syntax, SyntaxKind::TypeKw)
    }

    pub fn default_token(&self) -> (r: Option<SyntaxToken>)
        ensures
            optional_token_ens(self.syntax@, SyntaxKind::DefaultKw, r),
    {
        as_optional_token(&self.syntax, SyntaxKind::DefaultKw)
    }

    pub fn expr(&self) -> (r: SyntaxResult<Expr>)
        ensures
            mandatory_node_ens::<Expr>(self.syntax@, r),
    {
        as_mandatory_node::<Expr>(&self.syntax)
    }
}

impl AstNode for ExportDefaultExpr {
    open spec fn spec_can_cast(kind: SyntaxKind) -> bool {
        kind == SyntaxKind::ExportDefaultExpr
    }

    open spec fn spec_node(&self) -> SyntaxNodeV {
        self.syntax@
    }

    fn can_cast(kind: SyntaxKind) -> (r: bool) {
        kind == SyntaxKind::ExportDefaultExpr
    }

    fn cast(syntax: SyntaxNode) -> (r: Option<Self>) {
        if syntax.kind == SyntaxKind::ExportDefaultExpr {
            Some(ExportDefaultExpr { syntax })
        } else {
            None
        }
    }

    fn syntax(&self) -> (r: &SyntaxNode) {
        &self.syntax
    }
}

/// Typed wrapper for a `SyntaxKind::ExportWildcard` node.
#[derive(Debug, Clone, PartialEq, Eq, Hash)]
pub struct ExportWildcard {
    pub syntax: SyntaxNode,
}

impl ExportWildcard {
    pub fn export_token(&self) -> (r: SyntaxResult<SyntaxToken>)
        ensures
            mandatory_token_ens(self.syntax@, SyntaxKind::ExportKw, r),
    {
        as_mandatory_token(&self.syntax, SyntaxKind::ExportKw)
    }

    pub fn type_token(&self) -> (r: Option<SyntaxToken>)
        ensures
            optional_token_ens(self.syntax@, SyntaxKind::TypeKw, r),
    {
        as_optional_token(&self.syntax, SyntaxKind::TypeKw)
    }

    pub fn star_token(&self) -> (r: SyntaxResult<SyntaxToken>)
        ensures
            mandatory_token_ens(self.syntax@, SyntaxKind::Star, r),
    {
        as_mandatory_token(&self.syntax, SyntaxKind::Star)
    }

    pub fn as_token(&self) -> (r: Option<SyntaxToken>)
        ensures
            optional_token_ens(self.syntax@, SyntaxKind::AsKw, r),
    {
        as_optional_token(&self.syntax, SyntaxKind::AsKw)
    }

    pub fn ident(&self) -> (r: Option<Ident>)
        ensures
            optional_node_ens::<Ident>(self.syntax@, r),
    {
        as_optional_node::<Ident>(&self.syntax)
    }

    pub fn from_token(&self) -> (r: SyntaxResult<SyntaxToken>)
        ensures
            mandatory_token_ens(self.syntax@, SyntaxKind::FromKw, r),
    {
        as_mandatory_token(&self.syntax, SyntaxKind::FromKw)
    }
}

impl AstNode for ExportWildcard {
    open spec fn spec_can_cast(kind: SyntaxKind) -> bool {
        kind == SyntaxKind::ExportWildcard
    }

    open spec fn spec_node(&self) -> SyntaxNodeV {
        self.syntax@
    }

    fn can_cast(kind: SyntaxKind) -> (r: bool) {
        kind == SyntaxKind::ExportWildcard
    }

    fn cast(syntax: SyntaxNode) -> (r: Option<Self>) {
        if syntax.kind == SyntaxKind::ExportWildcard {
            Some(ExportWildcard { syntax })
        } else {
            None
        }
    }

    fn syntax(&self) -> (r: &SyntaxNode) {
        &self.syntax
    }
}

/// Typed wrapper for a `SyntaxKind::ExportDecl` node.
#[derive(Debug, Clone, PartialEq, Eq, Hash)]
pub struct ExportDecl {
    pub syntax: SyntaxNode,
}

impl ExportDecl {
    pub fn export_token(&self) -> (r: SyntaxResult<SyntaxToken>)
        ensures
            mandatory_token_ens(self.syntax@, SyntaxKind::ExportKw, r),
    {
        as_mandatory_token(&self.syntax, SyntaxKind::ExportKw)
    }

    pub fn type_token(&self) -> (r: Option<SyntaxToken>)
        ensures
            optional_token_ens(self.syntax@, SyntaxKind::TypeKw, r),
    {
        as_optional_token(&self.syntax, SyntaxKind::TypeKw)
    }

    pub fn decl(&self) -> (r: SyntaxResult<Decl>)
        ensures
            mandatory_node_ens::<Decl>(self.syntax@, r),
    {
        as_mandatory_node::<Decl>(&self.syntax)
    }
}

impl AstNode for ExportDecl {
    open spec fn spec_can_cast(kind: SyntaxKind) -> bool {
        kind == SyntaxKind::ExportDecl
    }

    open spec fn spec_node(&self) -> SyntaxNodeV {
        self.syntax@
    }

    fn can_cast(kind: SyntaxKind) -> (r: bool) {
        kind == SyntaxKind::ExportDecl
    }

    fn cast(syntax: SyntaxNode) -> (r: Option<Self>) {
        if syntax.kind == SyntaxKind::ExportDecl {
            Some(ExportDecl { syntax })
        } else {
            None
        }
    }

    fn syntax(&self) -> (r: &SyntaxNode) {
        &self.syntax
    }
}

/// Typed wrapper for a `SyntaxKind::TsImportEqualsDecl` node.
#[derive(Debug, Clone, PartialEq, Eq, Hash)]
pub struct TsImportEqualsDecl {
    pub syntax: SyntaxNode,
}

impl TsImportEqualsDecl {
    pub fn import_token(&self) -> (r: SyntaxResult<SyntaxToken>)
        ensures
            mandatory_token_ens(self.syntax@, SyntaxKind::ImportKw, r),
    {
        as_mandatory_token(&self.syntax, SyntaxKind::ImportKw)
    }

    pub fn export_token(&self) -> (r: SyntaxResult<SyntaxToken>)
        ensures
            mandatory_token_ens(self.syntax@, SyntaxKind::ExportKw, r),
    {
        as_mandatory_token(&self.syntax, SyntaxKind::ExportKw)
    }

    pub fn ident(&self) -> (r: SyntaxResult<Ident>)
        ensures
            mandatory_node_ens::<Ident>(self.syntax@, r),
    {
        as_mandatory_node::<Ident>(&self.syntax)
    }

    pub fn eq_token(&self) -> (r: SyntaxResult<SyntaxToken>)
        ensures
            mandatory_token_ens(self.syntax@, SyntaxKind::Assign, r),
    {
        as_mandatory_token(&self.syntax, SyntaxKind::Assign)
    }

    pub fn module(&self) -> (r: SyntaxResult<TsModuleRef>)
        ensures
            mandatory_node_ens::<TsModuleRef>(self.syntax@, r),
    {
        as_mandatory_node::<TsModuleRef>(&self.syntax)
    }

    pub fn semicolon_token(&self) -> (r: Option<SyntaxToken>)
        ensures
            optional_token_ens(self.syntax@, SyntaxKind::Semicolon, r),
    {
        as_optional_token(&self.syntax, SyntaxKind::Semicolon)
    }
}

impl AstNode for TsImportEqualsDecl {
    open spec fn spec_can_cast(kind: SyntaxKind) -> bool {
        kind == SyntaxKind::TsImportEqualsDecl
    }

    open spec fn spec_node(&self) -> SyntaxNodeV {
        self.syntax@
    }

    fn can_cast(kind: SyntaxKind) -> (r: bool) {
        kind == SyntaxKind::TsImportEqualsDecl
    }

    fn cast(syntax: SyntaxNode) -> (r: Option<Self>) {
        if syntax.kind == SyntaxKind::TsImportEqualsDecl {
            Some(TsImportEqualsDecl { syntax })
        } else {
            None
        }
    }

    fn syntax(&self) -> (r: &SyntaxNode) {
        &self.syntax
    }
}

/// Typed wrapper for a `SyntaxKind::TsExportAssignment` node.
#[derive(Debug, Clone, PartialEq, Eq, Hash)]
pub struct TsExportAssignment {
    pub syntax: SyntaxNode,
}

impl TsExportAssignment {
    pub fn export_token(&self) -> (r: SyntaxResult<SyntaxToken>)
        ensures
            mandatory_token_ens(self.syntax@, SyntaxKind::ExportKw, r),
    {
        as_mandatory_token(&self.syntax, SyntaxKind::ExportKw)
    }

    pub fn eq_token(&self) -> (r: SyntaxResult<SyntaxToken>)
        ensures
            mandatory_token_ens(self.syntax@, SyntaxKind::Assign, r),
    {
        as_mandatory_token(&self.syntax, SyntaxKind::Assign)
    }

    pub fn expr(&self) -> (r: SyntaxResult<Expr>)
        ensures
            mandatory_node_ens::<Expr>(self.syntax@, r),
    {
        as_mandatory_node::<Expr>(&self.syntax)
    }

    pub fn semicolon_token(&self) -> (r: Option<SyntaxToken>)
        ensures
            optional_token_ens(self.syntax@, SyntaxKind::Semicolon, r),
    {
        as_optional_token(&self.syntax, SyntaxKind::Semicolon)
    }
}

impl AstNode for TsExportAssignment {
    open spec fn spec_can_cast(kind: SyntaxKind) -> bool {
        kind == SyntaxKind::TsExportAssignment
    }

    open spec fn spec_node(&self) -> SyntaxNodeV {
        self.syntax@
    }

    fn can_cast(kind: SyntaxKind) -> (r: bool) {
        kind == SyntaxKind::TsExportAssignment
    }

    fn cast(syntax: SyntaxNode) -> (r: Option<Self>) {
        if syntax.kind == SyntaxKind::TsExportAssignment {
            Some(TsExportAssignment { syntax })
        } else {
            None
        }
    }

    fn syntax(&self) -> (r: &SyntaxNode) {
        &self.syntax
    }
}

/// Typed wrapper for a `SyntaxKind::TsNamespaceExportDecl` node.
#[derive(Debug, Clone, PartialEq, Eq, Hash)]
pub struct TsNamespaceExportDecl {
    pub syntax: SyntaxNode,
}

impl TsNamespaceExportDecl {
    pub fn export_token(&self) -> (r: SyntaxResult<SyntaxToken>)
        ensures
            mandatory_token_ens(self.syntax@, SyntaxKind::ExportKw, r),
    {
        as_mandatory_token(&self.syntax, SyntaxKind::ExportKw)
    }

    pub fn as_token(&self) -> (r: SyntaxResult<SyntaxToken>)
        ensures
            mandatory_token_ens(self.syntax@, SyntaxKind::AsKw, r),
    {
        as_mandatory_token(&self.syntax, SyntaxKind::AsKw)
    }

    pub fn namespace_token(&self) -> (r: SyntaxResult<SyntaxToken>)
        ensures
            mandatory_token_ens(self.syntax@, SyntaxKind::NamespaceKw, r),
    {
        as_mandatory_token(&self.syntax, SyntaxKind::NamespaceKw)
    }

    pub fn ident(&self) -> (r: Option<Ident>)
        ensures
            optional_node_ens::<Ident>(self.syntax@, r),
    {
        as_optional_node::<Ident>(&self.syntax)
    }

    pub fn semicolon_token(&self) -> (r: Option<SyntaxToken>)
        ensures
            optional_token_ens(self.syntax@, SyntaxKind::Semicolon, r),
    {
        as_optional_token(&self.syntax, SyntaxKind::Semicolon)
    }
}

impl AstNode for TsNamespaceExportDecl {
    open spec fn spec_can_cast(kind: SyntaxKind) -> bool {
        kind == SyntaxKind::TsNamespaceExportDecl
    }

    open spec fn spec_node(&self) -> SyntaxNodeV {
        self.syntax@
    }

    fn can_cast(kind: SyntaxKind) -> (r: bool) {
        kind == SyntaxKind::TsNamespaceExportDecl
    }

    fn cast(syntax: SyntaxNode) -> (r: Option<Self>) {
        if syntax.kind == SyntaxKind::TsNamespaceExportDecl {
            Some(TsNamespaceExportDecl { syntax })
        } else {
            None
        }
    }

    fn syntax(&self) -> (r: &SyntaxNode) {
        &self.syntax
    }
}

/// Typed wrapper for a `SyntaxKind::WildcardImport` node.
#[derive(Debug, Clone, PartialEq, Eq, Hash)]
pub struct WildcardImport {
    pub syntax: SyntaxNode,
}

impl WildcardImport {
    pub fn star_token(&self) -> (r: SyntaxResult<SyntaxToken>)
        ensures
            mandatory_token_ens(self.syntax@, SyntaxKind::Star, r),
    {
        as_mandatory_token(&self.syntax, SyntaxKind::Star)
    }

    pub fn as_token(&self) -> (r: Option<SyntaxToken>)
        ensures
            optional_token_ens(self.syntax@, SyntaxKind::AsKw, r),
    {
        as_optional_token(&self.syntax, SyntaxKind::AsKw)
    }

    pub fn ident(&self) -> (r: Option<Ident>)
        ensures
            optional_node_ens::<Ident>(self.syntax@, r),
    {
        as_optional_node::<Ident>(&self.syntax)
    }
}

impl AstNode for WildcardImport {
    open spec fn spec_can_cast(kind: SyntaxKind) -> bool {
        kind == SyntaxKind::WildcardImport
    }

    open spec fn spec_node(&self) -> SyntaxNodeV {
        self.syntax@
    }

    fn can_cast(kind: SyntaxKind) -> (r: bool) {
        kind == SyntaxKind::WildcardImport
    }

    fn cast(syntax: SyntaxNode) -> (r: Option<Self>) {
        if syntax.kind == SyntaxKind::WildcardImport {
            Some(WildcardImport { syntax })
        } else {
            None
        }
    }

    fn syntax(&self) -> (r: &SyntaxNode) {
        &self.syntax
    }
}

/// Typed wrapper for a `SyntaxKind::NamedImports` node.
#[derive(Debug, Clone, PartialEq, Eq, Hash)]
pub struct NamedImports {
    pub syntax: SyntaxNode,
}

impl NamedImports {
    pub fn l_curly_token(&self) -> (r: SyntaxResult<SyntaxToken>)
        ensures
            mandatory_token_ens(self.syntax@, SyntaxKind::LCurly, r),
    {
        as_mandatory_token(&self.syntax, SyntaxKind::LCurly)
    }

    pub fn specifiers(&self) -> (r: AstSeparatedList<Specifier>)
        ensures
            node_list_ens::<Specifier>(self.syntax@, r@),
    {
        separated_list::<Specifier>(&self.syntax)
    }

    pub fn r_curly_token(&self) -> (r: SyntaxResult<SyntaxToken>)
        ensures
            mandatory_token_ens(self.syntax@, SyntaxKind::RCurly, r),
    {
        as_mandatory_token(&self.syntax, SyntaxKind::RCurly)
    }
}

impl AstNode for NamedImports {
    open spec fn spec_can_cast(kind: SyntaxKind) -> bool {
        kind == SyntaxKind::NamedImports
    }

    open spec fn spec_node(&self) -> SyntaxNodeV {
        self.syntax@
    }

    fn can_cast(kind: SyntaxKind) -> (r: bool) {
        kind == SyntaxKind::NamedImports
    }

    fn cast(syntax: SyntaxNode) -> (r: Option<Self>) {
        if syntax.kind == SyntaxKind::NamedImports {
            Some(NamedImports { syntax })
        } else {
            None
        }
    }

    fn syntax(&self) -> (r: &SyntaxNode) {
        &self.syntax
    }
}

/// Typed wrapper for a `SyntaxKind::ImportStringSpecifier` node.
#[derive(Debug, Clone, PartialEq, Eq, Hash)]
pub struct ImportStringSpecifier {
    pub syntax: SyntaxNode,
}

impl AstNode for ImportStringSpecifier {
    open spec fn spec_can_cast(kind: SyntaxKind) -> bool {
        kind == SyntaxKind::ImportStringSpecifier
    }

    open spec fn spec_node(&self) -> SyntaxNodeV {
        self.syntax@
    }

    fn can_cast(kind: SyntaxKind) -> (r: bool) {
        kind == SyntaxKind::ImportStringSpecifier
    }

    fn cast(syntax: SyntaxNode) -> (r: Option<Self>) {
        if syntax.kind == SyntaxKind::ImportStringSpecifier {
            Some(ImportStringSpecifier { syntax })
        } else {
            None
        }
    }

    fn syntax(&self) -> (r: &SyntaxNode) {
        &self.syntax
    }
}

/// Typed wrapper for a `SyntaxKind::Specifier` node.
#[derive(Debug, Clone, PartialEq, Eq, Hash)]
pub struct Specifier {
    pub syntax: SyntaxNode,
}

impl Specifier {
    pub fn name(&self) -> (r: SyntaxResult<Ident>)
        ensures
            mandatory_node_ens::<Ident>(self.syntax@, r),
    {
        as_mandatory_node::<Ident>(&self.syntax)
    }
}

impl AstNode for Specifier {
    open spec fn spec_can_cast(kind: SyntaxKind) -> bool {
        kind == SyntaxKind::Specifier
    }

    open spec fn spec_node(&self) -> SyntaxNodeV {
        self.syntax@
    }

    fn can_cast(kind: SyntaxKind) -> (r: bool) {
        kind == SyntaxKind::Specifier
    }

    fn cast(syntax: SyntaxNode) -> (r: Option<Self>) {
        if syntax.kind == SyntaxKind::Specifier {
            Some(Specifier { syntax })
        } else {
            None
        }
    }

    fn syntax(&self) -> (r: &SyntaxNode) {
        &self.syntax
    }
}

/// Typed wrapper for a `SyntaxKind::TsExternalModuleRef` node.
#[derive(Debug, Clone, PartialEq, Eq, Hash)]
pub struct TsExternalModuleRef {
    pub syntax: SyntaxNode,
}

impl TsExternalModuleRef {
    pub fn require_token(&self) -> (r: SyntaxResult<SyntaxToken>)
        ensures
            mandatory_token_ens(self.syntax@, SyntaxKind::RequireKw, r),
    {
        as_mandatory_token(&self.syntax, SyntaxKind::RequireKw)
    }

    pub fn l_paren_token(&self) -> (r: SyntaxResult<SyntaxToken>)
        ensures
            mandatory_token_ens(self.syntax@, SyntaxKind::LParen, r),
    {
        as_mandatory_token(&self.syntax, SyntaxKind::LParen)
    }

    pub fn r_paren_token(&self) -> (r: SyntaxResult<SyntaxToken>)
        ensures
            mandatory_token_ens(self.syntax@, SyntaxKind::RParen, r),
    {
        as_mandatory_token(&self.syntax, SyntaxKind::RParen)
    }
}

impl AstNode for TsExternalModuleRef {
    open spec fn spec_can_cast(kind: SyntaxKind) -> bool {
        kind == SyntaxKind::TsExternalModuleRef
    }

    open spec fn spec_node(&self) -> SyntaxNodeV {
        self.syntax@
    }

    fn can_cast(kind: SyntaxKind) -> (r: bool) {
        kind == SyntaxKind::TsExternalModuleRef
    }

    fn cast(syntax: SyntaxNode) -> (r: Option<Self>) {
        if syntax.kind == SyntaxKind::TsExternalModuleRef {
            Some(TsExternalModuleRef { syntax })
        } else {
            None
        }
    }

    fn syntax(&self) -> (r: &SyntaxNode) {
        &self.syntax
    }
}

} // verus!
