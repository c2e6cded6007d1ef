//! Typed wrappers for script roots, statements and their clauses.
//!
//! Every wrapper holds the untyped node it was cast from; its accessors
//! state, over the ghost tree, exactly which child they return.

use vstd::prelude::*;

use crate::support::{
    AstNode, AstNodeList, AstSeparatedList, SyntaxElementChildren, as_mandatory_node, as_mandatory_token, as_optional_node, as_optional_token, elements, mandatory_node_ens, mandatory_token_ens, node_list, node_list_ens, optional_node_ens, optional_token_ens, separated_list,
};
use crate::syntax::{SyntaxKind, SyntaxNode, SyntaxNodeV, SyntaxResult, SyntaxToken, elems_view};
use crate::ast_decls::{Declarator};
use crate::ast_unions::{Expr, ForHead, ModuleItem, Pattern, Stmt, SwitchCase};

verus! {

/// Typed wrapper for a `SyntaxKind::JsUnknownStatement` node.
#[derive(Debug, Clone, PartialEq, Eq, Hash)]
pub struct JsUnknownStatement {
    pub syntax: SyntaxNode,
}

impl JsUnknownStatement {
    pub fn syntax_element(&self) -> (r: SyntaxElementChildren)
        ensures
            elems_view(r@) == self.syntax@.children,
    {
        elements(&self.syntax)
    }
}

impl AstNode for JsUnknownStatement {
    open spec fn spec_can_cast(kind: SyntaxKind) -> bool {
        kind == SyntaxKind::JsUnknownStatement
    }

    open spec fn spec_node(&self) -> SyntaxNodeV {
        self.syntax@
    }

    fn can_cast(kind: SyntaxKind) -> (r: bool) {
        kind == SyntaxKind::JsUnknownStatement
    }

    fn cast(syntax: SyntaxNode) -> (r: Option<Self>) {
        if syntax.kind == SyntaxKind::JsUnknownStatement {
            Some(JsUnknownStatement { syntax })
        } else {
            None
        }
    }

    fn syntax(&self) -> (r: &SyntaxNode) {
        &self.syntax
    }
}

/// Typed wrapper for a `SyntaxKind::JsUnknownExpression` node.
#[derive(Debug, Clone, PartialEq, Eq, Hash)]
pub struct JsUnknownExpression {
    pub syntax: SyntaxNode,
}

impl JsUnknownExpression {
    pub fn syntax_element(&self) -> (r: SyntaxElementChildren)
        ensures
            elems_view(r@) == self.syntax@.children,
    {
        elements(&self.syntax)
    }
}

impl AstNode for JsUnknownExpression {
    open spec fn spec_can_cast(kind: SyntaxKind) -> bool {
        kind == SyntaxKind::JsUnknownExpression
    }

    open spec fn spec_node(&self) -> SyntaxNodeV {
        self.syntax@
    }

    fn can_cast(kind: SyntaxKind) -> (r: bool) {
        kind == SyntaxKind::JsUnknownExpression
    }

    fn cast(syntax: SyntaxNode) -> (r: Option<Self>) {
        if syntax.kind == SyntaxKind::JsUnknownExpression {
            Some(JsUnknownExpression { syntax })
        } else {
            None
        }
    }

    fn syntax(&self) -> (r: &SyntaxNode) {
        &self.syntax
    }
}

/// Typed wrapper for a `SyntaxKind::JsUnknownPattern` node.
#[derive(Debug, Clone, PartialEq, Eq, Hash)]
pub struct JsUnknownPattern {
    pub syntax: SyntaxNode,
}

impl JsUnknownPattern {
    pub fn syntax_element(&self) -> (r: SyntaxElementChildren)
        ensures
            elems_view(r@) == self.syntax@.children,
    {
        elements(&self.syntax)
    }
}

impl AstNode for JsUnknownPattern {
    open spec fn spec_can_cast(kind: SyntaxKind) -> bool {
        kind == SyntaxKind::JsUnknownPattern
    }

    open spec fn spec_node(&self) -> SyntaxNodeV {
        self.syntax@
    }

    fn can_cast(kind: SyntaxKind) -> (r: bool) {
        kind == SyntaxKind::JsUnknownPattern
    }

    fn cast(syntax: SyntaxNode) -> (r: Option<Self>) {
        if syntax.kind == SyntaxKind::JsUnknownPattern {
            Some(JsUnknownPattern { syntax })
        } else {
            None
        }
    }

    fn syntax(&self) -> (r: &SyntaxNode) {
        &self.syntax
    }
}

/// Typed wrapper for a `SyntaxKind::JsUnknownMember` node.
#[derive(Debug, Clone, PartialEq, Eq, Hash)]
pub struct JsUnknownMember {
    pub syntax: SyntaxNode,
}

impl JsUnknownMember {
    pub fn syntax_element(&self) -> (r: SyntaxElementChildren)
        ensures
            elems_view(r@) == self.syntax@.children,
    {
        elements(&self.syntax)
    }
}

impl AstNode for JsUnknownMember {
    open spec fn spec_can_cast(kind: SyntaxKind) -> bool {
        kind == SyntaxKind::JsUnknownMember
    }

    open spec fn spec_node(&self) -> SyntaxNodeV {
        self.syntax@
    }

    fn can_cast(kind: SyntaxKind) -> (r: bool) {
        kind == SyntaxKind::JsUnknownMember
    }

    fn cast(syntax: SyntaxNode) -> (r: Option<Self>) {
        if syntax.kind == SyntaxKind::JsUnknownMember {
            Some(JsUnknownMember { syntax })
        } else {
            None
        }
    }

    fn syntax(&self) -> (r: &SyntaxNode) {
        &self.syntax
    }
}

/// Typed wrapper for a `SyntaxKind::JsUnknownBinding` node.
#[derive(Debug, Clone, PartialEq, Eq, Hash)]
pub struct JsUnknownBinding {
    pub syntax: SyntaxNode,
}

impl JsUnknownBinding {
    pub fn syntax_element(&self) -> (r: SyntaxElementChildren)
        ensures
            elems_view(r@) == self.syntax@.children,
    {
        elements(&self.syntax)
    }
}

impl AstNode for JsUnknownBinding {
    open spec fn spec_can_cast(kind: SyntaxKind) -> bool {
        kind == SyntaxKind::JsUnknownBinding
    }

    open spec fn spec_node(&self) -> SyntaxNodeV {
        self.syntax@
    }

    fn can_cast(kind: SyntaxKind) -> (r: bool) {
        kind == SyntaxKind::JsUnknownBinding
    }

    fn cast(syntax: SyntaxNode) -> (r: Option<Self>) {
        if syntax.kind == SyntaxKind::JsUnknownBinding {
            Some(JsUnknownBinding { syntax })
        } else {
            None
        }
    }

    fn syntax(&self) -> (r: &SyntaxNode) {
        &self.syntax
    }
}

/// Typed wrapper for a `SyntaxKind::JsUnknownAssignmentTarget` node.
#[derive(Debug, Clone, PartialEq, Eq, Hash)]
pub struct JsUnknownAssignmentTarget {
    pub syntax: SyntaxNode,
}

impl JsUnknownAssignmentTarget {
    pub fn syntax_element(&self) -> (r: SyntaxElementChildren)
        ensures
            elems_view(r@) == self.syntax@.children,
    {
        elements(&self.syntax)
    }
}

impl AstNode for JsUnknownAssignmentTarget {
    open spec fn spec_can_cast(kind: SyntaxKind) -> bool {
        kind == SyntaxKind::JsUnknownAssignmentTarget
    }

    open spec fn spec_node(&self) -> SyntaxNodeV {
        self.syntax@
    }

    fn can_cast(kind: SyntaxKind) -> (r: bool) {
        kind == SyntaxKind::JsUnknownAssignmentTarget
    }

    fn cast(syntax: SyntaxNode) -> (r: Option<Self>) {
        if syntax.kind == SyntaxKind::JsUnknownAssignmentTarget {
            Some(JsUnknownAssignmentTarget { syntax })
        } else {
            None
        }
    }

    fn syntax(&self) -> (r: &SyntaxNode) {
        &self.syntax
    }
}

/// Typed wrapper for a `SyntaxKind::Ident` node.
#[derive(Debug, Clone, PartialEq, Eq, Hash)]
pub struct Ident {
    pub syntax: SyntaxNode,
}

impl Ident {
    pub fn ident_token(&self) -> (r: SyntaxResult<SyntaxToken>)
        ensures
            mandatory_token_ens(self.syntax@, SyntaxKind::Ident, r),
    {
        as_mandatory_token(&self.syntax, SyntaxKind::Ident)
    }
}

impl AstNode for Ident {
    open spec fn spec_can_cast(kind: SyntaxKind) -> bool {
        kind == SyntaxKind::Ident
    }

    open spec fn spec_node(&self) -> SyntaxNodeV {
        self.syntax@
    }

    fn can_cast(kind: SyntaxKind) -> (r: bool) {
        kind == SyntaxKind::Ident
    }

    fn cast(syntax: SyntaxNode) -> (r: Option<Self>) {
        if syntax.kind == SyntaxKind::Ident {
            Some(Ident { syntax })
        } else {
            None
        }
    }

    fn syntax(&self) -> (r: &SyntaxNode) {
        &self.syntax
    }
}

/// Typed wrapper for a `SyntaxKind::Script` node.
#[derive(Debug, Clone, PartialEq, Eq, Hash)]
pub struct Script {
    pub syntax: SyntaxNode,
}

impl Script {
    pub fn shebang_token(&self) -> (r: Option<SyntaxToken>)
        ensures
            optional_token_ens(self.syntax@, SyntaxKind::Shebang, r),
    {
        as_optional_token(&self.syntax, SyntaxKind::Shebang)
    }

    pub fn items(&self) -> (r: AstNodeList<Stmt>)
        ensures
            node_list_ens::<Stmt>(self.syntax@, r@),
    {
        node_list::<Stmt>(&self.syntax)
    }
}

impl AstNode for Script {
    open spec fn spec_can_cast(kind: SyntaxKind) -> bool {
        kind == SyntaxKind::Script
    }

    open spec fn spec_node(&self) -> SyntaxNodeV {
        self.syntax@
    }

    fn can_cast(kind: SyntaxKind) -> (r: bool) {
        kind == SyntaxKind::Script
    }

    fn cast(syntax: SyntaxNode) -> (r: Option<Self>) {
        if syntax.kind == SyntaxKind::Script {
            Some(Script { syntax })
        } else {
            None
        }
    }

    fn syntax(&self) -> (r: &SyntaxNode) {
        &self.syntax
    }
}

/// Typed wrapper for a `SyntaxKind::Module` node.
#[derive(Debug, Clone, PartialEq, Eq, Hash)]
pub struct Module {
    pub syntax: SyntaxNode,
}

impl Module {
    pub fn shebang_token(&self) -> (r: Option<SyntaxToken>)
        ensures
            optional_token_ens(self.syntax@, SyntaxKind::Shebang, r),
    {
        as_optional_token(&self.syntax, SyntaxKind::Shebang)
    }

    pub fn items(&self) -> (r: AstNodeList<ModuleItem>)
        ensures
            node_list_ens::<ModuleItem>(self.syntax@, r@),
    {
        node_list::<ModuleItem>(&self.syntax)
    }
}

impl AstNode for Module {
    open spec fn spec_can_cast(kind: SyntaxKind) -> bool {
        kind == SyntaxKind::Module
    }

    open spec fn spec_node(&self) -> SyntaxNodeV {
        self.syntax@
    }

    fn can_cast(kind: SyntaxKind) -> (r: bool) {
        kind == SyntaxKind::Module
    }

    fn cast(syntax: SyntaxNode) -> (r: Option<Self>) {
        if syntax.kind == SyntaxKind::Module {
            Some(Module { syntax })
        } else {
            None
        }
    }

    fn syntax(&self) -> (r: &SyntaxNode) {
        &self.syntax
    }
}

/// Typed wrapper for a `SyntaxKind::BlockStmt` node.
#[derive(Debug, Clone, PartialEq, Eq, Hash)]
pub struct BlockStmt {
    pub syntax: SyntaxNode,
}

impl BlockStmt {
    pub fn l_curly_token(&self) -> (r: SyntaxResult<SyntaxToken>)
        ensures
            mandatory_token_ens(self.syntax@, SyntaxKind::LCurly, r),
    {
        as_mandatory_token(&self.syntax, SyntaxKind::LCurly)
    }

    pub fn stmts(&self) -> (r: AstNodeList<Stmt>)
        ensures
            node_list_ens::<Stmt>(self.syntax@, r@),
    {
        node_list::<Stmt>(&self.syntax)
    }

    pub fn r_curly_token(&self) -> (r: SyntaxResult<SyntaxToken>)
        ensures
            mandatory_token_ens(self.syntax@, SyntaxKind::RCurly, r),
    {
        as_mandatory_token(&self.syntax, SyntaxKind::RCurly)
    }
}

impl AstNode for BlockStmt {
    open spec fn spec_can_cast(kind: SyntaxKind) -> bool {
        kind == SyntaxKind::BlockStmt
    }

    open spec fn spec_node(&self) -> SyntaxNodeV {
        self.syntax@
    }

    fn can_cast(kind: SyntaxKind) -> (r: bool) {
        kind == SyntaxKind::BlockStmt
    }

    fn cast(syntax: SyntaxNode) -> (r: Option<Self>) {
        if syntax.kind == SyntaxKind::BlockStmt {
            Some(BlockStmt { syntax })
        } else {
            None
        }
    }

    fn syntax(&self) -> (r: &SyntaxNode) {
        &self.syntax
    }
}

/// Typed wrapper for a `SyntaxKind::EmptyStmt` node.
#[derive(Debug, Clone, PartialEq, Eq, Hash)]
pub struct EmptyStmt {
    pub syntax: SyntaxNode,
}

impl EmptyStmt {
    pub fn semicolon_token(&self) -> (r: Option<SyntaxToken>)
        ensures
            optional_token_ens(self.syntax@, SyntaxKind::Semicolon, r),
    {
        as_optional_token(&self.syntax, SyntaxKind::Semicolon)
    }
}

impl AstNode for EmptyStmt {
    open spec fn spec_can_cast(kind: SyntaxKind) -> bool {
        kind == SyntaxKind::EmptyStmt
    }

    open spec fn spec_node(&self) -> SyntaxNodeV {
        self.syntax@
    }

    fn can_cast(kind: SyntaxKind) -> (r: bool) {
        kind == SyntaxKind::EmptyStmt
    }

    fn cast(syntax: SyntaxNode) -> (r: Option<Self>) {
        if syntax.kind == SyntaxKind::EmptyStmt {
            Some(EmptyStmt { syntax })
        } else {
            None
        }
    }

    fn syntax(&self) -> (r: &SyntaxNode) {
        &self.syntax
    }
}

/// Typed wrapper for a `SyntaxKind::ExprStmt` node.
#[derive(Debug, Clone, PartialEq, Eq, Hash)]
pub struct ExprStmt {
    pub syntax: SyntaxNode,
}

impl ExprStmt {
    pub fn expr(&self) -> (r: SyntaxResult<Expr>)
        ensures
            mandatory_node_ens::<Expr>(self.syntax@, r),
    {
        as_mandatory_node::<Expr>(&self.syntax)
    }
}

impl AstNode for ExprStmt {
    open spec fn spec_can_cast(kind: SyntaxKind) -> bool {
        kind == SyntaxKind::ExprStmt
    }

    open spec fn spec_node(&self) -> SyntaxNodeV {
        self.syntax@
    }

    fn can_cast(kind: SyntaxKind) -> (r: bool) {
        kind == SyntaxKind::ExprStmt
    }

    fn cast(syntax: SyntaxNode) -> (r: Option<Self>) {
        if syntax.kind == SyntaxKind::ExprStmt {
            Some(ExprStmt { syntax })
        } else {
            None
        }
    }

    fn syntax(&self) -> (r: &SyntaxNode) {
        &self.syntax
    }
}

/// Typed wrapper for a `SyntaxKind::IfStmt` node.
#[derive(Debug, Clone, PartialEq, Eq, Hash)]
pub struct IfStmt {
    pub syntax: SyntaxNode,
}

impl IfStmt {
    pub fn if_token(&self) -> (r: SyntaxResult<SyntaxToken>)
        ensures
            mandatory_token_ens(self.syntax@, SyntaxKind::IfKw, r),
    {
        as_mandatory_token(&self.syntax, SyntaxKind::IfKw)
    }

    pub fn condition(&self) -> (r: SyntaxResult<Condition>)
        ensures
            mandatory_node_ens::<Condition>(self.syntax@, r),
    {
        as_mandatory_node::<Condition>(&self.syntax)
    }

    pub fn else_token(&self) -> (r: SyntaxResult<SyntaxToken>)
        ensures
            mandatory_token_ens(self.syntax@, SyntaxKind::ElseKw, r),
    {
        as_mandatory_token(&self.syntax, SyntaxKind::ElseKw)
    }
}

impl AstNode for IfStmt {
    open spec fn spec_can_cast(kind: SyntaxKind) -> bool {
        kind == SyntaxKind::IfStmt
    }

    open spec fn spec_node(&self) -> SyntaxNodeV {
        self.syntax@
    }

    fn can_cast(kind: SyntaxKind) -> (r: bool) {
        kind == SyntaxKind::IfStmt
    }

    fn cast(syntax: SyntaxNode) -> (r: Option<Self>) {
        if syntax.kind == SyntaxKind::IfStmt {
            Some(IfStmt { syntax })
        } else {
            None
        }
    }

    fn syntax(&self) -> (r: &SyntaxNode) {
        &self.syntax
    }
}

/// Typed wrapper for a `SyntaxKind::DoWhileStmt` node.
#[derive(Debug, Clone, PartialEq, Eq, Hash)]
pub struct DoWhileStmt {
    pub syntax: SyntaxNode,
}

impl DoWhileStmt {
    pub fn do_token(&self) -> (r: SyntaxResult<SyntaxToken>)
        ensures
            mandatory_token_ens(self.syntax@, SyntaxKind::DoKw, r),
    {
        as_mandatory_token(&self.syntax, SyntaxKind::DoKw)
    }

    pub fn cons(&self) -> (r: SyntaxResult<Stmt>)
        ensures
            mandatory_node_ens::<Stmt>(self.syntax@, r),
    {
        as_mandatory_node::<Stmt>(&self.syntax)
    }

    pub fn while_token(&self) -> (r: SyntaxResult<SyntaxToken>)
        ensures
            mandatory_token_ens(self.syntax@, SyntaxKind::WhileKw, r),
    {
        as_mandatory_token(&self.syntax, SyntaxKind::WhileKw)
    }

    pub fn condition(&self) -> (r: SyntaxResult<Condition>)
        ensures
            mandatory_node_ens::<Condition>(self.syntax@, r),
    {
        as_mandatory_node::<Condition>(&self.syntax)
    }

    pub fn semicolon_token(&self) -> (r: Option<SyntaxToken>)
        ensures
            optional_token_ens(self.syntax@, SyntaxKind::Semicolon, r),
    {
        as_optional_token(&self.syntax, SyntaxKind::Semicolon)
    }
}

impl AstNode for DoWhileStmt {
    open spec fn spec_can_cast(kind: SyntaxKind) -> bool {
        kind == SyntaxKind::DoWhileStmt
    }

    open spec fn spec_node(&self) -> SyntaxNodeV {
        self.syntax@
    }

    fn can_cast(kind: SyntaxKind) -> (r: bool) {
        kind == SyntaxKind::DoWhileStmt
    }

    fn cast(syntax: SyntaxNode) -> (r: Option<Self>) {
        if syntax.kind == SyntaxKind::DoWhileStmt {
            Some(DoWhileStmt { syntax })
        } else {
            None
        }
    }

    fn syntax(&self) -> (r: &SyntaxNode) {
        &self.syntax
    }
}

/// Typed wrapper for a `SyntaxKind::WhileStmt` node.
#[derive(Debug, Clone, PartialEq, Eq, Hash)]
pub struct WhileStmt {
    pub syntax: SyntaxNode,
}

impl WhileStmt {
    pub fn while_token(&self) -> (r: SyntaxResult<SyntaxToken>)
        ensures
            mandatory_token_ens(self.syntax@, SyntaxKind::WhileKw, r),
    {
        as_mandatory_token(&self.syntax, SyntaxKind::WhileKw)
    }

    pub fn condition(&self) -> (r: SyntaxResult<Condition>)
        ensures
            mandatory_node_ens::<Condition>(self.syntax@, r),
    {
        as_mandatory_node::<Condition>(&self.syntax)
    }

    pub fn cons(&self) -> (r: SyntaxResult<Stmt>)
        ensures
            mandatory_node_ens::<Stmt>(self.syntax@, r),
    {
        as_mandatory_node::<Stmt>(&self.syntax)
    }
}

impl AstNode for WhileStmt {
    open spec fn spec_can_cast(kind: SyntaxKind) -> bool {
        kind == SyntaxKind::WhileStmt
    }

    open spec fn spec_node(&self) -> SyntaxNodeV {
        self.syntax@
    }

    fn can_cast(kind: SyntaxKind) -> (r: bool) {
        kind == SyntaxKind::WhileStmt
    }

    fn cast(syntax: SyntaxNode) -> (r: Option<Self>) {
        if syntax.kind == SyntaxKind::WhileStmt {
            Some(WhileStmt { syntax })
        } else {
            None
        }
    }

    fn syntax(&self) -> (r: &SyntaxNode) {
        &self.syntax
    }
}

/// Typed wrapper for a `SyntaxKind::ForStmt` node.
#[derive(Debug, Clone, PartialEq, Eq, Hash)]
pub struct ForStmt {
    pub syntax: SyntaxNode,
}

impl ForStmt {
    pub fn for_token(&self) -> (r: SyntaxResult<SyntaxToken>)
        ensures
            mandatory_token_ens(self.syntax@, SyntaxKind::ForKw, r),
    {
        as_mandatory_token(&self.syntax, SyntaxKind::ForKw)
    }

    pub fn l_paren_token(&self) -> (r: SyntaxResult<SyntaxToken>)
        ensures
            mandatory_token_ens(self.syntax@, SyntaxKind::LParen, r),
    {
        as_mandatory_token(&self.syntax, SyntaxKind::LParen)
    }

    pub fn init(&self) -> (r: Option<ForStmtInit>)
        ensures
            optional_node_ens::<ForStmtInit>(self.syntax@, r),
    {
        as_optional_node::<ForStmtInit>(&self.syntax)
    }

    pub fn test(&self) -> (r: Option<ForStmtTest>)
        ensures
            optional_node_ens::<ForStmtTest>(self.syntax@, r),
    {
        as_optional_node::<ForStmtTest>(&self.syntax)
    }

    pub fn update(&self) -> (r: Option<ForStmtUpdate>)
        ensures
            optional_node_ens::<ForStmtUpdate>(self.syntax@, r),
    {
        as_optional_node::<ForStmtUpdate>(&self.syntax)
    }

    pub fn r_paren_token(&self) -> (r: SyntaxResult<SyntaxToken>)
        ensures
            mandatory_token_ens(self.syntax@, SyntaxKind::RParen, r),
    {
        as_mandatory_token(&self.syntax, SyntaxKind::RParen)
    }

    pub fn cons(&self) -> (r: SyntaxResult<Stmt>)
        ensures
            mandatory_node_ens::<Stmt>(self.syntax@, r),
    {
        as_mandatory_node::<Stmt>(&self.syntax)
    }
}

impl AstNode for ForStmt {
    open spec fn spec_can_cast(kind: SyntaxKind) -> bool {
        kind == SyntaxKind::ForStmt
    }

    open spec fn spec_node(&self) -> SyntaxNodeV {
        self.syntax@
    }

    fn can_cast(kind: SyntaxKind) -> (r: bool) {
        kind == SyntaxKind::ForStmt
    }

    fn cast(syntax: SyntaxNode) -> (r: Option<Self>) {
        if syntax.kind == SyntaxKind::ForStmt {
            Some(ForStmt { syntax })
        } else {
            None
        }
    }

    fn syntax(&self) -> (r: &SyntaxNode) {
        &self.syntax
    }
}

/// Typed wrapper for a `SyntaxKind::ForInStmt` node.
#[derive(Debug, Clone, PartialEq, Eq, Hash)]
pub struct ForInStmt {
    pub syntax: SyntaxNode,
}

impl ForInStmt {
    pub fn for_token(&self) -> (r: SyntaxResult<SyntaxToken>)
        ensures
            mandatory_token_ens(self.syntax@, SyntaxKind::ForKw, r),
    {
        as_mandatory_token(&self.syntax, SyntaxKind::ForKw)
    }

    pub fn l_paren_token(&self) -> (r: SyntaxResult<SyntaxToken>)
        ensures
            mandatory_token_ens(self.syntax@, SyntaxKind::LParen, r),
    {
        as_mandatory_token(&self.syntax, SyntaxKind::LParen)
    }

    pub fn left(&self) -> (r: SyntaxResult<ForStmtInit>)
        ensures
            mandatory_node_ens::<ForStmtInit>(self.syntax@, r),
    {
        as_mandatory_node::<ForStmtInit>(&self.syntax)
    }

    pub fn in_token(&self) -> (r: SyntaxResult<SyntaxToken>)
        ensures
            mandatory_token_ens(self.syntax@, SyntaxKind::InKw, r),
    {
        as_mandatory_token(&self.syntax, SyntaxKind::InKw)
    }

    pub fn right(&self) -> (r: SyntaxResult<Expr>)
        ensures
            mandatory_node_ens::<Expr>(self.syntax@, r),
    {
        as_mandatory_node::<Expr>(&self.syntax)
    }

    pub fn r_paren_token(&self) -> (r: SyntaxResult<SyntaxToken>)
        ensures
            mandatory_token_ens(self.syntax@, SyntaxKind::RParen, r),
    {
        as_mandatory_token(&self.syntax, SyntaxKind::RParen)
    }

    pub fn cons(&self) -> (r: SyntaxResult<Stmt>)
        ensures
            mandatory_node_ens::<Stmt>(self.syntax@, r),
    {
        as_mandatory_node::<Stmt>(&self.syntax)
    }
}

impl AstNode for ForInStmt {
    open spec fn spec_can_cast(kind: SyntaxKind) -> bool {
        kind == SyntaxKind::ForInStmt
    }

    open spec fn spec_node(&self) -> SyntaxNodeV {
        self.syntax@
    }

    fn can_cast(kind: SyntaxKind) -> (r: bool) {
        kind == SyntaxKind::ForInStmt
    }

    fn cast(syntax: SyntaxNode) -> (r: Option<Self>) {
        if syntax.kind == SyntaxKind::ForInStmt {
            Some(ForInStmt { syntax })
        } else {
            None
        }
    }

    fn syntax(&self) -> (r: &SyntaxNode) {
        &self.syntax
    }
}

/// Typed wrapper for a `SyntaxKind::ForOfStmt` node.
#[derive(Debug, Clone, PartialEq, Eq, Hash)]
pub struct ForOfStmt {
    pub syntax: SyntaxNode,
}

impl ForOfStmt {
    pub fn for_token(&self) -> (r: SyntaxResult<SyntaxToken>)
        ensures
            mandatory_token_ens(self.syntax@, SyntaxKind::ForKw, r),
    {
        as_mandatory_token(&self.syntax, SyntaxKind::ForKw)
    }

    pub fn l_paren_token(&self) -> (r: SyntaxResult<SyntaxToken>)
        ensures
            mandatory_token_ens(self.syntax@, SyntaxKind::LParen, r),
    {
        as_mandatory_token(&self.syntax, SyntaxKind::LParen)
    }

    pub fn left(&self) -> (r: SyntaxResult<ForStmtInit>)
        ensures
            mandatory_node_ens::<ForStmtInit>(self.syntax@, r),
    {
        as_mandatory_node::<ForStmtInit>(&self.syntax)
    }

    pub fn of_token(&self) -> (r: SyntaxResult<SyntaxToken>)
        ensures
            mandatory_token_ens(self.syntax@, SyntaxKind::OfKw, r),
    {
        as_mandatory_token(&self.syntax, SyntaxKind::OfKw)
    }

    pub fn right(&self) -> (r: SyntaxResult<Expr>)
        ensures
            mandatory_node_ens::<Expr>(self.syntax@, r),
    {
        as_mandatory_node::<Expr>(&self.syntax)
    }

    pub fn r_paren_token(&self) -> (r: SyntaxResult<SyntaxToken>)
        ensures
            mandatory_token_ens(self.syntax@, SyntaxKind::RParen, r),
    {
        as_mandatory_token(&self.syntax, SyntaxKind::RParen)
    }

    pub fn cons(&self) -> (r: SyntaxResult<Stmt>)
        ensures
            mandatory_node_ens::<Stmt>(self.syntax@, r),
    {
        as_mandatory_node::<Stmt>(&self.syntax)
    }
}

impl AstNode for ForOfStmt {
    open spec fn spec_can_cast(kind: SyntaxKind) -> bool {
        kind == SyntaxKind::ForOfStmt
    }

    open spec fn spec_node(&self) -> SyntaxNodeV {
        self.syntax@
    }

    fn can_cast(kind: SyntaxKind) -> (r: bool) {
        kind == SyntaxKind::ForOfStmt
    }

    fn cast(syntax: SyntaxNode) -> (r: Option<Self>) {
        if syntax.kind == SyntaxKind::ForOfStmt {
            Some(ForOfStmt { syntax })
        } else {
            None
        }
    }

    fn syntax(&self) -> (r: &SyntaxNode) {
        &self.syntax
    }
}

/// Typed wrapper for a `SyntaxKind::ContinueStmt` node.
#[derive(Debug, Clone, PartialEq, Eq, Hash)]
pub struct ContinueStmt {
    pub syntax: SyntaxNode,
}

impl ContinueStmt {
    pub fn continue_token(&self) -> (r: SyntaxResult<SyntaxToken>)
        ensures
            mandatory_token_ens(self.syntax@, SyntaxKind::ContinueKw, r),
    {
        as_mandatory_token(&self.syntax, SyntaxKind::ContinueKw)
    }

    pub fn name_ref(&self) -> (r: SyntaxResult<NameRef>)
        ensures
            mandatory_node_ens::<NameRef>(self.syntax@, r),
    {
        as_mandatory_node::<NameRef>(&self.syntax)
    }

    pub fn semicolon_token(&self) -> (r: Option<SyntaxToken>)
        ensures
            optional_token_ens(self.syntax@, SyntaxKind::Semicolon, r),
    {
        as_optional_token(&self.syntax, SyntaxKind::Semicolon)
    }
}

impl AstNode for ContinueStmt {
    open spec fn spec_can_cast(kind: SyntaxKind) -> bool {
        kind == SyntaxKind::ContinueStmt
    }

    open spec fn spec_node(&self) -> SyntaxNodeV {
        self.syntax@
    }

    fn can_cast(kind: SyntaxKind) -> (r: bool) {
        kind == SyntaxKind::ContinueStmt
    }

    fn cast(syntax: SyntaxNode) -> (r: Option<Self>) {
        if syntax.kind == SyntaxKind::ContinueStmt {
            Some(ContinueStmt { syntax })
        } else {
            None
        }
    }

    fn syntax(&self) -> (r: &SyntaxNode) {
        &self.syntax
    }
}

/// Typed wrapper for a `SyntaxKind::BreakStmt` node.
#[derive(Debug, Clone, PartialEq, Eq, Hash)]
pub struct BreakStmt {
    pub syntax: SyntaxNode,
}

impl BreakStmt {
    pub fn break_token(&self) -> (r: SyntaxResult<SyntaxToken>)
        ensures
            mandatory_token_ens(self.syntax@, SyntaxKind::BreakKw, r),
    {
        as_mandatory_token(&self.syntax, SyntaxKind::BreakKw)
    }

    pub fn ident_token(&self) -> (r: Option<SyntaxToken>)
        ensures
            optional_token_ens(self.syntax@, SyntaxKind::Ident, r),
    {
        as_optional_token(&self.syntax, SyntaxKind::Ident)
    }

    pub fn semicolon_token(&self) -> (r: SyntaxResult<SyntaxToken>)
        ensures
            mandatory_token_ens(self.syntax@, SyntaxKind::Semicolon, r),
    {
        as_mandatory_token(&self.syntax, SyntaxKind::Semicolon)
    }
}

impl AstNode for BreakStmt {
    open spec fn spec_can_cast(kind: SyntaxKind) -> bool {
        kind == SyntaxKind::BreakStmt
    }

    open spec fn spec_node(&self) -> SyntaxNodeV {
        self.syntax@
    }

    fn can_cast(kind: SyntaxKind) -> (r: bool) {
        kind == SyntaxKind::BreakStmt
    }

    fn cast(syntax: SyntaxNode) -> (r: Option<Self>) {
        if syntax.kind == SyntaxKind::BreakStmt {
            Some(BreakStmt { syntax })
        } else {
            None
        }
    }

    fn syntax(&self) -> (r: &SyntaxNode) {
        &self.syntax
    }
}

/// Typed wrapper for a `SyntaxKind::ReturnStmt` node.
#[derive(Debug, Clone, PartialEq, Eq, Hash)]
pub struct ReturnStmt {
    pub syntax: SyntaxNode,
}

impl ReturnStmt {
    pub fn return_token(&self) -> (r: SyntaxResult<SyntaxToken>)
        ensures
            mandatory_token_ens(self.syntax@, SyntaxKind::ReturnKw, r),
    {
        as_mandatory_token(&self.syntax, SyntaxKind::ReturnKw)
    }

    pub fn value(&self) -> (r: SyntaxResult<Expr>)
        ensures
            mandatory_node_ens::<Expr>(self.syntax@, r),
    {
        as_mandatory_node::<Expr>(&self.syntax)
    }

    pub fn semicolon_token(&self) -> (r: Option<SyntaxToken>)
        ensures
            optional_token_ens(self.syntax@, SyntaxKind::Semicolon, r),
    {
        as_optional_token(&self.syntax, SyntaxKind::Semicolon)
    }
}

impl AstNode for ReturnStmt {
    open spec fn spec_can_cast(kind: SyntaxKind) -> bool {
        kind == SyntaxKind::ReturnStmt
    }

    open spec fn spec_node(&self) -> SyntaxNodeV {
        self.syntax@
    }

    fn can_cast(kind: SyntaxKind) -> (r: bool) {
        kind == SyntaxKind::ReturnStmt
    }

    fn cast(syntax: SyntaxNode) -> (r: Option<Self>) {
        if syntax.kind == SyntaxKind::ReturnStmt {
            Some(ReturnStmt { syntax })
        } else {
            None
        }
    }

    fn syntax(&self) -> (r: &SyntaxNode) {
        &self.syntax
    }
}

/// Typed wrapper for a `SyntaxKind::WithStmt` node.
#[derive(Debug, Clone, PartialEq, Eq, Hash)]
pub struct WithStmt {
    pub syntax: SyntaxNode,
}

impl WithStmt {
    pub fn with_token(&self) -> (r: SyntaxResult<SyntaxToken>)
        ensures
            mandatory_token_ens(self.syntax@, SyntaxKind::WithKw, r),
    {
        as_mandatory_token(&self.syntax, SyntaxKind::WithKw)
    }

    pub fn condition(&self) -> (r: SyntaxResult<Condition>)
        ensures
            mandatory_node_ens::<Condition>(self.syntax@, r),
    {
        as_mandatory_node::<Condition>(&self.syntax)
    }

    pub fn cons(&self) -> (r: SyntaxResult<Stmt>)
        ensures
            mandatory_node_ens::<Stmt>(self.syntax@, r),
    {
        as_mandatory_node::<Stmt>(&self.syntax)
    }
}

impl AstNode for WithStmt {
    open spec fn spec_can_cast(kind: SyntaxKind) -> bool {
        kind == SyntaxKind::WithStmt
    }

    open spec fn spec_node(&self) -> SyntaxNodeV {
        self.syntax@
    }

    fn can_cast(kind: SyntaxKind) -> (r: bool) {
        kind == SyntaxKind::WithStmt
    }

    fn cast(syntax: SyntaxNode) -> (r: Option<Self>) {
        if syntax.kind == SyntaxKind::WithStmt {
            Some(WithStmt { syntax })
        } else {
            None
        }
    }

    fn syntax(&self) -> (r: &SyntaxNode) {
        &self.syntax
    }
}

/// Typed wrapper for a `SyntaxKind::LabelledStmt` node.
#[derive(Debug, Clone, PartialEq, Eq, Hash)]
pub struct LabelledStmt {
    pub syntax: SyntaxNode,
}

impl LabelledStmt {
    pub fn label(&self) -> (r: SyntaxResult<Name>)
        ensures
            mandatory_node_ens::<Name>(self.syntax@, r),
    {
        as_mandatory_node::<Name>(&self.syntax)
    }

    pub fn colon_token(&self) -> (r: SyntaxResult<SyntaxToken>)
        ensures
            mandatory_token_ens(self.syntax@, SyntaxKind::Colon, r),
    {
        as_mandatory_token(&self.syntax, SyntaxKind::Colon)
    }

    pub fn stmt(&self) -> (r: SyntaxResult<Stmt>)
        ensures
            mandatory_node_ens::<Stmt>(self.syntax@, r),
    {
        as_mandatory_node::<Stmt>(&self.syntax)
    }
}

impl AstNode for LabelledStmt {
    open spec fn spec_can_cast(kind: SyntaxKind) -> bool {
        kind == SyntaxKind::LabelledStmt
    }

    open spec fn spec_node(&self) -> SyntaxNodeV {
        self.syntax@
    }

    fn can_cast(kind: SyntaxKind) -> (r: bool) {
        kind == SyntaxKind::LabelledStmt
    }

    fn cast(syntax: SyntaxNode) -> (r: Option<Self>) {
        if syntax.kind == SyntaxKind::LabelledStmt {
            Some(LabelledStmt { syntax })
        } else {
            None
        }
    }

    fn syntax(&self) -> (r: &SyntaxNode) {
        &self.syntax
    }
}

/// Typed wrapper for a `SyntaxKind::SwitchStmt` node.
#[derive(Debug, Clone, PartialEq, Eq, Hash)]
pub struct SwitchStmt {
    pub syntax: SyntaxNode,
}

impl SwitchStmt {
    pub fn switch_token(&self) -> (r: SyntaxResult<SyntaxToken>)
        ensures
            mandatory_token_ens(self.syntax@, SyntaxKind::SwitchKw, r),
    {
        as_mandatory_token(&self.syntax, SyntaxKind::SwitchKw)
    }

    pub fn test(&self) -> (r: SyntaxResult<Condition>)
        ensures
            mandatory_node_ens::<Condition>(self.syntax@, r),
    {
        as_mandatory_node::<Condition>(&self.syntax)
    }

    pub fn l_curly_token(&self) -> (r: SyntaxResult<SyntaxToken>)
        ensures
            mandatory_token_ens(self.syntax@, SyntaxKind::LCurly, r),
    {
        as_mandatory_token(&self.syntax, SyntaxKind::LCurly)
    }

    pub fn cases(&self) -> (r: AstNodeList<SwitchCase>)
        ensures
            node_list_ens::<SwitchCase>(self.syntax@, r@),
    {
        node_list::<SwitchCase>(&self.syntax)
    }

    pub fn r_curly_token(&self) -> (r: SyntaxResult<SyntaxToken>)
        ensures
            mandatory_token_ens(self.syntax@, SyntaxKind::RCurly, r),
    {
        as_mandatory_token(&self.syntax, SyntaxKind::RCurly)
    }
}

impl AstNode for SwitchStmt {
    open spec fn spec_can_cast(kind: SyntaxKind) -> bool {
        kind == SyntaxKind::SwitchStmt
    }

    open spec fn spec_node(&self) -> SyntaxNodeV {
        self.syntax@
    }

    fn can_cast(kind: SyntaxKind) -> (r: bool) {
        kind == SyntaxKind::SwitchStmt
    }

    fn cast(syntax: SyntaxNode) -> (r: Option<Self>) {
        if syntax.kind == SyntaxKind::SwitchStmt {
            Some(SwitchStmt { syntax })
        } else {
            None
        }
    }

    fn syntax(&self) -> (r: &SyntaxNode) {
        &self.syntax
    }
}

/// Typed wrapper for a `SyntaxKind::ThrowStmt` node.
#[derive(Debug, Clone, PartialEq, Eq, Hash)]
pub struct ThrowStmt {
    pub syntax: SyntaxNode,
}

impl ThrowStmt {
    pub fn throw_token(&self) -> (r: SyntaxResult<SyntaxToken>)
        ensures
            mandatory_token_ens(self.syntax@, SyntaxKind::ThrowKw, r),
    {
        as_mandatory_token(&self.syntax, SyntaxKind::ThrowKw)
    }

    pub fn exception(&self) -> (r: SyntaxResult<Expr>)
        ensures
            mandatory_node_ens::<Expr>(self.syntax@, r),
    {
        as_mandatory_node::<Expr>(&self.syntax)
    }

    pub fn semicolon_token(&self) -> (r: SyntaxResult<SyntaxToken>)
        ensures
            mandatory_token_ens(self.syntax@, SyntaxKind::Semicolon, r),
    {
        as_mandatory_token(&self.syntax, SyntaxKind::Semicolon)
    }
}

impl AstNode for ThrowStmt {
    open spec fn spec_can_cast(kind: SyntaxKind) -> bool {
        kind == SyntaxKind::ThrowStmt
    }

    open spec fn spec_node(&self) -> SyntaxNodeV {
        self.syntax@
    }

    fn can_cast(kind: SyntaxKind) -> (r: bool) {
        kind == SyntaxKind::ThrowStmt
    }

    fn cast(syntax: SyntaxNode) -> (r: Option<Self>) {
        if syntax.kind == SyntaxKind::ThrowStmt {
            Some(ThrowStmt { syntax })
        } else {
            None
        }
    }

    fn syntax(&self) -> (r: &SyntaxNode) {
        &self.syntax
    }
}

/// Typed wrapper for a `SyntaxKind::TryStmt` node.
#[derive(Debug, Clone, PartialEq, Eq, Hash)]
pub struct TryStmt {
    pub syntax: SyntaxNode,
}

impl TryStmt {
    pub fn try_token(&self) -> (r: SyntaxResult<SyntaxToken>)
        ensures
            mandatory_token_ens(self.syntax@, SyntaxKind::TryKw, r),
    {
        as_mandatory_token(&self.syntax, SyntaxKind::TryKw)
    }

    pub fn test(&self) -> (r: SyntaxResult<BlockStmt>)
        ensures
            mandatory_node_ens::<BlockStmt>(self.syntax@, r),
    {
        as_mandatory_node::<BlockStmt>(&self.syntax)
    }

    pub fn handler(&self) -> (r: Option<CatchClause>)
        ensures
            optional_node_ens::<CatchClause>(self.syntax@, r),
    {
        as_optional_node::<CatchClause>(&self.syntax)
    }

    pub fn finalizer(&self) -> (r: Option<Finalizer>)
        ensures
            optional_node_ens::<Finalizer>(self.syntax@, r),
    {
        as_optional_node::<Finalizer>(&self.syntax)
    }
}

impl AstNode for TryStmt {
    open spec fn spec_can_cast(kind: SyntaxKind) -> bool {
        kind == SyntaxKind::TryStmt
    }

    open spec fn spec_node(&self) -> SyntaxNodeV {
        self.syntax@
    }

    fn can_cast(kind: SyntaxKind) -> (r: bool) {
        kind == SyntaxKind::TryStmt
    }

    fn cast(syntax: SyntaxNode) -> (r: Option<Self>) {
        if syntax.kind == SyntaxKind::TryStmt {
            Some(TryStmt { syntax })
        } else {
            None
        }
    }

    fn syntax(&self) -> (r: &SyntaxNode) {
        &self.syntax
    }
}

/// Typed wrapper for a `SyntaxKind::DebuggerStmt` node.
#[derive(Debug, Clone, PartialEq, Eq, Hash)]
pub struct DebuggerStmt {
    pub syntax: SyntaxNode,
}

impl DebuggerStmt {
    pub fn debugger_token(&self) -> (r: SyntaxResult<SyntaxToken>)
        ensures
            mandatory_token_ens(self.syntax@, SyntaxKind::DebuggerKw, r),
    {
        as_mandatory_token(&self.syntax, SyntaxKind::DebuggerKw)
    }

    pub fn semicolon_token(&self) -> (r: Option<SyntaxToken>)
        ensures
            optional_token_ens(self.syntax@, SyntaxKind::Semicolon, r),
    {
        as_optional_token(&self.syntax, SyntaxKind::Semicolon)
    }
}

impl AstNode for DebuggerStmt {
    open spec fn spec_can_cast(kind: SyntaxKind) -> bool {
        kind == SyntaxKind::DebuggerStmt
    }

    open spec fn spec_node(&self) -> SyntaxNodeV {
        self.syntax@
    }

    fn can_cast(kind: SyntaxKind) -> (r: bool) {
        kind == SyntaxKind::DebuggerStmt
    }

    fn cast(syntax: SyntaxNode) -> (r: Option<Self>) {
        if syntax.kind == SyntaxKind::DebuggerStmt {
            Some(DebuggerStmt { syntax })
        } else {
            None
        }
    }

    fn syntax(&self) -> (r: &SyntaxNode) {
        &self.syntax
    }
}

/// Typed wrapper for a `SyntaxKind::Condition` node.
#[derive(Debug, Clone, PartialEq, Eq, Hash)]
pub struct Condition {
    pub syntax: SyntaxNode,
}

impl Condition {
    pub fn l_paren_token(&self) -> (r: SyntaxResult<SyntaxToken>)
        ensures
            mandatory_token_ens(self.syntax@, SyntaxKind::LParen, r),
    {
        as_mandatory_token(&self.syntax, SyntaxKind::LParen)
    }

    pub fn condition(&self) -> (r: SyntaxResult<Expr>)
        ensures
            mandatory_node_ens::<Expr>(self.syntax@, r),
    {
        as_mandatory_node::<Expr>(&self.syntax)
    }

    pub fn r_paren_token(&self) -> (r: SyntaxResult<SyntaxToken>)
        ensures
            mandatory_token_ens(self.syntax@, SyntaxKind::RParen, r),
    {
        as_mandatory_token(&self.syntax, SyntaxKind::RParen)
    }
}

impl AstNode for Condition {
    open spec fn spec_can_cast(kind: SyntaxKind) -> bool {
        kind == SyntaxKind::Condition
    }

    open spec fn spec_node(&self) -> SyntaxNodeV {
        self.syntax@
    }

    fn can_cast(kind: SyntaxKind) -> (r: bool) {
        kind == SyntaxKind::Condition
    }

    fn cast(syntax: SyntaxNode) -> (r: Option<Self>) {
        if syntax.kind == SyntaxKind::Condition {
            Some(Condition { syntax })
        } else {
            None
        }
    }

    fn syntax(&self) -> (r: &SyntaxNode) {
        &self.syntax
    }
}

/// Typed wrapper for a `SyntaxKind::ForStmtInit` node.
#[derive(Debug, Clone, PartialEq, Eq, Hash)]
pub struct ForStmtInit {
    pub syntax: SyntaxNode,
}

impl ForStmtInit {
    pub fn inner(&self) -> (r: SyntaxResult<ForHead>)
        ensures
            mandatory_node_ens::<ForHead>(self.syntax@, r),
    {
        as_mandatory_node::<ForHead>(&self.syntax)
    }

    pub fn semicolon_token(&self) -> (r: SyntaxResult<SyntaxToken>)
        ensures
            mandatory_token_ens(self.syntax@, SyntaxKind::Semicolon, r),
    {
        as_mandatory_token(&self.syntax, SyntaxKind::Semicolon)
    }
}

impl AstNode for ForStmtInit {
    open spec fn spec_can_cast(kind: SyntaxKind) -> bool {
        kind == SyntaxKind::ForStmtInit
    }

    open spec fn spec_node(&self) -> SyntaxNodeV {
        self.syntax@
    }

    fn can_cast(kind: SyntaxKind) -> (r: bool) {
        kind == SyntaxKind::ForStmtInit
    }

    fn cast(syntax: SyntaxNode) -> (r: Option<Self>) {
        if syntax.kind == SyntaxKind::ForStmtInit {
            Some(ForStmtInit { syntax })
        } else {
            None
        }
    }

    fn syntax(&self) -> (r: &SyntaxNode) {
        &self.syntax
    }
}

/// Typed wrapper for a `SyntaxKind::ForStmtTest` node.
#[derive(Debug, Clone, PartialEq, Eq, Hash)]
pub struct ForStmtTest {
    pub syntax: SyntaxNode,
}

impl ForStmtTest {
    pub fn expr(&self) -> (r: SyntaxResult<Expr>)
        ensures
            mandatory_node_ens::<Expr>(self.syntax@, r),
    {
        as_mandatory_node::<Expr>(&self.syntax)
    }

    pub fn semicolon_token(&self) -> (r: SyntaxResult<SyntaxToken>)
        ensures
            mandatory_token_ens(self.syntax@, SyntaxKind::Semicolon, r),
    {
        as_mandatory_token(&self.syntax, SyntaxKind::Semicolon)
    }
}

impl AstNode for ForStmtTest {
    open spec fn spec_can_cast(kind: SyntaxKind) -> bool {
        kind == SyntaxKind::ForStmtTest
    }

    open spec fn spec_node(&self) -> SyntaxNodeV {
        self.syntax@
    }

    fn can_cast(kind: SyntaxKind) -> (r: bool) {
        kind == SyntaxKind::ForStmtTest
    }

    fn cast(syntax: SyntaxNode) -> (r: Option<Self>) {
        if syntax.kind == SyntaxKind::ForStmtTest {
            Some(ForStmtTest { syntax })
        } else {
            None
        }
    }

    fn syntax(&self) -> (r: &SyntaxNode) {
        &self.syntax
    }
}

/// Typed wrapper for a `SyntaxKind::ForStmtUpdate` node.
#[derive(Debug, Clone, PartialEq, Eq, Hash)]
pub struct ForStmtUpdate {
    pub syntax: SyntaxNode,
}

impl ForStmtUpdate {
    pub fn expr(&self) -> (r: SyntaxResult<Expr>)
        ensures
            mandatory_node_ens::<Expr>(self.syntax@, r),
    {
        as_mandatory_node::<Expr>(&self.syntax)
    }
}

impl AstNode for ForStmtUpdate {
    open spec fn spec_can_cast(kind: SyntaxKind) -> bool {
        kind == SyntaxKind::ForStmtUpdate
    }

    open spec fn spec_node(&self) -> SyntaxNodeV {
        self.syntax@
    }

    fn can_cast(kind: SyntaxKind) -> (r: bool) {
        kind == SyntaxKind::ForStmtUpdate
    }

    fn cast(syntax: SyntaxNode) -> (r: Option<Self>) {
        if syntax.kind == SyntaxKind::ForStmtUpdate {
            Some(ForStmtUpdate { syntax })
        } else {
            None
        }
    }

    fn syntax(&self) -> (r: &SyntaxNode) {
        &self.syntax
    }
}

/// Typed wrapper for a `SyntaxKind::VarDecl` node.
#[derive(Debug, Clone, PartialEq, Eq, Hash)]
pub struct VarDecl {
    pub syntax: SyntaxNode,
}

impl VarDecl {
    pub fn var_token(&self) -> (r: SyntaxResult<SyntaxToken>)
        ensures
            mandatory_token_ens(self.syntax@, SyntaxKind::VarKw, r),
    {
        as_mandatory_token(&self.syntax, SyntaxKind::VarKw)
    }

    pub fn const_token(&self) -> (r: SyntaxResult<SyntaxToken>)
        ensures
            mandatory_token_ens(self.syntax@, SyntaxKind::ConstKw, r),
    {
        as_mandatory_token(&self.syntax, SyntaxKind::ConstKw)
    }

    pub fn declared(&self) -> (r: AstSeparatedList<Declarator>)
        ensures
            node_list_ens::<Declarator>(self.syntax@, r@),
    {
        separated_list::<Declarator>(&self.syntax)
    }

    pub fn semicolon_token(&self) -> (r: Option<SyntaxToken>)
        ensures
            optional_token_ens(self.syntax@, SyntaxKind::Semicolon, r),
    {
        as_optional_token(&self.syntax, SyntaxKind::Semicolon)
    }
}

impl AstNode for VarDecl {
    open spec fn spec_can_cast(kind: SyntaxKind) -> bool {
        kind == SyntaxKind::VarDecl
    }

    open spec fn spec_node(&self) -> SyntaxNodeV {
        self.syntax@
    }

    fn can_cast(kind: SyntaxKind) -> (r: bool) {
        kind == SyntaxKind::VarDecl
    }

    fn cast(syntax: SyntaxNode) -> (r: Option<Self>) {
        if syntax.kind == SyntaxKind::VarDecl {
            Some(VarDecl { syntax })
        } else {
            None
        }
    }

    fn syntax(&self) -> (r: &SyntaxNode) {
        &self.syntax
    }
}

/// Typed wrapper for a `SyntaxKind::NameRef` node.
#[derive(Debug, Clone, PartialEq, Eq, Hash)]
pub struct NameRef {
    pub syntax: SyntaxNode,
}

impl NameRef {
    pub fn ident_token(&self) -> (r: SyntaxResult<SyntaxToken>)
        ensures
            mandatory_token_ens(self.syntax@, SyntaxKind::Ident, r),
    {
        as_mandatory_token(&self.syntax, SyntaxKind::Ident)
    }
}

impl AstNode for NameRef {
    open spec fn spec_can_cast(kind: SyntaxKind) -> bool {
        kind == SyntaxKind::NameRef
    }

    open spec fn spec_node(&self) -> SyntaxNodeV {
        self.syntax@
    }

    fn can_cast(kind: SyntaxKind) -> (r: bool) {
        kind == SyntaxKind::NameRef
    }

    fn cast(syntax: SyntaxNode) -> (r: Option<Self>) {
        if syntax.kind == SyntaxKind::NameRef {
            Some(NameRef { syntax })
        } else {
            None
        }
    }

    fn syntax(&self) -> (r: &SyntaxNode) {
        &self.syntax
    }
}

/// Typed wrapper for a `SyntaxKind::Name` node.
#[derive(Debug, Clone, PartialEq, Eq, Hash)]
pub struct Name {
    pub syntax: SyntaxNode,
}

impl Name {
    pub fn ident_token(&self) -> (r: SyntaxResult<SyntaxToken>)
        ensures
            mandatory_token_ens(self.syntax@, SyntaxKind::Ident, r),
    {
        as_mandatory_token(&self.syntax, SyntaxKind::Ident)
    }
}

impl AstNode for Name {
    open spec fn spec_can_cast(kind: SyntaxKind) -> bool {
        kind == SyntaxKind::Name
    }

    open spec fn spec_node(&self) -> SyntaxNodeV {
        self.syntax@
    }

    fn can_cast(kind: SyntaxKind) -> (r: bool) {
        kind == SyntaxKind::Name
    }

    fn cast(syntax: SyntaxNode) -> (r: Option<Self>) {
        if syntax.kind == SyntaxKind::Name {
            Some(Name { syntax })
        } else {
            None
        }
    }

    fn syntax(&self) -> (r: &SyntaxNode) {
        &self.syntax
    }
}

/// Typed wrapper for a `SyntaxKind::CaseClause` node.
#[derive(Debug, Clone, PartialEq, Eq, Hash)]
pub struct CaseClause {
    pub syntax: SyntaxNode,
}

impl CaseClause {
    pub fn case_token(&self) -> (r: SyntaxResult<SyntaxToken>)
        ensures
            mandatory_token_ens(self.syntax@, SyntaxKind::CaseKw, r),
    {
        as_mandatory_token(&self.syntax, SyntaxKind::CaseKw)
    }

    pub fn test(&self) -> (r: SyntaxResult<Expr>)
        ensures
            mandatory_node_ens::<Expr>(self.syntax@, r),
    {
        as_mandatory_node::<Expr>(&self.syntax)
    }

    pub fn colon_token(&self) -> (r: SyntaxResult<SyntaxToken>)
        ensures
            mandatory_token_ens(self.syntax@, SyntaxKind::Colon, r),
    {
        as_mandatory_token(&self.syntax, SyntaxKind::Colon)
    }

    pub fn cons(&self) -> (r: AstNodeList<Stmt>)
        ensures
            node_list_ens::<Stmt>(self.syntax@, r@),
    {
        node_list::<Stmt>(&self.syntax)
    }
}

impl AstNode for CaseClause {
    open spec fn spec_can_cast(kind: SyntaxKind) -> bool {
        kind == SyntaxKind::CaseClause
    }

    open spec fn spec_node(&self) -> SyntaxNodeV {
        self.syntax@
    }

    fn can_cast(kind: SyntaxKind) -> (r: bool) {
        kind == SyntaxKind::CaseClause
    }

    fn cast(syntax: SyntaxNode) -> (r: Option<Self>) {
        if syntax.kind == SyntaxKind::CaseClause {
            Some(CaseClause { syntax })
        } else {
            None
        }
    }

    fn syntax(&self) -> (r: &SyntaxNode) {
        &self.syntax
    }
}

/// Typed wrapper for a `SyntaxKind::DefaultClause` node.
#[derive(Debug, Clone, PartialEq, Eq, Hash)]
pub struct DefaultClause {
    pub syntax: SyntaxNode,
}

impl DefaultClause {
    pub fn default_token(&self) -> (r: SyntaxResult<SyntaxToken>)
        ensures
            mandatory_token_ens(self.syntax@, SyntaxKind::DefaultKw, r),
    {
        as_mandatory_token(&self.syntax, SyntaxKind::DefaultKw)
    }

    pub fn colon_token(&self) -> (r: SyntaxResult<SyntaxToken>)
        ensures
            mandatory_token_ens(self.syntax@, SyntaxKind::Colon, r),
    {
        as_mandatory_token(&self.syntax, SyntaxKind::Colon)
    }

    pub fn cons(&self) -> (r: AstNodeList<Stmt>)
        ensures
            node_list_ens::<Stmt>(self.syntax@, r@),
    {
        node_list::<Stmt>(&self.syntax)
    }
}

impl AstNode for DefaultClause {
    open spec fn spec_can_cast(kind: SyntaxKind) -> bool {
        kind == SyntaxKind::DefaultClause
    }

    open spec fn spec_node(&self) -> SyntaxNodeV {
        self.syntax@
    }

    fn can_cast(kind: SyntaxKind) -> (r: bool) {
        kind == SyntaxKind::DefaultClause
    }

    fn cast(syntax: SyntaxNode) -> (r: Option<Self>) {
        if syntax.kind == SyntaxKind::DefaultClause {
            Some(DefaultClause { syntax })
        } else {
            None
        }
    }

    fn syntax(&self) -> (r: &SyntaxNode) {
        &self.syntax
    }
}

/// Typed wrapper for a `SyntaxKind::CatchClause` node.
#[derive(Debug, Clone, PartialEq, Eq, Hash)]
pub struct CatchClause {
    pub syntax: SyntaxNode,
}

impl CatchClause {
    pub fn catch_token(&self) -> (r: SyntaxResult<SyntaxToken>)
        ensures
            mandatory_token_ens(self.syntax@, SyntaxKind::CatchKw, r),
    {
        as_mandatory_token(&self.syntax, SyntaxKind::CatchKw)
    }

    pub fn l_paren_token(&self) -> (r: SyntaxResult<SyntaxToken>)
        ensures
            mandatory_token_ens(self.syntax@, SyntaxKind::LParen, r),
    {
        as_mandatory_token(&self.syntax, SyntaxKind::LParen)
    }

    pub fn error(&self) -> (r: SyntaxResult<Pattern>)
        ensures
            mandatory_node_ens::<Pattern>(self.syntax@, r),
    {
        as_mandatory_node::<Pattern>(&self.syntax)
    }

    pub fn r_paren_token(&self) -> (r: SyntaxResult<SyntaxToken>)
        ensures
            mandatory_token_ens(self.syntax@, SyntaxKind::RParen, r),
    {
        as_mandatory_token(&self.syntax, SyntaxKind::RParen)
    }

    pub fn cons(&self) -> (r: SyntaxResult<BlockStmt>)
        ensures
            mandatory_node_ens::<BlockStmt>(self.syntax@, r),
    {
        as_mandatory_node::<BlockStmt>(&self.syntax)
    }
}

impl AstNode for CatchClause {
    open spec fn spec_can_cast(kind: SyntaxKind) -> bool {
        kind == SyntaxKind::CatchClause
    }

    open spec fn spec_node(&self) -> SyntaxNodeV {
        self.syntax@
    }

    fn can_cast(kind: SyntaxKind) -> (r: bool) {
        kind == SyntaxKind::CatchClause
    }

    fn cast(syntax: SyntaxNode) -> (r: Option<Self>) {
        if syntax.kind == SyntaxKind::CatchClause {
            Some(CatchClause { syntax })
        } else {
            None
        }
    }

    fn syntax(&self) -> (r: &SyntaxNode) {
        &self.syntax
    }
}

/// Typed wrapper for a `SyntaxKind::Finalizer` node.
#[derive(Debug, Clone, PartialEq, Eq, Hash)]
pub struct Finalizer {
    pub syntax: SyntaxNode,
}

impl Finalizer {
    pub fn finally_token(&self) -> (r: SyntaxResult<SyntaxToken>)
        ensures
            mandatory_token_ens(self.syntax@, SyntaxKind::FinallyKw, r),
    {
        as_mandatory_token(&self.syntax, SyntaxKind::FinallyKw)
    }

    pub fn cons(&self) -> (r: SyntaxResult<BlockStmt>)
        ensures
            mandatory_node_ens::<BlockStmt>(self.syntax@, r),
    {
        as_mandatory_node::<BlockStmt>(&self.syntax)
    }
}

impl AstNode for Finalizer {
    open spec fn spec_can_cast(kind: SyntaxKind) -> bool {
        kind == SyntaxKind::Finalizer
    }

    open spec fn spec_node(&self) -> SyntaxNodeV {
        self.syntax@
    }

    fn can_cast(kind: SyntaxKind) -> (r: bool) {
        kind == SyntaxKind::Finalizer
    }

    fn cast(syntax: SyntaxNode) -> (r: Option<Self>) {
        if syntax.kind == SyntaxKind::Finalizer {
            Some(Finalizer { syntax })
        } else {
            None
        }
    }

    fn syntax(&self) -> (r: &SyntaxNode) {
        &self.syntax
    }
}

} // verus!
