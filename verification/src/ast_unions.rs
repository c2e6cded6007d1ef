//! Unions of node types that may stand in one grammatical slot.
//!
//! Every wrapper holds the untyped node it was cast from; its accessors
//! state, over the ghost tree, exactly which child they return.

use vstd::prelude::*;

use crate::support::{
    AstNode,
};
use crate::syntax::{SyntaxKind, SyntaxNode, SyntaxNodeV};
use crate::ast_classes::{ArrayPattern, AssignPattern, ClassProp, ComputedPropertyName, Constructor, ExprPattern, Getter, IdentProp, InitializedProp, KeyValuePattern, LiteralProp, Method, ObjectPattern, ParameterList, PrivateProp, RestPattern, Setter, SinglePattern, SpreadElement, SpreadProp, TsConstructorParam, TsIndexSignature};
use crate::ast_decls::{ClassDecl, ExportDecl, ExportDefaultDecl, ExportDefaultExpr, ExportNamed, ExportWildcard, FnDecl, ImportDecl, ImportStringSpecifier, NamedImports, TsEnum, TsExportAssignment, TsExternalModuleRef, TsImportEqualsDecl, TsInterfaceDecl, TsModuleDecl, TsNamespaceDecl, TsNamespaceExportDecl, TsTypeAliasDecl, WildcardImport};
use crate::ast_exprs::{ArrayExpr, ArrowExpr, AssignExpr, AwaitExpr, BinExpr, BracketExpr, CallExpr, ClassExpr, CondExpr, DotExpr, FnExpr, GroupingExpr, ImportCall, ImportMeta, Literal, NewExpr, NewTarget, ObjectExpr, PostUpdateExpression, PreUpdateExpression, PrivatePropAccess, SequenceExpr, SuperCall, Template, ThisExpr, TsAssertion, TsConstAssertion, TsNonNull, UnaryExpr, YieldExpr};
use crate::ast_stmts::{BlockStmt, BreakStmt, CaseClause, ContinueStmt, DebuggerStmt, DefaultClause, DoWhileStmt, EmptyStmt, ExprStmt, ForInStmt, ForOfStmt, ForStmt, Ident, IfStmt, JsUnknownBinding, JsUnknownExpression, JsUnknownMember, JsUnknownPattern, JsUnknownStatement, LabelledStmt, Name, NameRef, ReturnStmt, SwitchStmt, ThrowStmt, TryStmt, VarDecl, WhileStmt, WithStmt};
use crate::ast_ts::{TsAny, TsArray, TsBigint, TsBoolean, TsCallSignatureDecl, TsConditionalType, TsConstructSignatureDecl, TsConstructorType, TsFnType, TsImport, TsIndexedArray, TsInfer, TsIntersection, TsLiteral, TsMappedType, TsMethodSignature, TsModuleBlock, TsNever, TsNull, TsNumber, TsObject, TsObjectType, TsParen, TsPredicate, TsPropertySignature, TsQualifiedPath, TsString, TsSymbol, TsTemplate, TsThis, TsTuple, TsTypeName, TsTypeOperator, TsTypeRef, TsUndefined, TsUnion, TsUnknown, TsVoid};

verus! {

/// Any of the node types that may stand in a `Stmt` slot.
#[derive(Debug, Clone, PartialEq, Eq, Hash)]
pub enum Stmt {
    BlockStmt(BlockStmt),
    EmptyStmt(EmptyStmt),
    ExprStmt(ExprStmt),
    IfStmt(IfStmt),
    DoWhileStmt(DoWhileStmt),
    WhileStmt(WhileStmt),
    ForStmt(ForStmt),
    ForInStmt(ForInStmt),
    ForOfStmt(ForOfStmt),
    ContinueStmt(ContinueStmt),
    BreakStmt(BreakStmt),
    ReturnStmt(ReturnStmt),
    WithStmt(WithStmt),
    LabelledStmt(LabelledStmt),
    SwitchStmt(SwitchStmt),
    ThrowStmt(ThrowStmt),
    TryStmt(TryStmt),
    DebuggerStmt(DebuggerStmt),
    Decl(Decl),
    JsUnknownStatement(JsUnknownStatement),
}

impl AstNode for Stmt {
    open spec fn spec_can_cast(kind: SyntaxKind) -> bool {
        ||| BlockStmt::spec_can_cast(kind)
        ||| EmptyStmt::spec_can_cast(kind)
        ||| ExprStmt::spec_can_cast(kind)
        ||| IfStmt::spec_can_cast(kind)
        ||| DoWhileStmt::spec_can_cast(kind)
        ||| WhileStmt::spec_can_cast(kind)
        ||| ForStmt::spec_can_cast(kind)
        ||| ForInStmt::spec_can_cast(kind)
        ||| ForOfStmt::spec_can_cast(kind)
        ||| ContinueStmt::spec_can_cast(kind)
        ||| BreakStmt::spec_can_cast(kind)
        ||| ReturnStmt::spec_can_cast(kind)
        ||| WithStmt::spec_can_cast(kind)
        ||| LabelledStmt::spec_can_cast(kind)
        ||| SwitchStmt::spec_can_cast(kind)
        ||| ThrowStmt::spec_can_cast(kind)
        ||| TryStmt::spec_can_cast(kind)
        ||| DebuggerStmt::spec_can_cast(kind)
        ||| Decl::spec_can_cast(kind)
        ||| JsUnknownStatement::spec_can_cast(kind)
    }

    open spec fn spec_node(&self) -> SyntaxNodeV {
        match self {
            Stmt::BlockStmt(it) => it.spec_node(),
            Stmt::EmptyStmt(it) => it.spec_node(),
            Stmt::ExprStmt(it) => it.spec_node(),
            Stmt::IfStmt(it) => it.spec_node(),
            Stmt::DoWhileStmt(it) => it.spec_node(),
            Stmt::WhileStmt(it) => it.spec_node(),
            Stmt::ForStmt(it) => it.spec_node(),
            Stmt::ForInStmt(it) => it.spec_node(),
            Stmt::ForOfStmt(it) => it.spec_node(),
            Stmt::ContinueStmt(it) => it.spec_node(),
            Stmt::BreakStmt(it) => it.spec_node(),
            Stmt::ReturnStmt(it) => it.spec_node(),
            Stmt::WithStmt(it) => it.spec_node(),
            Stmt::LabelledStmt(it) => it.spec_node(),
            Stmt::SwitchStmt(it) => it.spec_node(),
            Stmt::ThrowStmt(it) => it.spec_node(),
            Stmt::TryStmt(it) => it.spec_node(),
            Stmt::DebuggerStmt(it) => it.spec_node(),
            Stmt::Decl(it) => it.spec_node(),
            Stmt::JsUnknownStatement(it) => it.spec_node(),
        }
    }

    fn can_cast(kind: SyntaxKind) -> (r: bool) {
        BlockStmt::can_cast(kind) || EmptyStmt::can_cast(kind) || ExprStmt::can_cast(kind) || IfStmt::can_cast(kind) || DoWhileStmt::can_cast(kind) || WhileStmt::can_cast(kind) || ForStmt::can_cast(kind) || ForInStmt::can_cast(kind) || ForOfStmt::can_cast(kind) || ContinueStmt::can_cast(kind) || BreakStmt::can_cast(kind) || ReturnStmt::can_cast(kind) || WithStmt::can_cast(kind) || LabelledStmt::can_cast(kind) || SwitchStmt::can_cast(kind) || ThrowStmt::can_cast(kind) || TryStmt::can_cast(kind) || DebuggerStmt::can_cast(kind) || Decl::can_cast(kind) || JsUnknownStatement::can_cast(kind)
    }

    fn cast(syntax: SyntaxNode) -> (r: Option<Self>) {
        if BlockStmt::can_cast(syntax.kind) {
            Some(Stmt::BlockStmt(BlockStmt { syntax }))
        } else if EmptyStmt::can_cast(syntax.kind) {
            Some(Stmt::EmptyStmt(EmptyStmt { syntax }))
        } else if ExprStmt::can_cast(syntax.kind) {
            Some(Stmt::ExprStmt(ExprStmt { syntax }))
        } else if IfStmt::can_cast(syntax.kind) {
            Some(Stmt::IfStmt(IfStmt { syntax }))
        } else if DoWhileStmt::can_cast(syntax.kind) {
            Some(Stmt::DoWhileStmt(DoWhileStmt { syntax }))
        } else if WhileStmt::can_cast(syntax.kind) {
            Some(Stmt::WhileStmt(WhileStmt { syntax }))
        } else if ForStmt::can_cast(syntax.kind) {
            Some(Stmt::ForStmt(ForStmt { syntax }))
        } else if ForInStmt::can_cast(syntax.kind) {
            Some(Stmt::ForInStmt(ForInStmt { syntax }))
        } else if ForOfStmt::can_cast(syntax.kind) {
            Some(Stmt::ForOfStmt(ForOfStmt { syntax }))
        } else if ContinueStmt::can_cast(syntax.kind) {
            Some(Stmt::ContinueStmt(ContinueStmt { syntax }))
        } else if BreakStmt::can_cast(syntax.kind) {
            Some(Stmt::BreakStmt(BreakStmt { syntax }))
        } else if ReturnStmt::can_cast(syntax.kind) {
            Some(Stmt::ReturnStmt(ReturnStmt { syntax }))
        } else if WithStmt::can_cast(syntax.kind) {
            Some(Stmt::WithStmt(WithStmt { syntax }))
        } else if LabelledStmt::can_cast(syntax.kind) {
            Some(Stmt::LabelledStmt(LabelledStmt { syntax }))
        } else if SwitchStmt::can_cast(syntax.kind) {
            Some(Stmt::SwitchStmt(SwitchStmt { syntax }))
        } else if ThrowStmt::can_cast(syntax.kind) {
            Some(Stmt::ThrowStmt(ThrowStmt { syntax }))
        } else if TryStmt::can_cast(syntax.kind) {
            Some(Stmt::TryStmt(TryStmt { syntax }))
        } else if DebuggerStmt::can_cast(syntax.kind) {
            Some(Stmt::DebuggerStmt(DebuggerStmt { syntax }))
        } else if JsUnknownStatement::can_cast(syntax.kind) {
            Some(Stmt::JsUnknownStatement(JsUnknownStatement { syntax }))
        } else if Decl::can_cast(syntax.kind) {
            match Decl::cast(syntax) {
                Some(it) => Some(Stmt::Decl(it)),
                None => None,
            }
        } else {
            None
        }
    }

    fn syntax(&self) -> (r: &SyntaxNode) {
        match self {
            Stmt::BlockStmt(it) => it.syntax(),
            Stmt::EmptyStmt(it) => it.syntax(),
            Stmt::ExprStmt(it) => it.syntax(),
            Stmt::IfStmt(it) => it.syntax(),
            Stmt::DoWhileStmt(it) => it.syntax(),
            Stmt::WhileStmt(it) => it.syntax(),
            Stmt::ForStmt(it) => it.syntax(),
            Stmt::ForInStmt(it) => it.syntax(),
            Stmt::ForOfStmt(it) => it.syntax(),
            Stmt::ContinueStmt(it) => it.syntax(),
            Stmt::BreakStmt(it) => it.syntax(),
            Stmt::ReturnStmt(it) => it.syntax(),
            Stmt::WithStmt(it) => it.syntax(),
            Stmt::LabelledStmt(it) => it.syntax(),
            Stmt::SwitchStmt(it) => it.syntax(),
            Stmt::ThrowStmt(it) => it.syntax(),
            Stmt::TryStmt(it) => it.syntax(),
            Stmt::DebuggerStmt(it) => it.syntax(),
            Stmt::Decl(it) => it.syntax(),
            Stmt::JsUnknownStatement(it) => it.syntax(),
        }
    }
}

/// Any of the node types that may stand in a `ModuleItem` slot.
#[derive(Debug, Clone, PartialEq, Eq, Hash)]
pub enum ModuleItem {
    ImportDecl(ImportDecl),
    ExportNamed(ExportNamed),
    ExportDefaultDecl(ExportDefaultDecl),
    ExportDefaultExpr(ExportDefaultExpr),
    ExportWildcard(ExportWildcard),
    ExportDecl(ExportDecl),
    TsImportEqualsDecl(TsImportEqualsDecl),
    TsExportAssignment(TsExportAssignment),
    TsNamespaceExportDecl(TsNamespaceExportDecl),
    Stmt(Stmt),
}

impl AstNode for ModuleItem {
    open spec fn spec_can_cast(kind: SyntaxKind) -> bool {
        ||| ImportDecl::spec_can_cast(kind)
        ||| ExportNamed::spec_can_cast(kind)
        ||| ExportDefaultDecl::spec_can_cast(kind)
        ||| ExportDefaultExpr::spec_can_cast(kind)
        ||| ExportWildcard::spec_can_cast(kind)
        ||| ExportDecl::spec_can_cast(kind)
        ||| TsImportEqualsDecl::spec_can_cast(kind)
        ||| TsExportAssignment::spec_can_cast(kind)
        ||| TsNamespaceExportDecl::spec_can_cast(kind)
        ||| Stmt::spec_can_cast(kind)
    }

    open spec fn spec_node(&self) -> SyntaxNodeV {
        match self {
            ModuleItem::ImportDecl(it) => it.spec_node(),
            ModuleItem::ExportNamed(it) => it.spec_node(),
            ModuleItem::ExportDefaultDecl(it) => it.spec_node(),
            ModuleItem::ExportDefaultExpr(it) => it.spec_node(),
            ModuleItem::ExportWildcard(it) => it.spec_node(),
            ModuleItem::ExportDecl(it) => it.spec_node(),
            ModuleItem::TsImportEqualsDecl(it) => it.spec_node(),
            ModuleItem::TsExportAssignment(it) => it.spec_node(),
            ModuleItem::TsNamespaceExportDecl(it) => it.spec_node(),
            ModuleItem::Stmt(it) => it.spec_node(),
        }
    }

    fn can_cast(kind: SyntaxKind) -> (r: bool) {
        ImportDecl::can_cast(kind) || ExportNamed::can_cast(kind) || ExportDefaultDecl::can_cast(kind) || ExportDefaultExpr::can_cast(kind) || ExportWildcard::can_cast(kind) || ExportDecl::can_cast(kind) || TsImportEqualsDecl::can_cast(kind) || TsExportAssignment::can_cast(kind) || TsNamespaceExportDecl::can_cast(kind) || Stmt::can_cast(kind)
    }

    fn cast(syntax: SyntaxNode) -> (r: Option<Self>) {
        if ImportDecl::can_cast(syntax.kind) {
            Some(ModuleItem::ImportDecl(ImportDecl { syntax }))
        } else if ExportNamed::can_cast(syntax.kind) {
            Some(ModuleItem::ExportNamed(ExportNamed { syntax }))
        } else if ExportDefaultDecl::can_cast(syntax.kind) {
            Some(ModuleItem::ExportDefaultDecl(ExportDefaultDecl { syntax }))
        } else if ExportDefaultExpr::can_cast(syntax.kind) {
            Some(ModuleItem::ExportDefaultExpr(ExportDefaultExpr { syntax }))
        } else if ExportWildcard::can_cast(syntax.kind) {
            Some(ModuleItem::ExportWildcard(ExportWildcard { syntax }))
        } else if ExportDecl::can_cast(syntax.kind) {
            Some(ModuleItem::ExportDecl(ExportDecl { syntax }))
        } else if TsImportEqualsDecl::can_cast(syntax.kind) {
            Some(ModuleItem::TsImportEqualsDecl(TsImportEqualsDecl { syntax }))
        } else if TsExportAssignment::can_cast(syntax.kind) {
            Some(ModuleItem::TsExportAssignment(TsExportAssignment { syntax }))
        } else if TsNamespaceExportDecl::can_cast(syntax.kind) {
            Some(ModuleItem::TsNamespaceExportDecl(TsNamespaceExportDecl { syntax }))
        } else if Stmt::can_cast(syntax.kind) {
            match Stmt::cast(syntax) {
                Some(it) => Some(ModuleItem::Stmt(it)),
                None => None,
            }
        } else {
            None
        }
    }

    fn syntax(&self) -> (r: &SyntaxNode) {
        match self {
            ModuleItem::ImportDecl(it) => it.syntax(),
            ModuleItem::ExportNamed(it) => it.syntax(),
            ModuleItem::ExportDefaultDecl(it) => it.syntax(),
            ModuleItem::ExportDefaultExpr(it) => it.syntax(),
            ModuleItem::ExportWildcard(it) => it.syntax(),
            ModuleItem::ExportDecl(it) => it.syntax(),
            ModuleItem::TsImportEqualsDecl(it) => it.syntax(),
            ModuleItem::TsExportAssignment(it) => it.syntax(),
            ModuleItem::TsNamespaceExportDecl(it) => it.syntax(),
            ModuleItem::Stmt(it) => it.syntax(),
        }
    }
}

/// Any of the node types that may stand in a `Decl` slot.
#[derive(Debug, Clone, PartialEq, Eq, Hash)]
pub enum Decl {
    FnDecl(FnDecl),
    ClassDecl(ClassDecl),
    VarDecl(VarDecl),
    TsEnum(TsEnum),
    TsTypeAliasDecl(TsTypeAliasDecl),
    TsNamespaceDecl(TsNamespaceDecl),
    TsModuleDecl(TsModuleDecl),
    TsInterfaceDecl(TsInterfaceDecl),
}

impl AstNode for Decl {
    open spec fn spec_can_cast(kind: SyntaxKind) -> bool {
        ||| FnDecl::spec_can_cast(kind)
        ||| ClassDecl::spec_can_cast(kind)
        ||| VarDecl::spec_can_cast(kind)
        ||| TsEnum::spec_can_cast(kind)
        ||| TsTypeAliasDecl::spec_can_cast(kind)
        ||| TsNamespaceDecl::spec_can_cast(kind)
        ||| TsModuleDecl::spec_can_cast(kind)
        ||| TsInterfaceDecl::spec_can_cast(kind)
    }

    open spec fn spec_node(&self) -> SyntaxNodeV {
        match self {
            Decl::FnDecl(it) => it.spec_node(),
            Decl::ClassDecl(it) => it.spec_node(),
            Decl::VarDecl(it) => it.spec_node(),
            Decl::TsEnum(it) => it.spec_node(),
            Decl::TsTypeAliasDecl(it) => it.spec_node(),
            Decl::TsNamespaceDecl(it) => it.spec_node(),
            Decl::TsModuleDecl(it) => it.spec_node(),
            Decl::TsInterfaceDecl(it) => it.spec_node(),
        }
    }

    fn can_cast(kind: SyntaxKind) -> (r: bool) {
        FnDecl::can_cast(kind) || ClassDecl::can_cast(kind) || VarDecl::can_cast(kind) || TsEnum::can_cast(kind) || TsTypeAliasDecl::can_cast(kind) || TsNamespaceDecl::can_cast(kind) || TsModuleDecl::can_cast(kind) || TsInterfaceDecl::can_cast(kind)
    }

    fn cast(syntax: SyntaxNode) -> (r: Option<Self>) {
        if FnDecl::can_cast(syntax.kind) {
            Some(Decl::FnDecl(FnDecl { syntax }))
        } else if ClassDecl::can_cast(syntax.kind) {
            Some(Decl::ClassDecl(ClassDecl { syntax }))
        } else if VarDecl::can_cast(syntax.kind) {
            Some(Decl::VarDecl(VarDecl { syntax }))
        } else if TsEnum::can_cast(syntax.kind) {
            Some(Decl::TsEnum(TsEnum { syntax }))
        } else if TsTypeAliasDecl::can_cast(syntax.kind) {
            Some(Decl::TsTypeAliasDecl(TsTypeAliasDecl { syntax }))
        } else if TsNamespaceDecl::can_cast(syntax.kind) {
            Some(Decl::TsNamespaceDecl(TsNamespaceDecl { syntax }))
        } else if TsModuleDecl::can_cast(syntax.kind) {
            Some(Decl::TsModuleDecl(TsModuleDecl { syntax }))
        } else if TsInterfaceDecl::can_cast(syntax.kind) {
            Some(Decl::TsInterfaceDecl(TsInterfaceDecl { syntax }))
        } else {
            None
        }
    }

    fn syntax(&self) -> (r: &SyntaxNode) {
        match self {
            Decl::FnDecl(it) => it.syntax(),
            Decl::ClassDecl(it) => it.syntax(),
            Decl::VarDecl(it) => it.syntax(),
            Decl::TsEnum(it) => it.syntax(),
            Decl::TsTypeAliasDecl(it) => it.syntax(),
            Decl::TsNamespaceDecl(it) => it.syntax(),
            Decl::TsModuleDecl(it) => it.syntax(),
            Decl::TsInterfaceDecl(it) => it.syntax(),
        }
    }
}

/// Any of the node types that may stand in a `Expr` slot.
#[derive(Debug, Clone, PartialEq, Eq, Hash)]
pub enum Expr {
    ArrowExpr(ArrowExpr),
    Literal(Literal),
    Template(Template),
    NameRef(NameRef),
    ThisExpr(ThisExpr),
    ArrayExpr(ArrayExpr),
    ObjectExpr(ObjectExpr),
    GroupingExpr(GroupingExpr),
    BracketExpr(BracketExpr),
    DotExpr(DotExpr),
    NewExpr(NewExpr),
    CallExpr(CallExpr),
    UnaryExpr(UnaryExpr),
    PreUpdateExpression(PreUpdateExpression),
    PostUpdateExpression(PostUpdateExpression),
    BinExpr(BinExpr),
    CondExpr(CondExpr),
    AssignExpr(AssignExpr),
    SequenceExpr(SequenceExpr),
    FnExpr(FnExpr),
    ClassExpr(ClassExpr),
    NewTarget(NewTarget),
    ImportMeta(ImportMeta),
    SuperCall(SuperCall),
    ImportCall(ImportCall),
    YieldExpr(YieldExpr),
    AwaitExpr(AwaitExpr),
    PrivatePropAccess(PrivatePropAccess),
    TsNonNull(TsNonNull),
    TsAssertion(TsAssertion),
    TsConstAssertion(TsConstAssertion),
    JsUnknownExpression(JsUnknownExpression),
}

impl AstNode for Expr {
    open spec fn spec_can_cast(kind: SyntaxKind) -> bool {
        ||| ArrowExpr::spec_can_cast(kind)
        ||| Literal::spec_can_cast(kind)
        ||| Template::spec_can_cast(kind)
        ||| NameRef::spec_can_cast(kind)
        ||| ThisExpr::spec_can_cast(kind)
        ||| ArrayExpr::spec_can_cast(kind)
        ||| ObjectExpr::spec_can_cast(kind)
        ||| GroupingExpr::spec_can_cast(kind)
        ||| BracketExpr::spec_can_cast(kind)
        ||| DotExpr::spec_can_cast(kind)
        ||| NewExpr::spec_can_cast(kind)
        ||| CallExpr::spec_can_cast(kind)
        ||| UnaryExpr::spec_can_cast(kind)
        ||| PreUpdateExpression::spec_can_cast(kind)
        ||| PostUpdateExpression::spec_can_cast(kind)
        ||| BinExpr::spec_can_cast(kind)
        ||| CondExpr::spec_can_cast(kind)
        ||| AssignExpr::spec_can_cast(kind)
        ||| SequenceExpr::spec_can_cast(kind)
        ||| FnExpr::spec_can_cast(kind)
        ||| ClassExpr::spec_can_cast(kind)
        ||| NewTarget::spec_can_cast(kind)
        ||| ImportMeta::spec_can_cast(kind)
        ||| SuperCall::spec_can_cast(kind)
        ||| ImportCall::spec_can_cast(kind)
        ||| YieldExpr::spec_can_cast(kind)
        ||| AwaitExpr::spec_can_cast(kind)
        ||| PrivatePropAccess::spec_can_cast(kind)
        ||| TsNonNull::spec_can_cast(kind)
        ||| TsAssertion::spec_can_cast(kind)
        ||| TsConstAssertion::spec_can_cast(kind)
        ||| JsUnknownExpression::spec_can_cast(kind)
    }

    open spec fn spec_node(&self) -> SyntaxNodeV {
        match self {
            Expr::ArrowExpr(it) => it.spec_node(),
            Expr::Literal(it) => it.spec_node(),
            Expr::Template(it) => it.spec_node(),
            Expr::NameRef(it) => it.spec_node(),
            Expr::ThisExpr(it) => it.spec_node(),
            Expr::ArrayExpr(it) => it.spec_node(),
            Expr::ObjectExpr(it) => it.spec_node(),
            Expr::GroupingExpr(it) => it.spec_node(),
            Expr::BracketExpr(it) => it.spec_node(),
            Expr::DotExpr(it) => it.spec_node(),
            Expr::NewExpr(it) => it.spec_node(),
            Expr::CallExpr(it) => it.spec_node(),
            Expr::UnaryExpr(it) => it.spec_node(),
            Expr::PreUpdateExpression(it) => it.spec_node(),
            Expr::PostUpdateExpression(it) => it.spec_node(),
            Expr::BinExpr(it) => it.spec_node(),
            Expr::CondExpr(it) => it.spec_node(),
            Expr::AssignExpr(it) => it.spec_node(),
            Expr::SequenceExpr(it) => it.spec_node(),
            Expr::FnExpr(it) => it.spec_node(),
            Expr::ClassExpr(it) => it.spec_node(),
            Expr::NewTarget(it) => it.spec_node(),
            Expr::ImportMeta(it) => it.spec_node(),
            Expr::SuperCall(it) => it.spec_node(),
            Expr::ImportCall(it) => it.spec_node(),
            Expr::YieldExpr(it) => it.spec_node(),
            Expr::AwaitExpr(it) => it.spec_node(),
            Expr::PrivatePropAccess(it) => it.spec_node(),
            Expr::TsNonNull(it) => it.spec_node(),
            Expr::TsAssertion(it) => it.spec_node(),
            Expr::TsConstAssertion(it) => it.spec_node(),
            Expr::JsUnknownExpression(it) => it.spec_node(),
        }
    }

    fn can_cast(kind: SyntaxKind) -> (r: bool) {
        ArrowExpr::can_cast(kind) || Literal::can_cast(kind) || Template::can_cast(kind) || NameRef::can_cast(kind) || ThisExpr::can_cast(kind) || ArrayExpr::can_cast(kind) || ObjectExpr::can_cast(kind) || GroupingExpr::can_cast(kind) || BracketExpr::can_cast(kind) || DotExpr::can_cast(kind) || NewExpr::can_cast(kind) || CallExpr::can_cast(kind) || UnaryExpr::can_cast(kind) || PreUpdateExpression::can_cast(kind) || PostUpdateExpression::can_cast(kind) || BinExpr::can_cast(kind) || CondExpr::can_cast(kind) || AssignExpr::can_cast(kind) || SequenceExpr::can_cast(kind) || FnExpr::can_cast(kind) || ClassExpr::can_cast(kind) || NewTarget::can_cast(kind) || ImportMeta::can_cast(kind) || SuperCall::can_cast(kind) || ImportCall::can_cast(kind) || YieldExpr::can_cast(kind) || AwaitExpr::can_cast(kind) || PrivatePropAccess::can_cast(kind) || TsNonNull::can_cast(kind) || TsAssertion::can_cast(kind) || TsConstAssertion::can_cast(kind) || JsUnknownExpression::can_cast(kind)
    }

    fn cast(syntax: SyntaxNode) -> (r: Option<Self>) {
        if ArrowExpr::can_cast(syntax.kind) {
            Some(Expr::ArrowExpr(ArrowExpr { syntax }))
        } else if Literal::can_cast(syntax.kind) {
            Some(Expr::Literal(Literal { syntax }))
        } else if Template::can_cast(syntax.kind) {
            Some(Expr::Template(Template { syntax }))
        } else if NameRef::can_cast(syntax.kind) {
            Some(Expr::NameRef(NameRef { syntax }))
        } else if ThisExpr::can_cast(syntax.kind) {
            Some(Expr::ThisExpr(ThisExpr { syntax }))
        } else if ArrayExpr::can_cast(syntax.kind) {
            Some(Expr::ArrayExpr(ArrayExpr { syntax }))
        } else if ObjectExpr::can_cast(syntax.kind) {
            Some(Expr::ObjectExpr(ObjectExpr { syntax }))
        } else if GroupingExpr::can_cast(syntax.kind) {
            Some(Expr::GroupingExpr(GroupingExpr { syntax }))
        } else if BracketExpr::can_cast(syntax.kind) {
            Some(Expr::BracketExpr(BracketExpr { syntax }))
        } else if DotExpr::can_cast(syntax.kind) {
            Some(Expr::DotExpr(DotExpr { syntax }))
        } else if NewExpr::can_cast(syntax.kind) {
            Some(Expr::NewExpr(NewExpr { syntax }))
        } else if CallExpr::can_cast(syntax.kind) {
            Some(Expr::CallExpr(CallExpr { syntax }))
        } else if UnaryExpr::can_cast(syntax.kind) {
            Some(Expr::UnaryExpr(UnaryExpr { syntax }))
        } else if PreUpdateExpression::can_cast(syntax.kind) {
            Some(Expr::PreUpdateExpression(PreUpdateExpression { syntax }))
        } else if PostUpdateExpression::can_cast(syntax.kind) {
            Some(Expr::PostUpdateExpression(PostUpdateExpression { syntax }))
        } else if BinExpr::can_cast(syntax.kind) {
            Some(Expr::BinExpr(BinExpr { syntax }))
        } else if CondExpr::can_cast(syntax.kind) {
            Some(Expr::CondExpr(CondExpr { syntax }))
        } else if AssignExpr::can_cast(syntax.kind) {
            Some(Expr::AssignExpr(AssignExpr { syntax }))
        } else if SequenceExpr::can_cast(syntax.kind) {
            Some(Expr::SequenceExpr(SequenceExpr { syntax }))
        } else if FnExpr::can_cast(syntax.kind) {
            Some(Expr::FnExpr(FnExpr { syntax }))
        } else if ClassExpr::can_cast(syntax.kind) {
            Some(Expr::ClassExpr(ClassExpr { syntax }))
        } else if NewTarget::can_cast(syntax.kind) {
            Some(Expr::NewTarget(NewTarget { syntax }))
        } else if ImportMeta::can_cast(syntax.kind) {
            Some(Expr::ImportMeta(ImportMeta { syntax }))
        } else if SuperCall::can_cast(syntax.kind) {
            Some(Expr::SuperCall(SuperCall { syntax }))
        } else if ImportCall::can_cast(syntax.kind) {
            Some(Expr::ImportCall(ImportCall { syntax }))
        } else if YieldExpr::can_cast(syntax.kind) {
            Some(Expr::YieldExpr(YieldExpr { syntax }))
        } else if AwaitExpr::can_cast(syntax.kind) {
            Some(Expr::AwaitExpr(AwaitExpr { syntax }))
        } else if PrivatePropAccess::can_cast(syntax.kind) {
            Some(Expr::PrivatePropAccess(PrivatePropAccess { syntax }))
        } else if TsNonNull::can_cast(syntax.kind) {
            Some(Expr::TsNonNull(TsNonNull { syntax }))
        } else if TsAssertion::can_cast(syntax.kind) {
            Some(Expr::TsAssertion(TsAssertion { syntax }))
        } else if TsConstAssertion::can_cast(syntax.kind) {
            Some(Expr::TsConstAssertion(TsConstAssertion { syntax }))
        } else if JsUnknownExpression::can_cast(syntax.kind) {
            Some(Expr::JsUnknownExpression(JsUnknownExpression { syntax }))
        } else {
            None
        }
    }

    fn syntax(&self) -> (r: &SyntaxNode) {
        match self {
            Expr::ArrowExpr(it) => it.syntax(),
            Expr::Literal(it) => it.syntax(),
            Expr::Template(it) => it.syntax(),
            Expr::NameRef(it) => it.syntax(),
            Expr::ThisExpr(it) => it.syntax(),
            Expr::ArrayExpr(it) => it.syntax(),
            Expr::ObjectExpr(it) => it.syntax(),
            Expr::GroupingExpr(it) => it.syntax(),
            Expr::BracketExpr(it) => it.syntax(),
            Expr::DotExpr(it) => it.syntax(),
            Expr::NewExpr(it) => it.syntax(),
            Expr::CallExpr(it) => it.syntax(),
            Expr::UnaryExpr(it) => it.syntax(),
            Expr::PreUpdateExpression(it) => it.syntax(),
            Expr::PostUpdateExpression(it) => it.syntax(),
            Expr::BinExpr(it) => it.syntax(),
            Expr::CondExpr(it) => it.syntax(),
            Expr::AssignExpr(it) => it.syntax(),
            Expr::SequenceExpr(it) => it.syntax(),
            Expr::FnExpr(it) => it.syntax(),
            Expr::ClassExpr(it) => it.syntax(),
            Expr::NewTarget(it) => it.syntax(),
            Expr::ImportMeta(it) => it.syntax(),
            Expr::SuperCall(it) => it.syntax(),
            Expr::ImportCall(it) => it.syntax(),
            Expr::YieldExpr(it) => it.syntax(),
            Expr::AwaitExpr(it) => it.syntax(),
            Expr::PrivatePropAccess(it) => it.syntax(),
            Expr::TsNonNull(it) => it.syntax(),
            Expr::TsAssertion(it) => it.syntax(),
            Expr::TsConstAssertion(it) => it.syntax(),
            Expr::JsUnknownExpression(it) => it.syntax(),
        }
    }
}

/// Any of the node types that may stand in a `ForHead` slot.
#[derive(Debug, Clone, PartialEq, Eq, Hash)]
pub enum ForHead {
    VarDecl(VarDecl),
    Expr(Expr),
}

impl AstNode for ForHead {
    open spec fn spec_can_cast(kind: SyntaxKind) -> bool {
        ||| VarDecl::spec_can_cast(kind)
        ||| Expr::spec_can_cast(kind)
    }

    open spec fn spec_node(&self) -> SyntaxNodeV {
        match self {
            ForHead::VarDecl(it) => it.spec_node(),
            ForHead::Expr(it) => it.spec_node(),
        }
    }

    fn can_cast(kind: SyntaxKind) -> (r: bool) {
        VarDecl::can_cast(kind) || Expr::can_cast(kind)
    }

    fn cast(syntax: SyntaxNode) -> (r: Option<Self>) {
        if VarDecl::can_cast(syntax.kind) {
            Some(ForHead::VarDecl(VarDecl { syntax }))
        } else if Expr::can_cast(syntax.kind) {
            match Expr::cast(syntax) {
                Some(it) => Some(ForHead::Expr(it)),
                None => None,
            }
        } else {
            None
        }
    }

    fn syntax(&self) -> (r: &SyntaxNode) {
        match self {
            ForHead::VarDecl(it) => it.syntax(),
            ForHead::Expr(it) => it.syntax(),
        }
    }
}

/// Any of the node types that may stand in a `SwitchCase` slot.
#[derive(Debug, Clone, PartialEq, Eq, Hash)]
pub enum SwitchCase {
    CaseClause(CaseClause),
    DefaultClause(DefaultClause),
}

impl AstNode for SwitchCase {
    open spec fn spec_can_cast(kind: SyntaxKind) -> bool {
        ||| CaseClause::spec_can_cast(kind)
        ||| DefaultClause::spec_can_cast(kind)
    }

    open spec fn spec_node(&self) -> SyntaxNodeV {
        match self {
            SwitchCase::CaseClause(it) => it.spec_node(),
            SwitchCase::DefaultClause(it) => it.spec_node(),
        }
    }

    fn can_cast(kind: SyntaxKind) -> (r: bool) {
        CaseClause::can_cast(kind) || DefaultClause::can_cast(kind)
    }

    fn cast(syntax: SyntaxNode) -> (r: Option<Self>) {
        if CaseClause::can_cast(syntax.kind) {
            Some(SwitchCase::CaseClause(CaseClause { syntax }))
        } else if DefaultClause::can_cast(syntax.kind) {
            Some(SwitchCase::DefaultClause(DefaultClause { syntax }))
        } else {
            None
        }
    }

    fn syntax(&self) -> (r: &SyntaxNode) {
        match self {
            SwitchCase::CaseClause(it) => it.syntax(),
            SwitchCase::DefaultClause(it) => it.syntax(),
        }
    }
}

/// Any of the node types that may stand in a `Pattern` slot.
#[derive(Debug, Clone, PartialEq, Eq, Hash)]
pub enum Pattern {
    SinglePattern(SinglePattern),
    RestPattern(RestPattern),
    AssignPattern(AssignPattern),
    ObjectPattern(ObjectPattern),
    ArrayPattern(ArrayPattern),
    ExprPattern(ExprPattern),
    JsUnknownPattern(JsUnknownPattern),
}

impl AstNode for Pattern {
    open spec fn spec_can_cast(kind: SyntaxKind) -> bool {
        ||| SinglePattern::spec_can_cast(kind)
        ||| RestPattern::spec_can_cast(kind)
        ||| AssignPattern::spec_can_cast(kind)
        ||| ObjectPattern::spec_can_cast(kind)
        ||| ArrayPattern::spec_can_cast(kind)
        ||| ExprPattern::spec_can_cast(kind)
        ||| JsUnknownPattern::spec_can_cast(kind)
    }

    open spec fn spec_node(&self) -> SyntaxNodeV {
        match self {
            Pattern::SinglePattern(it) => it.spec_node(),
            Pattern::RestPattern(it) => it.spec_node(),
            Pattern::AssignPattern(it) => it.spec_node(),
            Pattern::ObjectPattern(it) => it.spec_node(),
            Pattern::ArrayPattern(it) => it.spec_node(),
            Pattern::ExprPattern(it) => it.spec_node(),
            Pattern::JsUnknownPattern(it) => it.spec_node(),
        }
    }

    fn can_cast(kind: SyntaxKind) -> (r: bool) {
        SinglePattern::can_cast(kind) || RestPattern::can_cast(kind) || AssignPattern::can_cast(kind) || ObjectPattern::can_cast(kind) || ArrayPattern::can_cast(kind) || ExprPattern::can_cast(kind) || JsUnknownPattern::can_cast(kind)
    }

    fn cast(syntax: SyntaxNode) -> (r: Option<Self>) {
        if SinglePattern::can_cast(syntax.kind) {
            Some(Pattern::SinglePattern(SinglePattern { syntax }))
        } else if RestPattern::can_cast(syntax.kind) {
            Some(Pattern::RestPattern(RestPattern { syntax }))
        } else if AssignPattern::can_cast(syntax.kind) {
            Some(Pattern::AssignPattern(AssignPattern { syntax }))
        } else if ObjectPattern::can_cast(syntax.kind) {
            Some(Pattern::ObjectPattern(ObjectPattern { syntax }))
        } else if ArrayPattern::can_cast(syntax.kind) {
            Some(Pattern::ArrayPattern(ArrayPattern { syntax }))
        } else if ExprPattern::can_cast(syntax.kind) {
            Some(Pattern::ExprPattern(ExprPattern { syntax }))
        } else if JsUnknownPattern::can_cast(syntax.kind) {
            Some(Pattern::JsUnknownPattern(JsUnknownPattern { syntax }))
        } else {
            None
        }
    }

    fn syntax(&self) -> (r: &SyntaxNode) {
        match self {
            Pattern::SinglePattern(it) => it.syntax(),
            Pattern::RestPattern(it) => it.syntax(),
            Pattern::AssignPattern(it) => it.syntax(),
            Pattern::ObjectPattern(it) => it.syntax(),
            Pattern::ArrayPattern(it) => it.syntax(),
            Pattern::ExprPattern(it) => it.syntax(),
            Pattern::JsUnknownPattern(it) => it.syntax(),
        }
    }
}

/// Any of the node types that may stand in a `TsType` slot.
#[derive(Debug, Clone, PartialEq, Eq, Hash)]
pub enum TsType {
    TsAny(TsAny),
    TsUnknown(TsUnknown),
    TsNumber(TsNumber),
    TsObject(TsObject),
    TsBoolean(TsBoolean),
    TsBigint(TsBigint),
    TsString(TsString),
    TsSymbol(TsSymbol),
    TsVoid(TsVoid),
    TsUndefined(TsUndefined),
    TsNull(TsNull),
    TsNever(TsNever),
    TsThis(TsThis),
    TsLiteral(TsLiteral),
    TsPredicate(TsPredicate),
    TsTuple(TsTuple),
    TsParen(TsParen),
    TsTypeRef(TsTypeRef),
    TsTemplate(TsTemplate),
    TsMappedType(TsMappedType),
    TsImport(TsImport),
    TsArray(TsArray),
    TsIndexedArray(TsIndexedArray),
    TsTypeOperator(TsTypeOperator),
    TsIntersection(TsIntersection),
    TsUnion(TsUnion),
    TsFnType(TsFnType),
    TsConstructorType(TsConstructorType),
    TsConditionalType(TsConditionalType),
    TsObjectType(TsObjectType),
    TsInfer(TsInfer),
}

impl AstNode for TsType {
    open spec fn spec_can_cast(kind: SyntaxKind) -> bool {
        ||| TsAny::spec_can_cast(kind)
        ||| TsUnknown::spec_can_cast(kind)
        ||| TsNumber::spec_can_cast(kind)
        ||| TsObject::spec_can_cast(kind)
        ||| TsBoolean::spec_can_cast(kind)
        ||| TsBigint::spec_can_cast(kind)
        ||| TsString::spec_can_cast(kind)
        ||| TsSymbol::spec_can_cast(kind)
        ||| TsVoid::spec_can_cast(kind)
        ||| TsUndefined::spec_can_cast(kind)
        ||| TsNull::spec_can_cast(kind)
        ||| TsNever::spec_can_cast(kind)
        ||| TsThis::spec_can_cast(kind)
        ||| TsLiteral::spec_can_cast(kind)
        ||| TsPredicate::spec_can_cast(kind)
        ||| TsTuple::spec_can_cast(kind)
        ||| TsParen::spec_can_cast(kind)
        ||| TsTypeRef::spec_can_cast(kind)
        ||| TsTemplate::spec_can_cast(kind)
        ||| TsMappedType::spec_can_cast(kind)
        ||| TsImport::spec_can_cast(kind)
        ||| TsArray::spec_can_cast(kind)
        ||| TsIndexedArray::spec_can_cast(kind)
        ||| TsTypeOperator::spec_can_cast(kind)
        ||| TsIntersection::spec_can_cast(kind)
        ||| TsUnion::spec_can_cast(kind)
        ||| TsFnType::spec_can_cast(kind)
        ||| TsConstructorType::spec_can_cast(kind)
        ||| TsConditionalType::spec_can_cast(kind)
        ||| TsObjectType::spec_can_cast(kind)
        ||| TsInfer::spec_can_cast(kind)
    }

    open spec fn spec_node(&self) -> SyntaxNodeV {
        match self {
            TsType::TsAny(it) => it.spec_node(),
            TsType::TsUnknown(it) => it.spec_node(),
            TsType::TsNumber(it) => it.spec_node(),
            TsType::TsObject(it) => it.spec_node(),
            TsType::TsBoolean(it) => it.spec_node(),
            TsType::TsBigint(it) => it.spec_node(),
            TsType::TsString(it) => it.spec_node(),
            TsType::TsSymbol(it) => it.spec_node(),
            TsType::TsVoid(it) => it.spec_node(),
            TsType::TsUndefined(it) => it.spec_node(),
            TsType::TsNull(it) => it.spec_node(),
            TsType::TsNever(it) => it.spec_node(),
            TsType::TsThis(it) => it.spec_node(),
            TsType::TsLiteral(it) => it.spec_node(),
            TsType::TsPredicate(it) => it.spec_node(),
            TsType::TsTuple(it) => it.spec_node(),
            TsType::TsParen(it) => it.spec_node(),
            TsType::TsTypeRef(it) => it.spec_node(),
            TsType::TsTemplate(it) => it.spec_node(),
            TsType::TsMappedType(it) => it.spec_node(),
            TsType::TsImport(it) => it.spec_node(),
            TsType::TsArray(it) => it.spec_node(),
            TsType::TsIndexedArray(it) => it.spec_node(),
            TsType::TsTypeOperator(it) => it.spec_node(),
            TsType::TsIntersection(it) => it.spec_node(),
            TsType::TsUnion(it) => it.spec_node(),
            TsType::TsFnType(it) => it.spec_node(),
            TsType::TsConstructorType(it) => it.spec_node(),
            TsType::TsConditionalType(it) => it.spec_node(),
            TsType::TsObjectType(it) => it.spec_node(),
            TsType::TsInfer(it) => it.spec_node(),
        }
    }

    fn can_cast(kind: SyntaxKind) -> (r: bool) {
        TsAny::can_cast(kind) || TsUnknown::can_cast(kind) || TsNumber::can_cast(kind) || TsObject::can_cast(kind) || TsBoolean::can_cast(kind) || TsBigint::can_cast(kind) || TsString::can_cast(kind) || TsSymbol::can_cast(kind) || TsVoid::can_cast(kind) || TsUndefined::can_cast(kind) || TsNull::can_cast(kind) || TsNever::can_cast(kind) || TsThis::can_cast(kind) || TsLiteral::can_cast(kind) || TsPredicate::can_cast(kind) || TsTuple::can_cast(kind) || TsParen::can_cast(kind) || TsTypeRef::can_cast(kind) || TsTemplate::can_cast(kind) || TsMappedType::can_cast(kind) || TsImport::can_cast(kind) || TsArray::can_cast(kind) || TsIndexedArray::can_cast(kind) || TsTypeOperator::can_cast(kind) || TsIntersection::can_cast(kind) || TsUnion::can_cast(kind) || TsFnType::can_cast(kind) || TsConstructorType::can_cast(kind) || TsConditionalType::can_cast(kind) || TsObjectType::can_cast(kind) || TsInfer::can_cast(kind)
    }

    fn cast(syntax: SyntaxNode) -> (r: Option<Self>) {
        if TsAny::can_cast(syntax.kind) {
            Some(TsType::TsAny(TsAny { syntax }))
        } else if TsUnknown::can_cast(syntax.kind) {
            Some(TsType::TsUnknown(TsUnknown { syntax }))
        } else if TsNumber::can_cast(syntax.kind) {
            Some(TsType::TsNumber(TsNumber { syntax }))
        } else if TsObject::can_cast(syntax.kind) {
            Some(TsType::TsObject(TsObject { syntax }))
        } else if TsBoolean::can_cast(syntax.kind) {
            Some(TsType::TsBoolean(TsBoolean { syntax }))
        } else if TsBigint::can_cast(syntax.kind) {
            Some(TsType::TsBigint(TsBigint { syntax }))
        } else if TsString::can_cast(syntax.kind) {
            Some(TsType::TsString(TsString { syntax }))
        } else if TsSymbol::can_cast(syntax.kind) {
            Some(TsType::TsSymbol(TsSymbol { syntax }))
        } else if TsVoid::can_cast(syntax.kind) {
            Some(TsType::TsVoid(TsVoid { syntax }))
        } else if TsUndefined::can_cast(syntax.kind) {
            Some(TsType::TsUndefined(TsUndefined { syntax }))
        } else if TsNull::can_cast(syntax.kind) {
            Some(TsType::TsNull(TsNull { syntax }))
        } else if TsNever::can_cast(syntax.kind) {
            Some(TsType::TsNever(TsNever { syntax }))
        } else if TsThis::can_cast(syntax.kind) {
            Some(TsType::TsThis(TsThis { syntax }))
        } else if TsLiteral::can_cast(syntax.kind) {
            Some(TsType::TsLiteral(TsLiteral { syntax }))
        } else if TsPredicate::can_cast(syntax.kind) {
            Some(TsType::TsPredicate(TsPredicate { syntax }))
        } else if TsTuple::can_cast(syntax.kind) {
            Some(TsType::TsTuple(TsTuple { syntax }))
        } else if TsParen::can_cast(syntax.kind) {
            Some(TsType::TsParen(TsParen { syntax }))
        } else if TsTypeRef::can_cast(syntax.kind) {
            Some(TsType::TsTypeRef(TsTypeRef { syntax }))
        } else if TsTemplate::can_cast(syntax.kind) {
            Some(TsType::TsTemplate(TsTemplate { syntax }))
        } else if TsMappedType::can_cast(syntax.kind) {
            Some(TsType::TsMappedType(TsMappedType { syntax }))
        } else if TsImport::can_cast(syntax.kind) {
            Some(TsType::TsImport(TsImport { syntax }))
        } else if TsArray::can_cast(syntax.kind) {
            Some(TsType::TsArray(TsArray { syntax }))
        } else if TsIndexedArray::can_cast(syntax.kind) {
            Some(TsType::TsIndexedArray(TsIndexedArray { syntax }))
        } else if TsTypeOperator::can_cast(syntax.kind) {
            Some(TsType::TsTypeOperator(TsTypeOperator { syntax }))
        } else if TsIntersection::can_cast(syntax.kind) {
            Some(TsType::TsIntersection(TsIntersection { syntax }))
        } else if TsUnion::can_cast(syntax.kind) {
            Some(TsType::TsUnion(TsUnion { syntax }))
        } else if TsFnType::can_cast(syntax.kind) {
            Some(TsType::TsFnType(TsFnType { syntax }))
        } else if TsConstructorType::can_cast(syntax.kind) {
            Some(TsType::TsConstructorType(TsConstructorType { syntax }))
        } else if TsConditionalType::can_cast(syntax.kind) {
            Some(TsType::TsConditionalType(TsConditionalType { syntax }))
        } else if TsObjectType::can_cast(syntax.kind) {
            Some(TsType::TsObjectType(TsObjectType { syntax }))
        } else if TsInfer::can_cast(syntax.kind) {
            Some(TsType::TsInfer(TsInfer { syntax }))
        } else {
            None
        }
    }

    fn syntax(&self) -> (r: &SyntaxNode) {
        match self {
            TsType::TsAny(it) => it.syntax(),
            TsType::TsUnknown(it) => it.syntax(),
            TsType::TsNumber(it) => it.syntax(),
            TsType::TsObject(it) => it.syntax(),
            TsType::TsBoolean(it) => it.syntax(),
            TsType::TsBigint(it) => it.syntax(),
            TsType::TsString(it) => it.syntax(),
            TsType::TsSymbol(it) => it.syntax(),
            TsType::TsVoid(it) => it.syntax(),
            TsType::TsUndefined(it) => it.syntax(),
            TsType::TsNull(it) => it.syntax(),
            TsType::TsNever(it) => it.syntax(),
            TsType::TsThis(it) => it.syntax(),
            TsType::TsLiteral(it) => it.syntax(),
            TsType::TsPredicate(it) => it.syntax(),
            TsType::TsTuple(it) => it.syntax(),
            TsType::TsParen(it) => it.syntax(),
            TsType::TsTypeRef(it) => it.syntax(),
            TsType::TsTemplate(it) => it.syntax(),
            TsType::TsMappedType(it) => it.syntax(),
            TsType::TsImport(it) => it.syntax(),
            TsType::TsArray(it) => it.syntax(),
            TsType::TsIndexedArray(it) => it.syntax(),
            TsType::TsTypeOperator(it) => it.syntax(),
            TsType::TsIntersection(it) => it.syntax(),
            TsType::TsUnion(it) => it.syntax(),
            TsType::TsFnType(it) => it.syntax(),
            TsType::TsConstructorType(it) => it.syntax(),
            TsType::TsConditionalType(it) => it.syntax(),
            TsType::TsObjectType(it) => it.syntax(),
            TsType::TsInfer(it) => it.syntax(),
        }
    }
}

/// Any of the node types that may stand in a `ArrowExprParams` slot.
#[derive(Debug, Clone, PartialEq, Eq, Hash)]
pub enum ArrowExprParams {
    Name(Name),
    ParameterList(ParameterList),
}

impl AstNode for ArrowExprParams {
    open spec fn spec_can_cast(kind: SyntaxKind) -> bool {
        ||| Name::spec_can_cast(kind)
        ||| ParameterList::spec_can_cast(kind)
    }

    open spec fn spec_node(&self) -> SyntaxNodeV {
        match self {
            ArrowExprParams::Name(it) => it.spec_node(),
            ArrowExprParams::ParameterList(it) => it.spec_node(),
        }
    }

    fn can_cast(kind: SyntaxKind) -> (r: bool) {
        Name::can_cast(kind) || ParameterList::can_cast(kind)
    }

    fn cast(syntax: SyntaxNode) -> (r: Option<Self>) {
        if Name::can_cast(syntax.kind) {
            Some(ArrowExprParams::Name(Name { syntax }))
        } else if ParameterList::can_cast(syntax.kind) {
            Some(ArrowExprParams::ParameterList(ParameterList { syntax }))
        } else {
            None
        }
    }

    fn syntax(&self) -> (r: &SyntaxNode) {
        match self {
            ArrowExprParams::Name(it) => it.syntax(),
            ArrowExprParams::ParameterList(it) => it.syntax(),
        }
    }
}

/// Any of the node types that may stand in a `ExprOrBlock` slot.
#[derive(Debug, Clone, PartialEq, Eq, Hash)]
pub enum ExprOrBlock {
    Expr(Expr),
    BlockStmt(BlockStmt),
}

impl AstNode for ExprOrBlock {
    open spec fn spec_can_cast(kind: SyntaxKind) -> bool {
        ||| Expr::spec_can_cast(kind)
        ||| BlockStmt::spec_can_cast(kind)
    }

    open spec fn spec_node(&self) -> SyntaxNodeV {
        match self {
            ExprOrBlock::Expr(it) => it.spec_node(),
            ExprOrBlock::BlockStmt(it) => it.spec_node(),
        }
    }

    fn can_cast(kind: SyntaxKind) -> (r: bool) {
        Expr::can_cast(kind) || BlockStmt::can_cast(kind)
    }

    fn cast(syntax: SyntaxNode) -> (r: Option<Self>) {
        if BlockStmt::can_cast(syntax.kind) {
            Some(ExprOrBlock::BlockStmt(BlockStmt { syntax }))
        } else if Expr::can_cast(syntax.kind) {
            match Expr::cast(syntax) {
                Some(it) => Some(ExprOrBlock::Expr(it)),
                None => None,
            }
        } else {
            None
        }
    }

    fn syntax(&self) -> (r: &SyntaxNode) {
        match self {
            ExprOrBlock::Expr(it) => it.syntax(),
            ExprOrBlock::BlockStmt(it) => it.syntax(),
        }
    }
}

/// Any of the node types that may stand in a `ObjectProp` slot.
#[derive(Debug, Clone, PartialEq, Eq, Hash)]
pub enum ObjectProp {
    LiteralProp(LiteralProp),
    Getter(Getter),
    Setter(Setter),
    SpreadProp(SpreadProp),
    InitializedProp(InitializedProp),
    IdentProp(IdentProp),
    Method(Method),
    JsUnknownMember(JsUnknownMember),
}

impl AstNode for ObjectProp {
    open spec fn spec_can_cast(kind: SyntaxKind) -> bool {
        ||| LiteralProp::spec_can_cast(kind)
        ||| Getter::spec_can_cast(kind)
        ||| Setter::spec_can_cast(kind)
        ||| SpreadProp::spec_can_cast(kind)
        ||| InitializedProp::spec_can_cast(kind)
        ||| IdentProp::spec_can_cast(kind)
        ||| Method::spec_can_cast(kind)
        ||| JsUnknownMember::spec_can_cast(kind)
    }

    open spec fn spec_node(&self) -> SyntaxNodeV {
        match self {
            ObjectProp::LiteralProp(it) => it.spec_node(),
            ObjectProp::Getter(it) => it.spec_node(),
            ObjectProp::Setter(it) => it.spec_node(),
            ObjectProp::SpreadProp(it) => it.spec_node(),
            ObjectProp::InitializedProp(it) => it.spec_node(),
            ObjectProp::IdentProp(it) => it.spec_node(),
            ObjectProp::Method(it) => it.spec_node(),
            ObjectProp::JsUnknownMember(it) => it.spec_node(),
        }
    }

    fn can_cast(kind: SyntaxKind) -> (r: bool) {
        LiteralProp::can_cast(kind) || Getter::can_cast(kind) || Setter::can_cast(kind) || SpreadProp::can_cast(kind) || InitializedProp::can_cast(kind) || IdentProp::can_cast(kind) || Method::can_cast(kind) || JsUnknownMember::can_cast(kind)
    }

    fn cast(syntax: SyntaxNode) -> (r: Option<Self>) {
        if LiteralProp::can_cast(syntax.kind) {
            Some(ObjectProp::LiteralProp(LiteralProp { syntax }))
        } else if Getter::can_cast(syntax.kind) {
            Some(ObjectProp::Getter(Getter { syntax }))
        } else if Setter::can_cast(syntax.kind) {
            Some(ObjectProp::Setter(Setter { syntax }))
        } else if SpreadProp::can_cast(syntax.kind) {
            Some(ObjectProp::SpreadProp(SpreadProp { syntax }))
        } else if InitializedProp::can_cast(syntax.kind) {
            Some(ObjectProp::InitializedProp(InitializedProp { syntax }))
        } else if IdentProp::can_cast(syntax.kind) {
            Some(ObjectProp::IdentProp(IdentProp { syntax }))
        } else if Method::can_cast(syntax.kind) {
            Some(ObjectProp::Method(Method { syntax }))
        } else if JsUnknownMember::can_cast(syntax.kind) {
            Some(ObjectProp::JsUnknownMember(JsUnknownMember { syntax }))
        } else {
            None
        }
    }

    fn syntax(&self) -> (r: &SyntaxNode) {
        match self {
            ObjectProp::LiteralProp(it) => it.syntax(),
            ObjectProp::Getter(it) => it.syntax(),
            ObjectProp::Setter(it) => it.syntax(),
            ObjectProp::SpreadProp(it) => it.syntax(),
            ObjectProp::InitializedProp(it) => it.syntax(),
            ObjectProp::IdentProp(it) => it.syntax(),
            ObjectProp::Method(it) => it.syntax(),
            ObjectProp::JsUnknownMember(it) => it.syntax(),
        }
    }
}

/// Any of the node types that may stand in a `ClassElement` slot.
#[derive(Debug, Clone, PartialEq, Eq, Hash)]
pub enum ClassElement {
    EmptyStmt(EmptyStmt),
    Method(Method),
    PrivateProp(PrivateProp),
    ClassProp(ClassProp),
    Constructor(Constructor),
    TsIndexSignature(TsIndexSignature),
    Getter(Getter),
    Setter(Setter),
    JsUnknownMember(JsUnknownMember),
}

impl AstNode for ClassElement {
    open spec fn spec_can_cast(kind: SyntaxKind) -> bool {
        ||| EmptyStmt::spec_can_cast(kind)
        ||| Method::spec_can_cast(kind)
        ||| PrivateProp::spec_can_cast(kind)
        ||| ClassProp::spec_can_cast(kind)
        ||| Constructor::spec_can_cast(kind)
        ||| TsIndexSignature::spec_can_cast(kind)
        ||| Getter::spec_can_cast(kind)
        ||| Setter::spec_can_cast(kind)
        ||| JsUnknownMember::spec_can_cast(kind)
    }

    open spec fn spec_node(&self) -> SyntaxNodeV {
        match self {
            ClassElement::EmptyStmt(it) => it.spec_node(),
            ClassElement::Method(it) => it.spec_node(),
            ClassElement::PrivateProp(it) => it.spec_node(),
            ClassElement::ClassProp(it) => it.spec_node(),
            ClassElement::Constructor(it) => it.spec_node(),
            ClassElement::TsIndexSignature(it) => it.spec_node(),
            ClassElement::Getter(it) => it.spec_node(),
            ClassElement::Setter(it) => it.spec_node(),
            ClassElement::JsUnknownMember(it) => it.spec_node(),
        }
    }

    fn can_cast(kind: SyntaxKind) -> (r: bool) {
        EmptyStmt::can_cast(kind) || Method::can_cast(kind) || PrivateProp::can_cast(kind) || ClassProp::can_cast(kind) || Constructor::can_cast(kind) || TsIndexSignature::can_cast(kind) || Getter::can_cast(kind) || Setter::can_cast(kind) || JsUnknownMember::can_cast(kind)
    }

    fn cast(syntax: SyntaxNode) -> (r: Option<Self>) {
        if EmptyStmt::can_cast(syntax.kind) {
            Some(ClassElement::EmptyStmt(EmptyStmt { syntax }))
        } else if Method::can_cast(syntax.kind) {
            Some(ClassElement::Method(Method { syntax }))
        } else if PrivateProp::can_cast(syntax.kind) {
            Some(ClassElement::PrivateProp(PrivateProp { syntax }))
        } else if ClassProp::can_cast(syntax.kind) {
            Some(ClassElement::ClassProp(ClassProp { syntax }))
        } else if Constructor::can_cast(syntax.kind) {
            Some(ClassElement::Constructor(Constructor { syntax }))
        } else if TsIndexSignature::can_cast(syntax.kind) {
            Some(ClassElement::TsIndexSignature(TsIndexSignature { syntax }))
        } else if Getter::can_cast(syntax.kind) {
            Some(ClassElement::Getter(Getter { syntax }))
        } else if Setter::can_cast(syntax.kind) {
            Some(ClassElement::Setter(Setter { syntax }))
        } else if JsUnknownMember::can_cast(syntax.kind) {
            Some(ClassElement::JsUnknownMember(JsUnknownMember { syntax }))
        } else {
            None
        }
    }

    fn syntax(&self) -> (r: &SyntaxNode) {
        match self {
            ClassElement::EmptyStmt(it) => it.syntax(),
            ClassElement::Method(it) => it.syntax(),
            ClassElement::PrivateProp(it) => it.syntax(),
            ClassElement::ClassProp(it) => it.syntax(),
            ClassElement::Constructor(it) => it.syntax(),
            ClassElement::TsIndexSignature(it) => it.syntax(),
            ClassElement::Getter(it) => it.syntax(),
            ClassElement::Setter(it) => it.syntax(),
            ClassElement::JsUnknownMember(it) => it.syntax(),
        }
    }
}

/// Any of the node types that may stand in a `PropName` slot.
#[derive(Debug, Clone, PartialEq, Eq, Hash)]
pub enum PropName {
    ComputedPropertyName(ComputedPropertyName),
    Literal(Literal),
    Ident(Ident),
    Name(Name),
    JsUnknownBinding(JsUnknownBinding),
}

impl AstNode for PropName {
    open spec fn spec_can_cast(kind: SyntaxKind) -> bool {
        ||| ComputedPropertyName::spec_can_cast(kind)
        ||| Literal::spec_can_cast(kind)
        ||| Ident::spec_can_cast(kind)
        ||| Name::spec_can_cast(kind)
        ||| JsUnknownBinding::spec_can_cast(kind)
    }

    open spec fn spec_node(&self) -> SyntaxNodeV {
        match self {
            PropName::ComputedPropertyName(it) => it.spec_node(),
            PropName::Literal(it) => it.spec_node(),
            PropName::Ident(it) => it.spec_node(),
            PropName::Name(it) => it.spec_node(),
            PropName::JsUnknownBinding(it) => it.spec_node(),
        }
    }

    fn can_cast(kind: SyntaxKind) -> (r: bool) {
        ComputedPropertyName::can_cast(kind) || Literal::can_cast(kind) || Ident::can_cast(kind) || Name::can_cast(kind) || JsUnknownBinding::can_cast(kind)
    }

    fn cast(syntax: SyntaxNode) -> (r: Option<Self>) {
        if ComputedPropertyName::can_cast(syntax.kind) {
            Some(PropName::ComputedPropertyName(ComputedPropertyName { syntax }))
        } else if Literal::can_cast(syntax.kind) {
            Some(PropName::Literal(Literal { syntax }))
        } else if Ident::can_cast(syntax.kind) {
            Some(PropName::Ident(Ident { syntax }))
        } else if Name::can_cast(syntax.kind) {
            Some(PropName::Name(Name { syntax }))
        } else if JsUnknownBinding::can_cast(syntax.kind) {
            Some(PropName::JsUnknownBinding(JsUnknownBinding { syntax }))
        } else {
            None
        }
    }

    fn syntax(&self) -> (r: &SyntaxNode) {
        match self {
            PropName::ComputedPropertyName(it) => it.syntax(),
            PropName::Literal(it) => it.syntax(),
            PropName::Ident(it) => it.syntax(),
            PropName::Name(it) => it.syntax(),
            PropName::JsUnknownBinding(it) => it.syntax(),
        }
    }
}

/// Any of the node types that may stand in a `ConstructorParamOrPat` slot.
#[derive(Debug, Clone, PartialEq, Eq, Hash)]
pub enum ConstructorParamOrPat {
    TsConstructorParam(TsConstructorParam),
    Pattern(Pattern),
}

impl AstNode for ConstructorParamOrPat {
    open spec fn spec_can_cast(kind: SyntaxKind) -> bool {
        ||| TsConstructorParam::spec_can_cast(kind)
        ||| Pattern::spec_can_cast(kind)
    }

    open spec fn spec_node(&self) -> SyntaxNodeV {
        match self {
            ConstructorParamOrPat::TsConstructorParam(it) => it.spec_node(),
            ConstructorParamOrPat::Pattern(it) => it.spec_node(),
        }
    }

    fn can_cast(kind: SyntaxKind) -> (r: bool) {
        TsConstructorParam::can_cast(kind) || Pattern::can_cast(kind)
    }

    fn cast(syntax: SyntaxNode) -> (r: Option<Self>) {
        if TsConstructorParam::can_cast(syntax.kind) {
            Some(ConstructorParamOrPat::TsConstructorParam(TsConstructorParam { syntax }))
        } else if Pattern::can_cast(syntax.kind) {
            match Pattern::cast(syntax) {
                Some(it) => Some(ConstructorParamOrPat::Pattern(it)),
                None => None,
            }
        } else {
            None
        }
    }

    fn syntax(&self) -> (r: &SyntaxNode) {
        match self {
            ConstructorParamOrPat::TsConstructorParam(it) => it.syntax(),
            ConstructorParamOrPat::Pattern(it) => it.syntax(),
        }
    }
}

/// Any of the node types that may stand in a `ExprOrSpread` slot.
#[derive(Debug, Clone, PartialEq, Eq, Hash)]
pub enum ExprOrSpread {
    Expr(Expr),
    SpreadElement(SpreadElement),
    GroupingExpr(GroupingExpr),
}

impl AstNode for ExprOrSpread {
    open spec fn spec_can_cast(kind: SyntaxKind) -> bool {
        ||| Expr::spec_can_cast(kind)
        ||| SpreadElement::spec_can_cast(kind)
        ||| GroupingExpr::spec_can_cast(kind)
    }

    open spec fn spec_node(&self) -> SyntaxNodeV {
        match self {
            ExprOrSpread::Expr(it) => it.spec_node(),
            ExprOrSpread::SpreadElement(it) => it.spec_node(),
            ExprOrSpread::GroupingExpr(it) => it.spec_node(),
        }
    }

    fn can_cast(kind: SyntaxKind) -> (r: bool) {
        Expr::can_cast(kind) || SpreadElement::can_cast(kind) || GroupingExpr::can_cast(kind)
    }

    fn cast(syntax: SyntaxNode) -> (r: Option<Self>) {
        if SpreadElement::can_cast(syntax.kind) {
            Some(ExprOrSpread::SpreadElement(SpreadElement { syntax }))
        } else if GroupingExpr::can_cast(syntax.kind) {
            Some(ExprOrSpread::GroupingExpr(GroupingExpr { syntax }))
        } else if Expr::can_cast(syntax.kind) {
            match Expr::cast(syntax) {
                Some(it) => Some(ExprOrSpread::Expr(it)),
                None => None,
            }
        } else {
            None
        }
    }

    fn syntax(&self) -> (r: &SyntaxNode) {
        match self {
            ExprOrSpread::Expr(it) => it.syntax(),
            ExprOrSpread::SpreadElement(it) => it.syntax(),
            ExprOrSpread::GroupingExpr(it) => it.syntax(),
        }
    }
}

/// Any of the node types that may stand in a `PatternOrExpr` slot.
#[derive(Debug, Clone, PartialEq, Eq, Hash)]
pub enum PatternOrExpr {
    Pattern(Pattern),
    Expr(Expr),
}

impl AstNode for PatternOrExpr {
    open spec fn spec_can_cast(kind: SyntaxKind) -> bool {
        ||| Pattern::spec_can_cast(kind)
        ||| Expr::spec_can_cast(kind)
    }

    open spec fn spec_node(&self) -> SyntaxNodeV {
        match self {
            PatternOrExpr::Pattern(it) => it.spec_node(),
            PatternOrExpr::Expr(it) => it.spec_node(),
        }
    }

    fn can_cast(kind: SyntaxKind) -> (r: bool) {
        Pattern::can_cast(kind) || Expr::can_cast(kind)
    }

    fn cast(syntax: SyntaxNode) -> (r: Option<Self>) {
        if Pattern::can_cast(syntax.kind) {
            match Pattern::cast(syntax) {
                Some(it) => Some(PatternOrExpr::Pattern(it)),
                None => None,
            }
        } else if Expr::can_cast(syntax.kind) {
            match Expr::cast(syntax) {
                Some(it) => Some(PatternOrExpr::Expr(it)),
                None => None,
            }
        } else {
            None
        }
    }

    fn syntax(&self) -> (r: &SyntaxNode) {
        match self {
            PatternOrExpr::Pattern(it) => it.syntax(),
            PatternOrExpr::Expr(it) => it.syntax(),
        }
    }
}

/// Any of the node types that may stand in a `ObjectPatternProp` slot.
#[derive(Debug, Clone, PartialEq, Eq, Hash)]
pub enum ObjectPatternProp {
    AssignPattern(AssignPattern),
    KeyValuePattern(KeyValuePattern),
    RestPattern(RestPattern),
    SinglePattern(SinglePattern),
    JsUnknownPattern(JsUnknownPattern),
}

impl AstNode for ObjectPatternProp {
    open spec fn spec_can_cast(kind: SyntaxKind) -> bool {
        ||| AssignPattern::spec_can_cast(kind)
        ||| KeyValuePattern::spec_can_cast(kind)
        ||| RestPattern::spec_can_cast(kind)
        ||| SinglePattern::spec_can_cast(kind)
        ||| JsUnknownPattern::spec_can_cast(kind)
    }

    open spec fn spec_node(&self) -> SyntaxNodeV {
        match self {
            ObjectPatternProp::AssignPattern(it) => it.spec_node(),
            ObjectPatternProp::KeyValuePattern(it) => it.spec_node(),
            ObjectPatternProp::RestPattern(it) => it.spec_node(),
            ObjectPatternProp::SinglePattern(it) => it.spec_node(),
            ObjectPatternProp::JsUnknownPattern(it) => it.spec_node(),
        }
    }

    fn can_cast(kind: SyntaxKind) -> (r: bool) {
        AssignPattern::can_cast(kind) || KeyValuePattern::can_cast(kind) || RestPattern::can_cast(kind) || SinglePattern::can_cast(kind) || JsUnknownPattern::can_cast(kind)
    }

    fn cast(syntax: SyntaxNode) -> (r: Option<Self>) {
        if AssignPattern::can_cast(syntax.kind) {
            Some(ObjectPatternProp::AssignPattern(AssignPattern { syntax }))
        } else if KeyValuePattern::can_cast(syntax.kind) {
            Some(ObjectPatternProp::KeyValuePattern(KeyValuePattern { syntax }))
        } else if RestPattern::can_cast(syntax.kind) {
            Some(ObjectPatternProp::RestPattern(RestPattern { syntax }))
        } else if SinglePattern::can_cast(syntax.kind) {
            Some(ObjectPatternProp::SinglePattern(SinglePattern { syntax }))
        } else if JsUnknownPattern::can_cast(syntax.kind) {
            Some(ObjectPatternProp::JsUnknownPattern(JsUnknownPattern { syntax }))
        } else {
            None
        }
    }

    fn syntax(&self) -> (r: &SyntaxNode) {
        match self {
            ObjectPatternProp::AssignPattern(it) => it.syntax(),
            ObjectPatternProp::KeyValuePattern(it) => it.syntax(),
            ObjectPatternProp::RestPattern(it) => it.syntax(),
            ObjectPatternProp::SinglePattern(it) => it.syntax(),
            ObjectPatternProp::JsUnknownPattern(it) => it.syntax(),
        }
    }
}

/// Any of the node types that may stand in a `ImportClause` slot.
#[derive(Debug, Clone, PartialEq, Eq, Hash)]
pub enum ImportClause {
    WildcardImport(WildcardImport),
    NamedImports(NamedImports),
    Name(Name),
    ImportStringSpecifier(ImportStringSpecifier),
}

impl AstNode for ImportClause {
    open spec fn spec_can_cast(kind: SyntaxKind) -> bool {
        ||| WildcardImport::spec_can_cast(kind)
        ||| NamedImports::spec_can_cast(kind)
        ||| Name::spec_can_cast(kind)
        ||| ImportStringSpecifier::spec_can_cast(kind)
    }

    open spec fn spec_node(&self) -> SyntaxNodeV {
        match self {
            ImportClause::WildcardImport(it) => it.spec_node(),
            ImportClause::NamedImports(it) => it.spec_node(),
            ImportClause::Name(it) => it.spec_node(),
            ImportClause::ImportStringSpecifier(it) => it.spec_node(),
        }
    }

    fn can_cast(kind: SyntaxKind) -> (r: bool) {
        WildcardImport::can_cast(kind) || NamedImports::can_cast(kind) || Name::can_cast(kind) || ImportStringSpecifier::can_cast(kind)
    }

    fn cast(syntax: SyntaxNode) -> (r: Option<Self>) {
        if WildcardImport::can_cast(syntax.kind) {
            Some(ImportClause::WildcardImport(WildcardImport { syntax }))
        } else if NamedImports::can_cast(syntax.kind) {
            Some(ImportClause::NamedImports(NamedImports { syntax }))
        } else if Name::can_cast(syntax.kind) {
            Some(ImportClause::Name(Name { syntax }))
        } else if ImportStringSpecifier::can_cast(syntax.kind) {
            Some(ImportClause::ImportStringSpecifier(ImportStringSpecifier { syntax }))
        } else {
            None
        }
    }

    fn syntax(&self) -> (r: &SyntaxNode) {
        match self {
            ImportClause::WildcardImport(it) => it.syntax(),
            ImportClause::NamedImports(it) => it.syntax(),
            ImportClause::Name(it) => it.syntax(),
            ImportClause::ImportStringSpecifier(it) => it.syntax(),
        }
    }
}

/// Any of the node types that may stand in a `DefaultDecl` slot.
#[derive(Debug, Clone, PartialEq, Eq, Hash)]
pub enum DefaultDecl {
    FnDecl(FnDecl),
    ClassDecl(ClassDecl),
}

impl AstNode for DefaultDecl {
    open spec fn spec_can_cast(kind: SyntaxKind) -> bool {
        ||| FnDecl::spec_can_cast(kind)
        ||| ClassDecl::spec_can_cast(kind)
    }

    open spec fn spec_node(&self) -> SyntaxNodeV {
        match self {
            DefaultDecl::FnDecl(it) => it.spec_node(),
            DefaultDecl::ClassDecl(it) => it.spec_node(),
        }
    }

    fn can_cast(kind: SyntaxKind) -> (r: bool) {
        FnDecl::can_cast(kind) || ClassDecl::can_cast(kind)
    }

    fn cast(syntax: SyntaxNode) -> (r: Option<Self>) {
        if FnDecl::can_cast(syntax.kind) {
            Some(DefaultDecl::FnDecl(FnDecl { syntax }))
        } else if ClassDecl::can_cast(syntax.kind) {
            Some(DefaultDecl::ClassDecl(ClassDecl { syntax }))
        } else {
            None
        }
    }

    fn syntax(&self) -> (r: &SyntaxNode) {
        match self {
            DefaultDecl::FnDecl(it) => it.syntax(),
            DefaultDecl::ClassDecl(it) => it.syntax(),
        }
    }
}

/// Any of the node types that may stand in a `TsModuleRef` slot.
#[derive(Debug, Clone, PartialEq, Eq, Hash)]
pub enum TsModuleRef {
    TsExternalModuleRef(TsExternalModuleRef),
    TsEntityName(TsEntityName),
}

impl AstNode for TsModuleRef {
    open spec fn spec_can_cast(kind: SyntaxKind) -> bool {
        ||| TsExternalModuleRef::spec_can_cast(kind)
        ||| TsEntityName::spec_can_cast(kind)
    }

    open spec fn spec_node(&self) -> SyntaxNodeV {
        match self {
            TsModuleRef::TsExternalModuleRef(it) => it.spec_node(),
            TsModuleRef::TsEntityName(it) => it.spec_node(),
        }
    }

    fn can_cast(kind: SyntaxKind) -> (r: bool) {
        TsExternalModuleRef::can_cast(kind) || TsEntityName::can_cast(kind)
    }

    fn cast(syntax: SyntaxNode) -> (r: Option<Self>) {
        if TsExternalModuleRef::can_cast(syntax.kind) {
            Some(TsModuleRef::TsExternalModuleRef(TsExternalModuleRef { syntax }))
        } else if TsEntityName::can_cast(syntax.kind) {
            match TsEntityName::cast(syntax) {
                Some(it) => Some(TsModuleRef::TsEntityName(it)),
                None => None,
            }
        } else {
            None
        }
    }

    fn syntax(&self) -> (r: &SyntaxNode) {
        match self {
            TsModuleRef::TsExternalModuleRef(it) => it.syntax(),
            TsModuleRef::TsEntityName(it) => it.syntax(),
        }
    }
}

/// Any of the node types that may stand in a `TsEntityName` slot.
#[derive(Debug, Clone, PartialEq, Eq, Hash)]
pub enum TsEntityName {
    TsTypeName(TsTypeName),
    TsQualifiedPath(TsQualifiedPath),
}

impl AstNode for TsEntityName {
    open spec fn spec_can_cast(kind: SyntaxKind) -> bool {
        ||| TsTypeName::spec_can_cast(kind)
        ||| TsQualifiedPath::spec_can_cast(kind)
    }

    open spec fn spec_node(&self) -> SyntaxNodeV {
        match self {
            TsEntityName::TsTypeName(it) => it.spec_node(),
            TsEntityName::TsQualifiedPath(it) => it.spec_node(),
        }
    }

    fn can_cast(kind: SyntaxKind) -> (r: bool) {
        TsTypeName::can_cast(kind) || TsQualifiedPath::can_cast(kind)
    }

    fn cast(syntax: SyntaxNode) -> (r: Option<Self>) {
        if TsTypeName::can_cast(syntax.kind) {
            Some(TsEntityName::TsTypeName(TsTypeName { syntax }))
        } else if TsQualifiedPath::can_cast(syntax.kind) {
            Some(TsEntityName::TsQualifiedPath(TsQualifiedPath { syntax }))
        } else {
            None
        }
    }

    fn syntax(&self) -> (r: &SyntaxNode) {
        match self {
            TsEntityName::TsTypeName(it) => it.syntax(),
            TsEntityName::TsQualifiedPath(it) => it.syntax(),
        }
    }
}

/// Any of the node types that may stand in a `TsThisOrMore` slot.
#[derive(Debug, Clone, PartialEq, Eq, Hash)]
pub enum TsThisOrMore {
    TsThis(TsThis),
    TsTypeName(TsTypeName),
}

impl AstNode for TsThisOrMore {
    open spec fn spec_can_cast(kind: SyntaxKind) -> bool {
        ||| TsThis::spec_can_cast(kind)
        ||| TsTypeName::spec_can_cast(kind)
    }

    open spec fn spec_node(&self) -> SyntaxNodeV {
        match self {
            TsThisOrMore::TsThis(it) => it.spec_node(),
            TsThisOrMore::TsTypeName(it) => it.spec_node(),
        }
    }

    fn can_cast(kind: SyntaxKind) -> (r: bool) {
        TsThis::can_cast(kind) || TsTypeName::can_cast(kind)
    }

    fn cast(syntax: SyntaxNode) -> (r: Option<Self>) {
        if TsThis::can_cast(syntax.kind) {
            Some(TsThisOrMore::TsThis(TsThis { syntax }))
        } else if TsTypeName::can_cast(syntax.kind) {
            Some(TsThisOrMore::TsTypeName(TsTypeName { syntax }))
        } else {
            None
        }
    }

    fn syntax(&self) -> (r: &SyntaxNode) {
        match self {
            TsThisOrMore::TsThis(it) => it.syntax(),
            TsThisOrMore::TsTypeName(it) => it.syntax(),
        }
    }
}

/// Any of the node types that may stand in a `TsTypeElement` slot.
#[derive(Debug, Clone, PartialEq, Eq, Hash)]
pub enum TsTypeElement {
    TsCallSignatureDecl(TsCallSignatureDecl),
    TsConstructSignatureDecl(TsConstructSignatureDecl),
    TsPropertySignature(TsPropertySignature),
    TsMethodSignature(TsMethodSignature),
    TsIndexSignature(TsIndexSignature),
}

impl AstNode for TsTypeElement {
    open spec fn spec_can_cast(kind: SyntaxKind) -> bool {
        ||| TsCallSignatureDecl::spec_can_cast(kind)
        ||| TsConstructSignatureDecl::spec_can_cast(kind)
        ||| TsPropertySignature::spec_can_cast(kind)
        ||| TsMethodSignature::spec_can_cast(kind)
        ||| TsIndexSignature::spec_can_cast(kind)
    }

    open spec fn spec_node(&self) -> SyntaxNodeV {
        match self {
            TsTypeElement::TsCallSignatureDecl(it) => it.spec_node(),
            TsTypeElement::TsConstructSignatureDecl(it) => it.spec_node(),
            TsTypeElement::TsPropertySignature(it) => it.spec_node(),
            TsTypeElement::TsMethodSignature(it) => it.spec_node(),
            TsTypeElement::TsIndexSignature(it) => it.spec_node(),
        }
    }

    fn can_cast(kind: SyntaxKind) -> (r: bool) {
        TsCallSignatureDecl::can_cast(kind) || TsConstructSignatureDecl::can_cast(kind) || TsPropertySignature::can_cast(kind) || TsMethodSignature::can_cast(kind) || TsIndexSignature::can_cast(kind)
    }

    fn cast(syntax: SyntaxNode) -> (r: Option<Self>) {
        if TsCallSignatureDecl::can_cast(syntax.kind) {
            Some(TsTypeElement::TsCallSignatureDecl(TsCallSignatureDecl { syntax }))
        } else if TsConstructSignatureDecl::can_cast(syntax.kind) {
            Some(TsTypeElement::TsConstructSignatureDecl(TsConstructSignatureDecl { syntax }))
        } else if TsPropertySignature::can_cast(syntax.kind) {
            Some(TsTypeElement::TsPropertySignature(TsPropertySignature { syntax }))
        } else if TsMethodSignature::can_cast(syntax.kind) {
            Some(TsTypeElement::TsMethodSignature(TsMethodSignature { syntax }))
        } else if TsIndexSignature::can_cast(syntax.kind) {
            Some(TsTypeElement::TsIndexSignature(TsIndexSignature { syntax }))
        } else {
            None
        }
    }

    fn syntax(&self) -> (r: &SyntaxNode) {
        match self {
            TsTypeElement::TsCallSignatureDecl(it) => it.syntax(),
            TsTypeElement::TsConstructSignatureDecl(it) => it.syntax(),
            TsTypeElement::TsPropertySignature(it) => it.syntax(),
            TsTypeElement::TsMethodSignature(it) => it.syntax(),
            TsTypeElement::TsIndexSignature(it) => it.syntax(),
        }
    }
}

/// Any of the node types that may stand in a `TsNamespaceBody` slot.
#[derive(Debug, Clone, PartialEq, Eq, Hash)]
pub enum TsNamespaceBody {
    TsModuleBlock(TsModuleBlock),
    TsNamespaceDecl(TsNamespaceDecl),
}

impl AstNode for TsNamespaceBody {
    open spec fn spec_can_cast(kind: SyntaxKind) -> bool {
        ||| TsModuleBlock::spec_can_cast(kind)
        ||| TsNamespaceDecl::spec_can_cast(kind)
    }

    open spec fn spec_node(&self) -> SyntaxNodeV {
        match self {
            TsNamespaceBody::TsModuleBlock(it) => it.spec_node(),
            TsNamespaceBody::TsNamespaceDecl(it) => it.spec_node(),
        }
    }

    fn can_cast(kind: SyntaxKind) -> (r: bool) {
        TsModuleBlock::can_cast(kind) || TsNamespaceDecl::can_cast(kind)
    }

    fn cast(syntax: SyntaxNode) -> (r: Option<Self>) {
        if TsModuleBlock::can_cast(syntax.kind) {
            Some(TsNamespaceBody::TsModuleBlock(TsModuleBlock { syntax }))
        } else if TsNamespaceDecl::can_cast(syntax.kind) {
            Some(TsNamespaceBody::TsNamespaceDecl(TsNamespaceDecl { syntax }))
        } else {
            None
        }
    }

    fn syntax(&self) -> (r: &SyntaxNode) {
        match self {
            TsNamespaceBody::TsModuleBlock(it) => it.syntax(),
            TsNamespaceBody::TsNamespaceDecl(it) => it.syntax(),
        }
    }
}

} // verus!
