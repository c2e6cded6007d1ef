//! The untyped syntax tree that the formatter consumes.
//!
//! A tree is a plain value: a node carries a [`SyntaxKind`] and an ordered
//! list of children, each child being a nested node or a token.  Tokens carry
//! their verbatim text together with the leading and trailing trivia
//! (comments and blank lines) that stood next to them in the source.
//!
//! Each recursive type has a ghost mirror (`SyntaxNodeV`, `SyntaxElementV`)
//! built over `Seq`, reached through `View`; the contracts of the crate speak
//! about those mirrors, so that two trees are interchangeable exactly when
//! their views agree.

use vstd::prelude::*;

verus! {

/// The kind of a node or of a token.  Node kinds and token kinds share one
/// namespace, as the tree does not distinguish where a kind may appear.
#[derive(Debug, Clone, Copy, PartialEq, Eq, Hash, Structural)]
pub enum SyntaxKind {
    JsUnknownStatement,
    JsUnknownExpression,
    JsUnknownPattern,
    JsUnknownMember,
    JsUnknownBinding,
    JsUnknownAssignmentTarget,
    Ident,
    Script,
    Module,
    BlockStmt,
    EmptyStmt,
    ExprStmt,
    IfStmt,
    DoWhileStmt,
    WhileStmt,
    ForStmt,
    ForInStmt,
    ForOfStmt,
    ContinueStmt,
    BreakStmt,
    ReturnStmt,
    WithStmt,
    LabelledStmt,
    SwitchStmt,
    ThrowStmt,
    TryStmt,
    DebuggerStmt,
    Condition,
    ForStmtInit,
    ForStmtTest,
    ForStmtUpdate,
    VarDecl,
    NameRef,
    Name,
    CaseClause,
    DefaultClause,
    CatchClause,
    Finalizer,
    ArrowExpr,
    Literal,
    Template,
    ThisExpr,
    ArrayExpr,
    ObjectExpr,
    GroupingExpr,
    BracketExpr,
    DotExpr,
    NewExpr,
    CallExpr,
    UnaryExpr,
    PreUpdateExpression,
    PostUpdateExpression,
    BinExpr,
    CondExpr,
    AssignExpr,
    SequenceExpr,
    FnExpr,
    ClassExpr,
    NewTarget,
    ImportMeta,
    SuperCall,
    ImportCall,
    YieldExpr,
    AwaitExpr,
    PrivatePropAccess,
    TsNonNull,
    TsAssertion,
    TsConstAssertion,
    TsTypeArgs,
    ArgList,
    TsTypeParams,
    ParameterList,
    TsExprWithTypeArgs,
    ClassBody,
    Method,
    PrivateProp,
    ClassProp,
    Constructor,
    TsIndexSignature,
    Getter,
    Setter,
    TsAccessibility,
    ConstructorParameters,
    TsConstructorParam,
    SpreadElement,
    Null,
    Undefined,
    SinglePattern,
    RestPattern,
    AssignPattern,
    ObjectPattern,
    ArrayPattern,
    ExprPattern,
    KeyValuePattern,
    LiteralProp,
    SpreadProp,
    InitializedProp,
    IdentProp,
    ComputedPropertyName,
    PrivateName,
    FnDecl,
    ClassDecl,
    TsEnum,
    TsTypeAliasDecl,
    TsNamespaceDecl,
    TsModuleDecl,
    TsInterfaceDecl,
    Declarator,
    ImportDecl,
    ExportNamed,
    ExportDefaultDecl,
    ExportDefaultExpr,
    ExportWildcard,
    ExportDecl,
    TsImportEqualsDecl,
    TsExportAssignment,
    TsNamespaceExportDecl,
    WildcardImport,
    NamedImports,
    ImportStringSpecifier,
    Specifier,
    TsExternalModuleRef,
    TsAny,
    TsUnknown,
    TsNumber,
    TsObject,
    TsBoolean,
    TsBigint,
    TsString,
    TsSymbol,
    TsVoid,
    TsUndefined,
    TsNull,
    TsNever,
    TsThis,
    TsLiteral,
    TsPredicate,
    TsTuple,
    TsParen,
    TsTypeRef,
    TsTemplate,
    TsMappedType,
    TsImport,
    TsArray,
    TsIndexedArray,
    TsTypeOperator,
    TsIntersection,
    TsUnion,
    TsFnType,
    TsConstructorType,
    TsConditionalType,
    TsObjectType,
    TsInfer,
    TsTupleElement,
    TsEnumMember,
    TsTemplateElement,
    TsMappedTypeReadonly,
    TsMappedTypeParam,
    TsTypeName,
    TsExtends,
    TsModuleBlock,
    TsTypeParam,
    TsConstraint,
    TsDefault,
    TsCallSignatureDecl,
    TsConstructSignatureDecl,
    TsPropertySignature,
    TsMethodSignature,
    TsQualifiedPath,
    AbstractKw,
    Amp,
    AmpAmp,
    AmpAmpEq,
    AmpEq,
    AnyKw,
    AsKw,
    AssertKw,
    Assign,
    AsyncKw,
    AwaitKw,
    Backtick,
    Bang,
    BigIntLit,
    BreakKw,
    Caret,
    CaretEq,
    CaseKw,
    CatchKw,
    ClassKw,
    Colon,
    Comma,
    ConstKw,
    ContinueKw,
    DebuggerKw,
    DeclareKw,
    DefaultKw,
    DeleteKw,
    DoKw,
    Dot,
    DotDotDot,
    ElseKw,
    EnumKw,
    EqEq,
    EqEqEq,
    ExportKw,
    ExtendsKw,
    FalseKw,
    FatArrow,
    FinallyKw,
    FloatLit,
    ForKw,
    FromKw,
    FunctionKw,
    GetKw,
    GlobalKw,
    GtEq,
    HashSign,
    IfKw,
    ImplementsKw,
    ImportKw,
    InKw,
    InferKw,
    InstanceofKw,
    InterfaceKw,
    LAngle,
    LBrack,
    LCurly,
    LParen,
    LtEq,
    Minus,
    MinusEq,
    MinusMinus,
    ModuleKw,
    NamespaceKw,
    Neq,
    NeqStrict,
    NeverKw,
    NewKw,
    NumberLit,
    OfKw,
    Percent,
    PercentEq,
    Pipe,
    PipeEq,
    PipePipe,
    PipePipeEq,
    Plus,
    PlusEq,
    PlusPlus,
    PrivateKw,
    QuestionMark,
    QuestionQuestion,
    QuestionQuestionEq,
    RAngle,
    RBrack,
    RCurly,
    RParen,
    ReadonlyKw,
    RegexLit,
    RequireKw,
    ReturnKw,
    Semicolon,
    SetKw,
    Shebang,
    Shl,
    ShlEq,
    Shr,
    ShrEq,
    Slash,
    Star,
    StarEq,
    StarStar,
    StarStarEq,
    StaticKw,
    StringLit,
    SuperKw,
    SwitchKw,
    TargetKw,
    ThisKw,
    ThrowKw,
    Tilde,
    TrueKw,
    TryKw,
    TypeKw,
    TypeofKw,
    UShr,
    UShrEq,
    UnknownKw,
    VarKw,
    VoidKw,
    WhileKw,
    WithKw,
    YieldKw,
}

/// What a piece of trivia is: a comment in either style, or a blank line
/// that separated two statements in the source.
#[derive(Debug, Clone, Copy, PartialEq, Eq, Hash, Structural)]
pub enum TriviaKind {
    LineComment,
    BlockComment,
    Blank,
}

/// One piece of trivia attached to a token.  For comments, `text` holds the
/// comment verbatim, delimiters included; for a blank line it is empty.
#[derive(Debug, Clone, PartialEq, Eq, Hash)]
pub struct Trivia {
    pub kind: TriviaKind,
    pub text: String,
}

/// Ghost mirror of [`Trivia`].
pub struct TriviaV {
    pub kind: TriviaKind,
    pub text: Seq<char>,
}

impl View for Trivia {
    type V = TriviaV;

    open spec fn view(&self) -> TriviaV {
        TriviaV { kind: self.kind, text: self.text@ }
    }
}

/// A token of the source: a kind, its verbatim text, and the trivia that
/// lead and trail it.
#[derive(Debug, Clone, PartialEq, Eq, Hash)]
pub struct SyntaxToken {
    pub kind: SyntaxKind,
    pub text: String,
    pub leading: Vec<Trivia>,
    pub trailing: Vec<Trivia>,
}

/// Ghost mirror of [`SyntaxToken`].
pub struct SyntaxTokenV {
    pub kind: SyntaxKind,
    pub text: Seq<char>,
    pub leading: Seq<TriviaV>,
    pub trailing: Seq<TriviaV>,
}

pub open spec fn trivia_views(s: Seq<Trivia>) -> Seq<TriviaV> {
    s.map_values(|t: Trivia| t@)
}

impl View for SyntaxToken {
    type V = SyntaxTokenV;

    open spec fn view(&self) -> SyntaxTokenV {
        SyntaxTokenV {
            kind: self.kind,
            text: self.text@,
            leading: trivia_views(self.leading@),
            trailing: trivia_views(self.trailing@),
        }
    }
}

/// An interior node: a kind and the ordered children.
#[derive(Debug, PartialEq, Eq, Hash)]
pub struct SyntaxNode {
    pub kind: SyntaxKind,
    pub children: Vec<SyntaxElement>,
}

/// A child of a node: either a nested node or a token.
#[derive(Debug, PartialEq, Eq, Hash)]
pub enum SyntaxElement {
    Node(SyntaxNode),
    Token(SyntaxToken),
}

/// Ghost mirror of [`SyntaxNode`].
pub struct SyntaxNodeV {
    pub kind: SyntaxKind,
    pub children: Seq<SyntaxElementV>,
}

/// Ghost mirror of [`SyntaxElement`].
pub enum SyntaxElementV {
    Node(SyntaxNodeV),
    Token(SyntaxTokenV),
}

pub open spec fn node_view(n: SyntaxNode) -> SyntaxNodeV
    decreases n,
{
    SyntaxNodeV { kind: n.kind, children: elems_view(n.children@) }
}

pub open spec fn elems_view(s: Seq<SyntaxElement>) -> Seq<SyntaxElementV>
    decreases s,
{
    if s.len() == 0 {
        Seq::empty()
    } else {
        seq![elem_view(s[0])] + elems_view(s.drop_first())
    }
}

pub open spec fn elem_view(e: SyntaxElement) -> SyntaxElementV
    decreases e,
{
    match e {
        SyntaxElement::Node(n) => SyntaxElementV::Node(node_view(n)),
        SyntaxElement::Token(t) => SyntaxElementV::Token(t@),
    }
}

impl View for SyntaxNode {
    type V = SyntaxNodeV;

    open spec fn view(&self) -> SyntaxNodeV {
        node_view(*self)
    }
}

impl View for SyntaxElement {
    type V = SyntaxElementV;

    open spec fn view(&self) -> SyntaxElementV {
        elem_view(*self)
    }
}

/// `elems_view` maps the element view pointwise.
pub proof fn lemma_elems_view(s: Seq<SyntaxElement>)
    ensures
        elems_view(s).len() == s.len(),
        forall|i: int| 0 <= i < s.len() ==> elems_view(s)[i] == elem_view(s[i]),
    decreases s,
{
    if s.len() > 0 {
        lemma_elems_view(s.drop_first());
    }
}

impl Clone for SyntaxNode {
    fn clone(&self) -> (r: Self)
        ensures
            r@ == self@,
        decreases *self,
    {
        let mut out: Vec<SyntaxElement> = Vec::new();
        let mut i: usize = 0;
        while i < self.children.len()
            invariant
                i <= self.children.len(),
                out@.len() == i,
                forall|j: int|
                    0 <= j < i ==> elem_view(#[trigger] out@[j]) == elem_view(self.children@[j]),
            decreases self.children.len() - i,
        {
            out.push(self.children[i].clone());
            i = i + 1;
        }
        proof {
            lemma_elems_view(out@);
            lemma_elems_view(self.children@);
            assert(elems_view(out@) =~= elems_view(self.children@));
        }
        SyntaxNode { kind: self.kind, children: out }
    }
}

impl Clone for SyntaxElement {
    fn clone(&self) -> (r: Self)
        ensures
            r@ == self@,
        decreases *self,
    {
        match self {
            SyntaxElement::Node(n) => SyntaxElement::Node(n.clone()),
            SyntaxElement::Token(t) => SyntaxElement::Token(clone_token(t)),
        }
    }
}

/// Clones a token; the view is kept exactly.
pub fn clone_token(t: &SyntaxToken) -> (r: SyntaxToken)
    ensures
        r@ == t@,
{
    let mut leading: Vec<Trivia> = Vec::new();
    let mut i: usize = 0;
    while i < t.leading.len()
        invariant
            i <= t.leading.len(),
            leading@.len() == i,
            forall|j: int| 0 <= j < i ==> (#[trigger] leading@[j])@ == t.leading@[j]@,
        decreases t.leading.len() - i,
    {
        leading.push(Trivia { kind: t.leading[i].kind, text: t.leading[i].text.clone() });
        i = i + 1;
    }
    let mut trailing: Vec<Trivia> = Vec::new();
    let mut j: usize = 0;
    while j < t.trailing.len()
        invariant
            j <= t.trailing.len(),
            trailing@.len() == j,
            forall|i2: int| 0 <= i2 < j ==> (#[trigger] trailing@[i2])@ == t.trailing@[i2]@,
        decreases t.trailing.len() - j,
    {
        trailing.push(Trivia { kind: t.trailing[j].kind, text: t.trailing[j].text.clone() });
        j = j + 1;
    }
    let r = SyntaxToken { kind: t.kind, text: t.text.clone(), leading, trailing };
    proof {
        assert(trivia_views(r.leading@) =~= trivia_views(t.leading@));
        assert(trivia_views(r.trailing@) =~= trivia_views(t.trailing@));
    }
    r
}

/// Whether every piece of a trivia list holds a clean text.
pub open spec fn trivia_list_clean(ts: Seq<TriviaV>) -> bool {
    forall|i: int| 0 <= i < ts.len() ==> crate::format_element::clean_text(#[trigger] ts[i].text)
}

/// Whether a token's text and the texts of its trivia hold no raw
/// newline.
pub open spec fn token_clean(t: SyntaxTokenV) -> bool {
    &&& crate::format_element::clean_text(t.text)
    &&& trivia_list_clean(t.leading)
    &&& trivia_list_clean(t.trailing)
}

/// Whether every token and comment text in a tree holds no raw newline:
/// the input validity under which a lowered document has no token leaf
/// with an embedded newline.
pub open spec fn tree_clean(n: SyntaxNodeV) -> bool
    decreases n,
{
    elems_clean(n.children)
}

pub open spec fn elems_clean(s: Seq<SyntaxElementV>) -> bool
    decreases s,
{
    if s.len() == 0 {
        true
    } else {
        elem_clean(s[0]) && elems_clean(s.drop_first())
    }
}

pub open spec fn elem_clean(e: SyntaxElementV) -> bool
    decreases e,
{
    match e {
        SyntaxElementV::Node(m) => tree_clean(m),
        SyntaxElementV::Token(t) => token_clean(t),
    }
}

/// The error of a mandatory lookup that found nothing.
#[derive(Debug, Clone, Copy, PartialEq, Eq, Hash, Structural)]
pub enum SyntaxError {
    MissingToken,
}

/// The result of a mandatory child lookup.
pub type SyntaxResult<T> = Result<T, SyntaxError>;

} // verus!
