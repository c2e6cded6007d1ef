//! Lookups over a node's children, shared by every typed accessor.
//!
//! A typed node (`ast_*` modules) wraps an untyped [`SyntaxNode`] and reads
//! its parts through the functions here: the first token of a kind, the
//! first child node that a given type accepts, or the list of all such
//! children.  Each lookup has a spec twin over the ghost tree, and the
//! accessor contracts are stated through the `*_ens` predicates so that a
//! caller learns exactly which child came back.

use vstd::prelude::*;

use crate::syntax::{
    elem_view, elems_view, lemma_elems_view, SyntaxElement, SyntaxElementV, SyntaxError,
    SyntaxKind, SyntaxNode, SyntaxNodeV, SyntaxResult, SyntaxToken, SyntaxTokenV,
};

verus! {

/// A list of typed child nodes, in tree order.
pub type AstNodeList<T> = Vec<T>;

/// A list of typed child nodes whose separators stay in the tree.
pub type AstSeparatedList<T> = Vec<T>;

/// All children of a node, nodes and tokens alike.
pub type SyntaxElementChildren = Vec<SyntaxElement>;

/// A typed view of an untyped node: the kinds it accepts and the wrapped
/// node itself.
pub trait AstNode: Sized {
    /// Whether a node of kind `kind` can be wrapped by `Self`.
    spec fn spec_can_cast(kind: SyntaxKind) -> bool;

    /// The ghost tree wrapped by this value.
    spec fn spec_node(&self) -> SyntaxNodeV;

    fn can_cast(kind: SyntaxKind) -> (r: bool)
        ensures
            r == Self::spec_can_cast(kind),
    ;

    fn cast(syntax: SyntaxNode) -> (r: Option<Self>)
        ensures
            r is Some <==> Self::spec_can_cast(syntax@.kind),
            r is Some ==> r->0.spec_node() == syntax@,
    ;

    fn syntax(&self) -> (r: &SyntaxNode)
        ensures
            r@ == self.spec_node(),
    ;
}

/// Whether `e` is a node child that `T` accepts.
pub open spec fn is_castable<T: AstNode>(e: SyntaxElementV) -> bool {
    e matches SyntaxElementV::Node(n) && T::spec_can_cast(n.kind)
}

/// The first child node that `T` accepts, if any.
pub open spec fn first_castable<T: AstNode>(s: Seq<SyntaxElementV>) -> Option<SyntaxNodeV>
    decreases s,
{
    if s.len() == 0 {
        None
    } else if is_castable::<T>(s[0]) {
        Some(s[0]->Node_0)
    } else {
        first_castable::<T>(s.drop_first())
    }
}

/// Whether `e` is a token child of kind `kind`.
pub open spec fn is_token_of(e: SyntaxElementV, kind: SyntaxKind) -> bool {
    e matches SyntaxElementV::Token(t) && t.kind == kind
}

/// The first token child of kind `kind`, if any.
pub open spec fn first_token_of(s: Seq<SyntaxElementV>, kind: SyntaxKind) -> Option<SyntaxTokenV>
    decreases s,
{
    if s.len() == 0 {
        None
    } else if is_token_of(s[0], kind) {
        Some(s[0]->Token_0)
    } else {
        first_token_of(s.drop_first(), kind)
    }
}

/// Whether `e` is a token child of any kind.
pub open spec fn is_any_token(e: SyntaxElementV) -> bool {
    e is Token
}

/// The first token child of any kind, if any.
pub open spec fn first_any_token(s: Seq<SyntaxElementV>) -> Option<SyntaxTokenV>
    decreases s,
{
    if s.len() == 0 {
        None
    } else if is_any_token(s[0]) {
        Some(s[0]->Token_0)
    } else {
        first_any_token(s.drop_first())
    }
}

/// Whether `e` is a token child whose kind occurs in `kinds`.
pub open spec fn is_token_in(e: SyntaxElementV, kinds: Seq<SyntaxKind>) -> bool {
    e matches SyntaxElementV::Token(t) && kinds.contains(t.kind)
}

/// The first token child whose kind occurs in `kinds`, if any.
pub open spec fn first_token_in(s: Seq<SyntaxElementV>, kinds: Seq<SyntaxKind>) -> Option<
    SyntaxTokenV,
>
    decreases s,
{
    if s.len() == 0 {
        None
    } else if is_token_in(s[0], kinds) {
        Some(s[0]->Token_0)
    } else {
        first_token_in(s.drop_first(), kinds)
    }
}

/// All child nodes that `T` accepts, in order.
pub open spec fn castable_children<T: AstNode>(s: Seq<SyntaxElementV>) -> Seq<SyntaxNodeV>
    decreases s,
{
    if s.len() == 0 {
        Seq::empty()
    } else if is_castable::<T>(s[0]) {
        seq![s[0]->Node_0] + castable_children::<T>(s.drop_first())
    } else {
        castable_children::<T>(s.drop_first())
    }
}

/// What a mandatory token accessor returns: the first token of the kind,
/// or `MissingToken` exactly when the node has none.
pub open spec fn mandatory_token_ens(
    n: SyntaxNodeV,
    kind: SyntaxKind,
    r: SyntaxResult<SyntaxToken>,
) -> bool {
    &&& r is Ok <==> first_token_of(n.children, kind) is Some
    &&& r is Ok ==> r->Ok_0@ == first_token_of(n.children, kind)->0
    &&& r is Err ==> r->Err_0 == SyntaxError::MissingToken
}

/// What an optional token accessor returns.
pub open spec fn optional_token_ens(
    n: SyntaxNodeV,
    kind: SyntaxKind,
    r: Option<SyntaxToken>,
) -> bool {
    &&& r is Some <==> first_token_of(n.children, kind) is Some
    &&& r is Some ==> r->0@ == first_token_of(n.children, kind)->0
}

/// What a mandatory node accessor returns: the first child that `T`
/// accepts, or `MissingToken` exactly when the node has none.
pub open spec fn mandatory_node_ens<T: AstNode>(n: SyntaxNodeV, r: SyntaxResult<T>) -> bool {
    &&& r is Ok <==> first_castable::<T>(n.children) is Some
    &&& r is Ok ==> r->Ok_0.spec_node() == first_castable::<T>(n.children)->0
    &&& r is Err ==> r->Err_0 == SyntaxError::MissingToken
}

/// What an optional node accessor returns.
pub open spec fn optional_node_ens<T: AstNode>(n: SyntaxNodeV, r: Option<T>) -> bool {
    &&& r is Some <==> first_castable::<T>(n.children) is Some
    &&& r is Some ==> r->0.spec_node() == first_castable::<T>(n.children)->0
}

/// What a node-list accessor returns: every child that `T` accepts, in
/// tree order.
pub open spec fn node_list_ens<T: AstNode>(n: SyntaxNodeV, r: Seq<T>) -> bool {
    r.map_values(|t: T| t.spec_node()) == castable_children::<T>(n.children)
}

/// What a token search over several kinds returns.
pub open spec fn find_token_ens(
    n: SyntaxNodeV,
    kinds: Seq<SyntaxKind>,
    r: Option<SyntaxToken>,
) -> bool {
    &&& r is Some <==> first_token_in(n.children, kinds) is Some
    &&& r is Some ==> r->0@ == first_token_in(n.children, kinds)->0
}

proof fn lemma_first_castable_at<T: AstNode>(s: Seq<SyntaxElementV>, i: int)
    requires
        0 <= i < s.len(),
        forall|j: int| 0 <= j < i ==> !is_castable::<T>(#[trigger] s[j]),
        is_castable::<T>(s[i]),
    ensures
        first_castable::<T>(s) == Some(s[i]->Node_0),
    decreases i,
{
    if i > 0 {
        lemma_first_castable_at::<T>(s.drop_first(), i - 1);
    }
}

proof fn lemma_first_castable_none<T: AstNode>(s: Seq<SyntaxElementV>)
    requires
        forall|j: int| 0 <= j < s.len() ==> !is_castable::<T>(#[trigger] s[j]),
    ensures
        first_castable::<T>(s) is None,
    decreases s,
{
    if s.len() > 0 {
        lemma_first_castable_none::<T>(s.drop_first());
    }
}

proof fn lemma_first_token_of_at(s: Seq<SyntaxElementV>, kind: SyntaxKind, i: int)
    requires
        0 <= i < s.len(),
        forall|j: int| 0 <= j < i ==> !is_token_of(#[trigger] s[j], kind),
        is_token_of(s[i], kind),
    ensures
        first_token_of(s, kind) == Some(s[i]->Token_0),
    decreases i,
{
    if i > 0 {
        lemma_first_token_of_at(s.drop_first(), kind, i - 1);
    }
}

proof fn lemma_first_token_of_none(s: Seq<SyntaxElementV>, kind: SyntaxKind)
    requires
        forall|j: int| 0 <= j < s.len() ==> !is_token_of(#[trigger] s[j], kind),
    ensures
        first_token_of(s, kind) is None,
    decreases s,
{
    if s.len() > 0 {
        lemma_first_token_of_none(s.drop_first(), kind);
    }
}

proof fn lemma_first_token_in_at(s: Seq<SyntaxElementV>, kinds: Seq<SyntaxKind>, i: int)
    requires
        0 <= i < s.len(),
        forall|j: int| 0 <= j < i ==> !is_token_in(#[trigger] s[j], kinds),
        is_token_in(s[i], kinds),
    ensures
        first_token_in(s, kinds) == Some(s[i]->Token_0),
    decreases i,
{
    if i > 0 {
        lemma_first_token_in_at(s.drop_first(), kinds, i - 1);
    }
}

proof fn lemma_first_token_in_none(s: Seq<SyntaxElementV>, kinds: Seq<SyntaxKind>)
    requires
        forall|j: int| 0 <= j < s.len() ==> !is_token_in(#[trigger] s[j], kinds),
    ensures
        first_token_in(s, kinds) is None,
    decreases s,
{
    if s.len() > 0 {
        lemma_first_token_in_none(s.drop_first(), kinds);
    }
}

/// `castable_children` of a prefix grows by one element exactly at the
/// castable positions.
proof fn lemma_castable_children_snoc<T: AstNode>(s: Seq<SyntaxElementV>, i: int)
    requires
        0 <= i < s.len(),
    ensures
        castable_children::<T>(s.take(i + 1)) == if is_castable::<T>(s[i]) {
            castable_children::<T>(s.take(i)) + seq![s[i]->Node_0]
        } else {
            castable_children::<T>(s.take(i))
        },
    decreases i,
{
    let a = s.take(i + 1);
    let b = s.take(i);
    if i == 0 {
        assert(b =~= Seq::empty());
        assert(castable_children::<T>(b) == Seq::<SyntaxNodeV>::empty());
        assert(a.drop_first() =~= Seq::empty());
        assert(castable_children::<T>(a.drop_first()) == Seq::<SyntaxNodeV>::empty());
        assert(a[0] == s[0]);
        if is_castable::<T>(s[0]) {
            assert(castable_children::<T>(a) =~= castable_children::<T>(b) + seq![s[0]->Node_0]);
        }
    } else {
        assert(a.drop_first() =~= s.drop_first().take(i));
        assert(b.drop_first() =~= s.drop_first().take(i - 1));
        lemma_castable_children_snoc::<T>(s.drop_first(), i - 1);
        if is_castable::<T>(s[0]) {
            assert(castable_children::<T>(a) == seq![s[0]->Node_0] + castable_children::<T>(
                s.drop_first().take(i),
            ));
        }
    }
}

/// Looks up the first token child of kind `kind`; `MissingToken` when the
/// node has none.
pub fn as_mandatory_token(syntax: &SyntaxNode, kind: SyntaxKind) -> (r: SyntaxResult<SyntaxToken>)
    ensures
        mandatory_token_ens(syntax@, kind, r),
{
    match as_optional_token(syntax, kind) {
        Some(t) => Ok(t),
        None => Err(SyntaxError::MissingToken),
    }
}

/// Looks up the first token child of kind `kind`.
pub fn as_optional_token(syntax: &SyntaxNode, kind: SyntaxKind) -> (r: Option<SyntaxToken>)
    ensures
        optional_token_ens(syntax@, kind, r),
{
    let ghost cs = syntax@.children;
    proof {
        lemma_elems_view(syntax.children@);
    }
    let mut i: usize = 0;
    while i < syntax.children.len()
        invariant
            i <= syntax.children.len(),
            cs == elems_view(syntax.children@),
            cs.len() == syntax.children@.len(),
            forall|j: int| 0 <= j < cs.len() ==> cs[j] == elem_view(syntax.children@[j]),
            forall|j: int| 0 <= j < i ==> !is_token_of(#[trigger] cs[j], kind),
        decreases syntax.children.len() - i,
    {
        match &syntax.children[i] {
            SyntaxElement::Token(t) => {
                if t.kind == kind {
                    proof {
                        lemma_first_token_of_at(cs, kind, i as int);
                    }
                    return Some(crate::syntax::clone_token(t));
                }
            },
            SyntaxElement::Node(_) => {},
        }
        i = i + 1;
    }
    proof {
        lemma_first_token_of_none(cs, kind);
    }
    None
}

/// Looks up the first child node that `T` accepts; `MissingToken` when the
/// node has none.
pub fn as_mandatory_node<T: AstNode>(syntax: &SyntaxNode) -> (r: SyntaxResult<T>)
    ensures
        mandatory_node_ens::<T>(syntax@, r),
{
    match as_optional_node::<T>(syntax) {
        Some(t) => Ok(t),
        None => Err(SyntaxError::MissingToken),
    }
}

/// Looks up the first child node that `T` accepts.
pub fn as_optional_node<T: AstNode>(syntax: &SyntaxNode) -> (r: Option<T>)
    ensures
        optional_node_ens::<T>(syntax@, r),
{
    let ghost cs = syntax@.children;
    proof {
        lemma_elems_view(syntax.children@);
    }
    let mut i: usize = 0;
    while i < syntax.children.len()
        invariant
            i <= syntax.children.len(),
            cs == elems_view(syntax.children@),
            cs.len() == syntax.children@.len(),
            forall|j: int| 0 <= j < cs.len() ==> cs[j] == elem_view(syntax.children@[j]),
            forall|j: int| 0 <= j < i ==> !is_castable::<T>(#[trigger] cs[j]),
        decreases syntax.children.len() - i,
    {
        match &syntax.children[i] {
            SyntaxElement::Node(n) => {
                if T::can_cast(n.kind) {
                    let t = T::cast(n.clone());
                    proof {
                        lemma_first_castable_at::<T>(cs, i as int);
                    }
                    return t;
                }
            },
            SyntaxElement::Token(_) => {},
        }
        i = i + 1;
    }
    proof {
        lemma_first_castable_none::<T>(cs);
    }
    None
}

/// Collects every child node that `T` accepts, in tree order.
pub fn node_list<T: AstNode>(syntax: &SyntaxNode) -> (r: AstNodeList<T>)
    ensures
        node_list_ens::<T>(syntax@, r@),
{
    let ghost cs = syntax@.children;
    proof {
        lemma_elems_view(syntax.children@);
    }
    let mut out: Vec<T> = Vec::new();
    let mut i: usize = 0;
    while i < syntax.children.len()
        invariant
            i <= syntax.children.len(),
            cs == elems_view(syntax.children@),
            cs.len() == syntax.children@.len(),
            forall|j: int| 0 <= j < cs.len() ==> cs[j] == elem_view(syntax.children@[j]),
            out@.map_values(|t: T| t.spec_node()) == castable_children::<T>(cs.take(i as int)),
        decreases syntax.children.len() - i,
    {
        let ghost prev = out@;
        match &syntax.children[i] {
            SyntaxElement::Node(n) => {
                if T::can_cast(n.kind) {
                    match T::cast(n.clone()) {
                        Some(t) => {
                            out.push(t);
                        },
                        None => {},
                    }
                }
            },
            SyntaxElement::Token(_) => {},
        }
        proof {
            lemma_castable_children_snoc::<T>(cs, i as int);
            if is_castable::<T>(cs[i as int]) {
                assert(out@ == prev + seq![out@[prev.len() as int]]);
                assert(out@.map_values(|t: T| t.spec_node()) =~= prev.map_values(
                    |t: T| t.spec_node(),
                ) + seq![out@[prev.len() as int].spec_node()]);
            } else {
                assert(out@ == prev);
            }
        }
        i = i + 1;
    }
    proof {
        assert(cs.take(cs.len() as int) =~= cs);
    }
    out
}

/// Collects every child node that `T` accepts; separators are not part of
/// the typed list.
pub fn separated_list<T: AstNode>(syntax: &SyntaxNode) -> (r: AstSeparatedList<T>)
    ensures
        node_list_ens::<T>(syntax@, r@),
{
    node_list::<T>(syntax)
}

/// Clones the full child list of a node.
pub fn elements(syntax: &SyntaxNode) -> (r: SyntaxElementChildren)
    ensures
        elems_view(r@) == syntax@.children,
{
    let mut out: Vec<SyntaxElement> = Vec::new();
    let mut i: usize = 0;
    while i < syntax.children.len()
        invariant
            i <= syntax.children.len(),
            out@.len() == i,
            forall|j: int|
                0 <= j < i ==> elem_view(#[trigger] out@[j]) == elem_view(syntax.children@[j]),
        decreases syntax.children.len() - i,
    {
        out.push(syntax.children[i].clone());
        i = i + 1;
    }
    proof {
        lemma_elems_view(out@);
        lemma_elems_view(syntax.children@);
        assert(elems_view(out@) =~= elems_view(syntax.children@));
    }
    out
}

proof fn lemma_first_any_token_at(s: Seq<SyntaxElementV>, i: int)
    requires
        0 <= i < s.len(),
        forall|j: int| 0 <= j < i ==> !is_any_token(#[trigger] s[j]),
        is_any_token(s[i]),
    ensures
        first_any_token(s) == Some(s[i]->Token_0),
    decreases i,
{
    if i > 0 {
        lemma_first_any_token_at(s.drop_first(), i - 1);
    }
}

proof fn lemma_first_any_token_none(s: Seq<SyntaxElementV>)
    requires
        forall|j: int| 0 <= j < s.len() ==> !is_any_token(#[trigger] s[j]),
    ensures
        first_any_token(s) is None,
    decreases s,
{
    if s.len() > 0 {
        lemma_first_any_token_none(s.drop_first());
    }
}

/// Looks up the first token child of any kind.
pub fn as_first_token(syntax: &SyntaxNode) -> (r: Option<SyntaxToken>)
    ensures
        r is Some <==> first_any_token(syntax@.children) is Some,
        r is Some ==> r->0@ == first_any_token(syntax@.children)->0,
{
    let ghost cs = syntax@.children;
    proof {
        lemma_elems_view(syntax.children@);
    }
    let mut i: usize = 0;
    while i < syntax.children.len()
        invariant
            i <= syntax.children.len(),
            cs == elems_view(syntax.children@),
            cs.len() == syntax.children@.len(),
            forall|j: int| 0 <= j < cs.len() ==> cs[j] == elem_view(syntax.children@[j]),
            forall|j: int| 0 <= j < i ==> !is_any_token(#[trigger] cs[j]),
        decreases syntax.children.len() - i,
    {
        match &syntax.children[i] {
            SyntaxElement::Token(t) => {
                proof {
                    lemma_first_any_token_at(cs, i as int);
                }
                return Some(crate::syntax::clone_token(t));
            },
            SyntaxElement::Node(_) => {},
        }
        i = i + 1;
    }
    proof {
        lemma_first_any_token_none(cs);
    }
    None
}

/// Whether `kinds` contains `kind`.
fn kind_in(kinds: &[SyntaxKind], kind: SyntaxKind) -> (r: bool)
    ensures
        r == kinds@.contains(kind),
{
    let mut i: usize = 0;
    while i < kinds.len()
        invariant
            i <= kinds@.len(),
            forall|j: int| 0 <= j < i ==> kinds@[j] != kind,
        decreases kinds@.len() - i,
    {
        if kinds[i] == kind {
            return true;
        }
        i = i + 1;
    }
    false
}

/// Looks up the first token child whose kind occurs in `kinds`.
pub fn find_token(syntax: &SyntaxNode, kinds: &[SyntaxKind]) -> (r: Option<SyntaxToken>)
    ensures
        find_token_ens(syntax@, kinds@, r),
{
    let ghost cs = syntax@.children;
    proof {
        lemma_elems_view(syntax.children@);
    }
    let mut i: usize = 0;
    while i < syntax.children.len()
        invariant
            i <= syntax.children.len(),
            cs == elems_view(syntax.children@),
            cs.len() == syntax.children@.len(),
            forall|j: int| 0 <= j < cs.len() ==> cs[j] == elem_view(syntax.children@[j]),
            forall|j: int| 0 <= j < i ==> !is_token_in(#[trigger] cs[j], kinds@),
        decreases syntax.children.len() - i,
    {
        match &syntax.children[i] {
            SyntaxElement::Token(t) => {
                if kind_in(kinds, t.kind) {
                    proof {
                        lemma_first_token_in_at(cs, kinds@, i as int);
                    }
                    return Some(crate::syntax::clone_token(t));
                }
            },
            SyntaxElement::Node(_) => {},
        }
        i = i + 1;
    }
    proof {
        lemma_first_token_in_none(cs, kinds@);
    }
    None
}

} // verus!
