//! The intermediate document language that layout consumes.
//!
//! A document is a tree of layout primitives.  Tokens are verbatim text;
//! line seams render as nothing, a space, or a newline depending on whether
//! the enclosing group is laid out flat or broken; groups are the atomic
//! decision points between those two renderings.  The constructors here are
//! the only way the lowering rules build documents; none of them evaluates
//! layout.
//!
//! The ghost mirror [`DocV`] is reached through `View`, and every
//! constructor states the exact document it returns.

use vstd::prelude::*;

verus! {

/// How a line seam renders: `Soft` is nothing when flat, `SoftSpace` is a
/// space when flat, and `Hard` always breaks and forces its group broken.
#[derive(Debug, Clone, Copy, PartialEq, Eq, Hash, Structural)]
pub enum LineMode {
    Soft,
    SoftSpace,
    Hard,
}

/// One layout primitive.  `Group` carries an optional stable id that an
/// `IfBreak` may reference; an id-less group can only be referenced as the
/// nearest enclosing group.
#[derive(Debug, PartialEq, Eq, Hash)]
pub enum FormatElement {
    Empty,
    Token(String),
    Space,
    Line(LineMode),
    Concat(Vec<FormatElement>),
    Indent(Box<FormatElement>),
    Dedent(Box<FormatElement>),
    Align(u32, Box<FormatElement>),
    Group(Option<u64>, Box<FormatElement>),
    IfBreak(Box<FormatElement>, Box<FormatElement>, Option<u64>),
    LineSuffix(Box<FormatElement>),
    Fill(Vec<FormatElement>),
    Label(String, Box<FormatElement>),
}

/// Ghost mirror of [`FormatElement`].
pub enum DocV {
    Empty,
    Token(Seq<char>),
    Space,
    Line(LineMode),
    Concat(Seq<DocV>),
    Indent(Box<DocV>),
    Dedent(Box<DocV>),
    Align(u32, Box<DocV>),
    Group(Option<u64>, Box<DocV>),
    IfBreak(Box<DocV>, Box<DocV>, Option<u64>),
    LineSuffix(Box<DocV>),
    Fill(Seq<DocV>),
    Label(Seq<char>, Box<DocV>),
}

pub open spec fn doc_view(e: FormatElement) -> DocV
    decreases e,
{
    match e {
        FormatElement::Empty => DocV::Empty,
        FormatElement::Token(s) => DocV::Token(s@),
        FormatElement::Space => DocV::Space,
        FormatElement::Line(m) => DocV::Line(m),
        FormatElement::Concat(items) => DocV::Concat(docs_view(items@)),
        FormatElement::Indent(b) => DocV::Indent(Box::new(doc_view(*b))),
        FormatElement::Dedent(b) => DocV::Dedent(Box::new(doc_view(*b))),
        FormatElement::Align(n, b) => DocV::Align(n, Box::new(doc_view(*b))),
        FormatElement::Group(id, b) => DocV::Group(id, Box::new(doc_view(*b))),
        FormatElement::IfBreak(f, br, id) => DocV::IfBreak(
            Box::new(doc_view(*f)),
            Box::new(doc_view(*br)),
            id,
        ),
        FormatElement::LineSuffix(b) => DocV::LineSuffix(Box::new(doc_view(*b))),
        FormatElement::Fill(items) => DocV::Fill(docs_view(items@)),
        FormatElement::Label(s, b) => DocV::Label(s@, Box::new(doc_view(*b))),
    }
}

pub open spec fn docs_view(s: Seq<FormatElement>) -> Seq<DocV>
    decreases s,
{
    if s.len() == 0 {
        Seq::empty()
    } else {
        seq![doc_view(s[0])] + docs_view(s.drop_first())
    }
}

impl View for FormatElement {
    type V = DocV;

    open spec fn view(&self) -> DocV {
        doc_view(*self)
    }
}

/// `docs_view` maps `doc_view` pointwise.
pub proof fn lemma_docs_view(s: Seq<FormatElement>)
    ensures
        docs_view(s).len() == s.len(),
        forall|i: int| 0 <= i < s.len() ==> docs_view(s)[i] == doc_view(s[i]),
    decreases s,
{
    if s.len() > 0 {
        lemma_docs_view(s.drop_first());
    }
}

impl Clone for FormatElement {
    fn clone(&self) -> (r: Self)
        ensures
            r@ == self@,
        decreases *self,
    {
        match self {
            FormatElement::Empty => FormatElement::Empty,
            FormatElement::Token(s) => FormatElement::Token(s.clone()),
            FormatElement::Space => FormatElement::Space,
            FormatElement::Line(m) => FormatElement::Line(*m),
            FormatElement::Concat(items) => FormatElement::Concat(clone_elements(items)),
            FormatElement::Indent(b) => FormatElement::Indent(Box::new((**b).clone())),
            FormatElement::Dedent(b) => FormatElement::Dedent(Box::new((**b).clone())),
            FormatElement::Align(n, b) => FormatElement::Align(*n, Box::new((**b).clone())),
            FormatElement::Group(id, b) => FormatElement::Group(*id, Box::new((**b).clone())),
            FormatElement::IfBreak(f, br, id) => FormatElement::IfBreak(
                Box::new((**f).clone()),
                Box::new((**br).clone()),
                *id,
            ),
            FormatElement::LineSuffix(b) => FormatElement::LineSuffix(Box::new((**b).clone())),
            FormatElement::Fill(items) => FormatElement::Fill(clone_elements(items)),
            FormatElement::Label(s, b) => FormatElement::Label(
                s.clone(),
                Box::new((**b).clone()),
            ),
        }
    }
}

/// Clones a list of elements; the views are kept exactly.
pub fn clone_elements(items: &Vec<FormatElement>) -> (r: Vec<FormatElement>)
    ensures
        docs_view(r@) == docs_view(items@),
    decreases items@,
{
    let mut out: Vec<FormatElement> = Vec::new();
    let mut i: usize = 0;
    while i < items.len()
        invariant
            i <= items.len(),
            out@.len() == i,
            forall|j: int| 0 <= j < i ==> doc_view(#[trigger] out@[j]) == doc_view(items@[j]),
        decreases items.len() - i,
    {
        out.push(items[i].clone());
        i = i + 1;
    }
    proof {
        lemma_docs_view(out@);
        lemma_docs_view(items@);
        assert(docs_view(out@) =~= docs_view(items@));
    }
    out
}

/// The document that contributes nothing.
pub fn empty_element() -> (r: FormatElement)
    ensures
        r@ == DocV::Empty,
{
    FormatElement::Empty
}

/// A verbatim unit of output text.
pub fn token(text: &str) -> (r: FormatElement)
    ensures
        r@ == DocV::Token(text@),
{
    FormatElement::Token(text.to_owned())
}

/// A verbatim unit of output text, from an owned string.
pub fn token_string(text: String) -> (r: FormatElement)
    ensures
        r@ == DocV::Token(text@),
{
    FormatElement::Token(text)
}

/// A single mandatory space.
pub fn space_token() -> (r: FormatElement)
    ensures
        r@ == DocV::Space,
{
    FormatElement::Space
}

/// A seam that renders as nothing when flat.
pub fn soft_line_break() -> (r: FormatElement)
    ensures
        r@ == DocV::Line(LineMode::Soft),
{
    FormatElement::Line(LineMode::Soft)
}

/// A seam that renders as a space when flat.
pub fn soft_line_break_or_space() -> (r: FormatElement)
    ensures
        r@ == DocV::Line(LineMode::SoftSpace),
{
    FormatElement::Line(LineMode::SoftSpace)
}

/// A seam that always breaks and forces its group broken.
pub fn hard_line_break() -> (r: FormatElement)
    ensures
        r@ == DocV::Line(LineMode::Hard),
{
    FormatElement::Line(LineMode::Hard)
}

/// The ordered concatenation of `items`.
pub fn concat_elements(items: Vec<FormatElement>) -> (r: FormatElement)
    ensures
        r@ == DocV::Concat(docs_view(items@)),
{
    FormatElement::Concat(items)
}

/// Raises the indent by one level within `content`.
pub fn indent(content: FormatElement) -> (r: FormatElement)
    ensures
        r@ == DocV::Indent(Box::new(content@)),
{
    FormatElement::Indent(Box::new(content))
}

/// Lowers the indent by one level within `content`; layout clamps at zero.
pub fn dedent(content: FormatElement) -> (r: FormatElement)
    ensures
        r@ == DocV::Dedent(Box::new(content@)),
{
    FormatElement::Dedent(Box::new(content))
}

/// Raises the indent by `columns` columns within `content`.
pub fn align(columns: u32, content: FormatElement) -> (r: FormatElement)
    ensures
        r@ == DocV::Align(columns, Box::new(content@)),
{
    FormatElement::Align(columns, Box::new(content))
}

/// An atomic layout decision point without a stable id.
pub fn group_elements(content: FormatElement) -> (r: FormatElement)
    ensures
        r@ == DocV::Group(None, Box::new(content@)),
{
    FormatElement::Group(None, Box::new(content))
}

/// An atomic layout decision point whose decision an `IfBreak` may
/// reference by `id`.
pub fn group_elements_with_id(id: u64, content: FormatElement) -> (r: FormatElement)
    ensures
        r@ == DocV::Group(Some(id), Box::new(content@)),
{
    FormatElement::Group(Some(id), Box::new(content))
}

/// Renders `broken` when the nearest enclosing group broke, else `flat`.
pub fn if_break(flat: FormatElement, broken: FormatElement) -> (r: FormatElement)
    ensures
        r@ == DocV::IfBreak(Box::new(flat@), Box::new(broken@), None),
{
    FormatElement::IfBreak(Box::new(flat), Box::new(broken), None)
}

/// Renders `broken` when the group with id `id` broke, else `flat`.
pub fn if_group_with_id_breaks(flat: FormatElement, broken: FormatElement, id: u64) -> (r:
    FormatElement)
    ensures
        r@ == DocV::IfBreak(Box::new(flat@), Box::new(broken@), Some(id)),
{
    FormatElement::IfBreak(Box::new(flat), Box::new(broken), Some(id))
}

/// Queues `content` to the end of the current output line.
pub fn line_suffix(content: FormatElement) -> (r: FormatElement)
    ensures
        r@ == DocV::LineSuffix(Box::new(content@)),
{
    FormatElement::LineSuffix(Box::new(content))
}

/// A list laid out by packing as many items on each line as fit.
pub fn fill_elements(items: Vec<FormatElement>) -> (r: FormatElement)
    ensures
        r@ == DocV::Fill(docs_view(items@)),
{
    FormatElement::Fill(items)
}

/// A tag that layout passes through unchanged.
pub fn label(name: &str, content: FormatElement) -> (r: FormatElement)
    ensures
        r@ == DocV::Label(name@, Box::new(content@)),
{
    FormatElement::Label(name.to_owned(), Box::new(content))
}

/// Whether a text may stand in a token leaf: it holds no raw newline.
pub open spec fn clean_text(s: Seq<char>) -> bool {
    !s.contains('\n') && !s.contains('\r')
}

/// The structural invariants of a document: no token leaf holds a raw
/// newline (embedded newlines are expressed by seams), and every soft
/// seam lies inside an enclosing group or fill.  `inside` says whether
/// such an ancestor already exists above `d`.
pub open spec fn doc_invariants(d: DocV, inside: bool) -> bool
    decreases d,
{
    match d {
        DocV::Empty => true,
        DocV::Token(s) => clean_text(s),
        DocV::Space => true,
        DocV::Line(m) => m == LineMode::Hard || inside,
        DocV::Concat(items) => docs_invariants(items, inside),
        DocV::Indent(b) => doc_invariants(*b, inside),
        DocV::Dedent(b) => doc_invariants(*b, inside),
        DocV::Align(_, b) => doc_invariants(*b, inside),
        DocV::Group(_, b) => doc_invariants(*b, true),
        DocV::IfBreak(f, br, _) => doc_invariants(*f, inside) && doc_invariants(*br, inside),
        DocV::LineSuffix(b) => doc_invariants(*b, inside),
        DocV::Fill(items) => docs_invariants(items, true),
        DocV::Label(s, b) => clean_text(s) && doc_invariants(*b, inside),
    }
}

pub open spec fn docs_invariants(s: Seq<DocV>, inside: bool) -> bool
    decreases s,
{
    if s.len() == 0 {
        true
    } else {
        doc_invariants(s[0], inside) && docs_invariants(s.drop_first(), inside)
    }
}

/// A document that meets the invariants outside any group still meets
/// them inside one: `inside` only weakens the demand on soft seams.
pub proof fn lemma_inv_weaken(d: DocV)
    requires
        doc_invariants(d, false),
    ensures
        doc_invariants(d, true),
    decreases d,
{
    match d {
        DocV::Concat(items) => lemma_inv_list_weaken(items),
        DocV::Indent(b) => lemma_inv_weaken(*b),
        DocV::Dedent(b) => lemma_inv_weaken(*b),
        DocV::Align(_, b) => lemma_inv_weaken(*b),
        DocV::IfBreak(f, br, _) => {
            lemma_inv_weaken(*f);
            lemma_inv_weaken(*br);
        },
        DocV::LineSuffix(b) => lemma_inv_weaken(*b),
        DocV::Label(_, b) => lemma_inv_weaken(*b),
        _ => {},
    }
}

pub proof fn lemma_inv_list_weaken(s: Seq<DocV>)
    requires
        docs_invariants(s, false),
    ensures
        docs_invariants(s, true),
    decreases s,
{
    if s.len() > 0 {
        lemma_inv_weaken(s[0]);
        lemma_inv_list_weaken(s.drop_first());
    }
}

/// The invariants distribute over concatenation of lists.
pub proof fn lemma_inv_concat(a: Seq<DocV>, b: Seq<DocV>, inside: bool)
    ensures
        docs_invariants(a + b, inside) == (docs_invariants(a, inside) && docs_invariants(
            b,
            inside,
        )),
    decreases a,
{
    if a.len() == 0 {
        assert(a + b =~= b);
    } else {
        lemma_inv_concat(a.drop_first(), b, inside);
        assert((a + b).drop_first() =~= a.drop_first() + b);
        assert((a + b)[0] == a[0]);
    }
}

/// A concatenation of texts is clean exactly when both halves are.
pub proof fn lemma_clean_concat(a: Seq<char>, b: Seq<char>)
    ensures
        clean_text(a + b) == (clean_text(a) && clean_text(b)),
{
    if (a + b).contains('\n') {
        let i = choose|i: int| 0 <= i < (a + b).len() && (a + b)[i] == '\n';
        if i < a.len() {
            assert(a[i] == '\n');
        } else {
            assert(b[i - a.len()] == '\n');
        }
    }
    if (a + b).contains('\r') {
        let i = choose|i: int| 0 <= i < (a + b).len() && (a + b)[i] == '\r';
        if i < a.len() {
            assert(a[i] == '\r');
        } else {
            assert(b[i - a.len()] == '\r');
        }
    }
    if a.contains('\n') {
        let i = choose|i: int| 0 <= i < a.len() && a[i] == '\n';
        assert((a + b)[i] == '\n');
    }
    if a.contains('\r') {
        let i = choose|i: int| 0 <= i < a.len() && a[i] == '\r';
        assert((a + b)[i] == '\r');
    }
    if b.contains('\n') {
        let i = choose|i: int| 0 <= i < b.len() && b[i] == '\n';
        assert((a + b)[a.len() + i] == '\n');
    }
    if b.contains('\r') {
        let i = choose|i: int| 0 <= i < b.len() && b[i] == '\r';
        assert((a + b)[a.len() + i] == '\r');
    }
}

/// A single character other than a newline is a clean text.
pub proof fn lemma_clean_singleton(c: char)
    requires
        c != '\n',
        c != '\r',
    ensures
        clean_text(seq![c]),
{
    if seq![c].contains('\n') {
        let i = choose|i: int| 0 <= i < 1 && seq![c][i] == '\n';
        assert(seq![c][i] == c);
    }
    if seq![c].contains('\r') {
        let i = choose|i: int| 0 <= i < 1 && seq![c][i] == '\r';
        assert(seq![c][i] == c);
    }
}

/// The view of `join_elements`: `items` with `sep` between neighbours.
pub open spec fn join_view(sep: DocV, items: Seq<DocV>) -> Seq<DocV>
    decreases items,
{
    if items.len() == 0 {
        Seq::empty()
    } else if items.len() == 1 {
        seq![items[0]]
    } else {
        seq![items[0], sep] + join_view(sep, items.drop_first())
    }
}

/// Appending to a list appends its view.
pub proof fn lemma_docs_view_push(s: Seq<FormatElement>, e: FormatElement)
    ensures
        docs_view(s.push(e)) == docs_view(s) + seq![doc_view(e)],
    decreases s,
{
    if s.len() == 0 {
        assert(s =~= Seq::empty());
        assert(s.push(e).drop_first() =~= Seq::empty());
        assert(docs_view(s.push(e)) =~= docs_view(s) + seq![doc_view(e)]);
    } else {
        lemma_docs_view_push(s.drop_first(), e);
        assert(s.push(e).drop_first() =~= s.drop_first().push(e));
        assert(s.push(e)[0] == s[0]);
        assert(docs_view(s.push(e)) =~= docs_view(s) + seq![doc_view(e)]);
    }
}

proof fn lemma_join_view_snoc(sep: DocV, s: Seq<DocV>, i: int)
    requires
        1 <= i < s.len(),
    ensures
        join_view(sep, s.take(i + 1)) == join_view(sep, s.take(i)) + seq![sep, s[i]],
    decreases i,
{
    let a = s.take(i + 1);
    let b = s.take(i);
    if i == 1 {
        assert(b =~= seq![s[0]]);
        assert(a.drop_first() =~= seq![s[1]]);
        assert(join_view(sep, a.drop_first()) == seq![s[1]]);
        assert(join_view(sep, a) =~= join_view(sep, b) + seq![sep, s[i]]);
    } else {
        lemma_join_view_snoc(sep, s.drop_first(), i - 1);
        assert(a.drop_first() =~= s.drop_first().take(i));
        assert(b.drop_first() =~= s.drop_first().take(i - 1));
        assert(s.drop_first()[i - 1] == s[i]);
        assert(join_view(sep, a) =~= join_view(sep, b) + seq![sep, s[i]]);
    }
}

/// Concatenates `items` with a clone of `separator` between neighbours.
pub fn join_elements(separator: FormatElement, items: Vec<FormatElement>) -> (r: FormatElement)
    ensures
        r@ == DocV::Concat(join_view(separator@, docs_view(items@))),
{
    let ghost ivs = docs_view(items@);
    proof {
        lemma_docs_view(items@);
    }
    let mut out: Vec<FormatElement> = Vec::new();
    let mut i: usize = 0;
    while i < items.len()
        invariant
            i <= items.len(),
            ivs == docs_view(items@),
            ivs.len() == items@.len(),
            forall|j: int| 0 <= j < ivs.len() ==> ivs[j] == doc_view(items@[j]),
            docs_view(out@) == join_view(doc_view(separator), ivs.take(i as int)),
        decreases items.len() - i,
    {
        if i > 0 {
            let sep2 = separator.clone();
            let ghost g = out@;
            out.push(sep2);
            proof {
                lemma_docs_view_push(g, sep2);
            }
        }
        let item2 = items[i].clone();
        let ghost g2 = out@;
        out.push(item2);
        proof {
            lemma_docs_view_push(g2, item2);
            if i == 0 {
                assert(ivs.take(1int) =~= seq![ivs[0]]);
                assert(join_view(doc_view(separator), ivs.take(1int)) == seq![ivs[0]]);
                assert(docs_view(out@) =~= seq![ivs[0]]);
            } else {
                lemma_join_view_snoc(doc_view(separator), ivs, i as int);
                assert(docs_view(out@) =~= join_view(doc_view(separator), ivs.take(i as int))
                    + seq![doc_view(separator), ivs[i as int]]);
            }
        }
        i = i + 1;
    }
    proof {
        assert(ivs.take(ivs.len() as int) =~= ivs);
    }
    FormatElement::Concat(out)
}

/// The canonical delimiter pattern: `open`, then `body` behind a soft seam
/// and one level of indent, then a soft seam and `close`, all in one group.
pub fn soft_break_block(
    open: FormatElement,
    body: FormatElement,
    close: FormatElement,
) -> (r: FormatElement)
    ensures
        r@ == DocV::Group(
            None,
            Box::new(
                DocV::Concat(
                    seq![
                        open@,
                        DocV::Indent(
                            Box::new(DocV::Concat(seq![DocV::Line(LineMode::Soft), body@])),
                        ),
                        DocV::Line(LineMode::Soft),
                        close@,
                    ],
                ),
            ),
        ),
{
    let ghost openv = open@;
    let ghost bodyv = body@;
    let ghost closev = close@;
    let ghost innerdoc = DocV::Concat(seq![DocV::Line(LineMode::Soft), bodyv]);
    let mut inner: Vec<FormatElement> = Vec::new();
    inner.push(FormatElement::Line(LineMode::Soft));
    inner.push(body);
    proof {
        lemma_docs_view(inner@);
        assert(docs_view(inner@) =~= seq![DocV::Line(LineMode::Soft), bodyv]);
    }
    let concat_inner = FormatElement::Concat(inner);
    proof {
        assert(concat_inner@ == innerdoc);
    }
    let indented = FormatElement::Indent(Box::new(concat_inner));
    proof {
        assert(indented@ == DocV::Indent(Box::new(innerdoc)));
    }
    let ghost indentedv = indented@;
    let mut outer: Vec<FormatElement> = Vec::new();
    outer.push(open);
    outer.push(indented);
    outer.push(FormatElement::Line(LineMode::Soft));
    outer.push(close);
    proof {
        lemma_docs_view(outer@);
        assert(docs_view(outer@) =~= seq![openv, indentedv, DocV::Line(LineMode::Soft), closev]);
    }
    let concat_outer = FormatElement::Concat(outer);
    proof {
        assert(concat_outer@ == DocV::Concat(
            seq![openv, indentedv, DocV::Line(LineMode::Soft), closev],
        ));
    }
    FormatElement::Group(None, Box::new(concat_outer))
}

} // verus!
