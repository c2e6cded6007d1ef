//! The layout engine: walks a document and emits text.
//!
//! For every group the engine decides once between the flat and the broken
//! rendering: a group is flat exactly when its whole flat rendering, started
//! at the current column, stays within the configured width and contains no
//! hard seam.  The decision never changes within the group's subtree.
//!
//! The entire emission is defined by the spec functions in this module
//! (`spec_print` and the `lay_*` family); the executable printer is proved
//! to return exactly that text.  Columns saturate at `u64::MAX`, far beyond
//! any configurable width, so saturation never influences a decision
//! against a real width.
//!
//! Three further rules shape the text: adjacent soft seams of one broken
//! group collapse into a single newline; pending line suffixes are flushed
//! before every newline and at the end; trailing spaces and tabs are
//! stripped before every newline, and the finished output either is empty
//! or ends in exactly one line ending.

use vstd::prelude::*;

use crate::format_element::{doc_view, docs_view, lemma_docs_view, DocV, FormatElement, LineMode};
use crate::options::{line_ending_chars, FormatOptions, IndentStyle, LineEnding};

verus! {

/// The mutable emission state: the text so far, the current column, and
/// the queued line-suffix text.
pub struct LayoutStateV {
    pub out: Seq<char>,
    pub pos: u64,
    pub suffix: Seq<char>,
}

/// Saturating conversion of a length to a column count.
pub open spec fn sat64(n: nat) -> u64 {
    if n <= u64::MAX {
        n as u64
    } else {
        u64::MAX
    }
}

/// Saturating column addition.
pub open spec fn sat_add64(a: u64, b: u64) -> u64 {
    sat64((a + b) as nat)
}

/// `n` copies of `c`.
pub open spec fn repeat_char(c: char, n: u64) -> Seq<char> {
    Seq::new(n as nat, |i: int| c)
}

/// The width of the flat rendering of `d`: `None` when the rendering
/// contains a hard seam, so that no group around `d` can be flat.
pub open spec fn flat_width(d: DocV) -> Option<u64>
    decreases d,
{
    match d {
        DocV::Empty => Some(0u64),
        DocV::Token(s) => Some(sat64(s.len())),
        DocV::Space => Some(1u64),
        DocV::Line(m) => match m {
            LineMode::Soft => Some(0u64),
            LineMode::SoftSpace => Some(1u64),
            LineMode::Hard => None,
        },
        DocV::Concat(items) => flat_width_list(items),
        DocV::Indent(b) => flat_width(*b),
        DocV::Dedent(b) => flat_width(*b),
        DocV::Align(_, b) => flat_width(*b),
        DocV::Group(_, b) => flat_width(*b),
        DocV::IfBreak(f, _, _) => flat_width(*f),
        DocV::LineSuffix(_) => Some(0u64),
        DocV::Fill(items) => flat_width_list(items),
        DocV::Label(_, b) => flat_width(*b),
    }
}

pub open spec fn flat_width_list(s: Seq<DocV>) -> Option<u64>
    decreases s,
{
    if s.len() == 0 {
        Some(0u64)
    } else {
        match (flat_width(s[0]), flat_width_list(s.drop_first())) {
            (Some(a), Some(b)) => Some(sat_add64(a, b)),
            _ => None,
        }
    }
}

/// Whether a flat rendering of width `w` fits when started at column `pos`.
pub open spec fn fits_at(w: Option<u64>, pos: u64, o: FormatOptions) -> bool {
    w matches Some(x) && pos + x <= o.print_width
}

/// The flat text of `d`, used for line-suffix content: seams render as in
/// flat mode, nested suffixes contribute nothing.
pub open spec fn flat_text(d: DocV) -> Seq<char>
    decreases d,
{
    match d {
        DocV::Empty => Seq::empty(),
        DocV::Token(s) => s,
        DocV::Space => seq![' '],
        DocV::Line(m) => match m {
            LineMode::Soft => Seq::empty(),
            LineMode::SoftSpace => seq![' '],
            LineMode::Hard => Seq::empty(),
        },
        DocV::Concat(items) => flat_text_list(items),
        DocV::Indent(b) => flat_text(*b),
        DocV::Dedent(b) => flat_text(*b),
        DocV::Align(_, b) => flat_text(*b),
        DocV::Group(_, b) => flat_text(*b),
        DocV::IfBreak(f, _, _) => flat_text(*f),
        DocV::LineSuffix(_) => Seq::empty(),
        DocV::Fill(items) => flat_text_list(items),
        DocV::Label(_, b) => flat_text(*b),
    }
}

pub open spec fn flat_text_list(s: Seq<DocV>) -> Seq<char>
    decreases s,
{
    if s.len() == 0 {
        Seq::empty()
    } else {
        flat_text(s[0]) + flat_text_list(s.drop_first())
    }
}

/// Whether `c` is horizontal whitespace.
pub open spec fn is_hws(c: char) -> bool {
    c == ' ' || c == '\t'
}

/// `s` without its trailing spaces and tabs.
pub open spec fn strip_hws(s: Seq<char>) -> Seq<char>
    decreases s.len(),
{
    if s.len() > 0 && is_hws(s.last()) {
        strip_hws(s.drop_last())
    } else {
        s
    }
}

/// Whether `c` is whitespace or part of a line ending.
pub open spec fn is_ws_or_nl(c: char) -> bool {
    c == ' ' || c == '\t' || c == '\n' || c == '\r'
}

/// `s` without its trailing whitespace and line endings.
pub open spec fn strip_ws_nl(s: Seq<char>) -> Seq<char>
    decreases s.len(),
{
    if s.len() > 0 && is_ws_or_nl(s.last()) {
        strip_ws_nl(s.drop_last())
    } else {
        s
    }
}

/// The characters that indent a line to column `ind`: tabs for whole
/// levels when the style is tabs, else spaces only.  Either way the column
/// after them counts as `ind`.
pub open spec fn indent_text(ind: u64, o: FormatOptions) -> Seq<char> {
    if o.indent_style == IndentStyle::Tabs && o.indent_width > 0 {
        repeat_char('\t', ind / (o.indent_width as u64)) + repeat_char(
            ' ',
            ind % (o.indent_width as u64),
        )
    } else {
        repeat_char(' ', ind)
    }
}

/// One newline: flush the suffix buffer, strip trailing horizontal
/// whitespace, end the line, and indent the next one to column `ind`.
/// When `collapse` holds and the line so far is empty, the seam collapses:
/// no new line ending is written (adjacent soft seams of one broken group
/// yield a single newline); the indentation is still replaced.
pub open spec fn emit_line(st: LayoutStateV, ind: u64, collapse: bool, o: FormatOptions)
    -> LayoutStateV {
    let flushed = strip_hws(st.out + st.suffix);
    let ended = if collapse && (flushed.len() == 0 || flushed.last() == '\n') {
        flushed
    } else {
        flushed + line_ending_chars(o.line_ending)
    };
    LayoutStateV { out: ended + indent_text(ind, o), pos: ind, suffix: Seq::empty() }
}

/// The decision recorded for the group `id`, innermost first.
pub open spec fn lookup_group(gs: Seq<(u64, bool)>, id: u64) -> Option<bool>
    decreases gs,
{
    if gs.len() == 0 {
        None
    } else if gs.last().0 == id {
        Some(gs.last().1)
    } else {
        lookup_group(gs.drop_last(), id)
    }
}

/// Emission of one document element.
///
/// `ind` is the indent column of fresh lines, `flat` the mode of the
/// nearest enclosing group, `gs` the decisions of the enclosing groups
/// that carry an id (`true` meaning broken).
pub open spec fn lay(
    d: DocV,
    ind: u64,
    flat: bool,
    gs: Seq<(u64, bool)>,
    st: LayoutStateV,
    o: FormatOptions,
) -> LayoutStateV
    decreases d,
{
    match d {
        DocV::Empty => st,
        DocV::Token(s) => LayoutStateV {
            out: st.out + s,
            pos: sat_add64(st.pos, sat64(s.len())),
            suffix: st.suffix,
        },
        DocV::Space => LayoutStateV {
            out: st.out + seq![' '],
            pos: sat_add64(st.pos, 1),
            suffix: st.suffix,
        },
        DocV::Line(m) => if flat && m == LineMode::Soft {
            st
        } else if flat && m == LineMode::SoftSpace {
            LayoutStateV { out: st.out + seq![' '], pos: sat_add64(st.pos, 1), suffix: st.suffix }
        } else {
            emit_line(st, ind, m != LineMode::Hard, o)
        },
        DocV::Concat(items) => lay_list(items, ind, flat, gs, st, o),
        DocV::Indent(b) => lay(*b, sat_add64(ind, o.indent_width as u64), flat, gs, st, o),
        DocV::Dedent(b) => lay(
            *b,
            if ind >= o.indent_width as u64 {
                (ind - o.indent_width as u64) as u64
            } else {
                0u64
            },
            flat,
            gs,
            st,
            o,
        ),
        DocV::Align(n, b) => lay(*b, sat_add64(ind, n as u64), flat, gs, st, o),
        DocV::Group(id, b) => {
            let flat2 = flat || fits_at(flat_width(*b), st.pos, o);
            let gs2 = match id {
                Some(i) => gs.push((i, !flat2)),
                None => gs,
            };
            lay(*b, ind, flat2, gs2, st, o)
        },
        DocV::IfBreak(f, br, idref) => {
            let broken = match idref {
                Some(i) => match lookup_group(gs, i) {
                    Some(dec) => dec,
                    None => !flat,
                },
                None => !flat,
            };
            if broken {
                lay(*br, ind, flat, gs, st, o)
            } else {
                lay(*f, ind, flat, gs, st, o)
            }
        },
        DocV::LineSuffix(b) => LayoutStateV {
            out: st.out,
            pos: st.pos,
            suffix: if st.suffix.len() == 0 {
                flat_text(*b)
            } else {
                st.suffix + seq![' '] + flat_text(*b)
            },
        },
        DocV::Fill(items) => lay_fill_first(items, ind, gs, st, o),
        DocV::Label(_, b) => lay(*b, ind, flat, gs, st, o),
    }
}

pub open spec fn lay_list(
    s: Seq<DocV>,
    ind: u64,
    flat: bool,
    gs: Seq<(u64, bool)>,
    st: LayoutStateV,
    o: FormatOptions,
) -> LayoutStateV
    decreases s,
{
    if s.len() == 0 {
        st
    } else {
        lay_list(s.drop_first(), ind, flat, gs, lay(s[0], ind, flat, gs, st, o), o)
    }
}

/// Fill layout: the head item is laid out flat exactly when it fits at the
/// current column; the rest follows pairwise.
pub open spec fn lay_fill_first(
    s: Seq<DocV>,
    ind: u64,
    gs: Seq<(u64, bool)>,
    st: LayoutStateV,
    o: FormatOptions,
) -> LayoutStateV
    decreases s,
{
    if s.len() == 0 {
        st
    } else {
        let st1 = lay(s[0], ind, fits_at(flat_width(s[0]), st.pos, o), gs, st, o);
        lay_fill_rest(s.drop_first(), ind, gs, st1, o)
    }
}

/// Fill layout after the head: `s` alternates separators and contents.  A
/// separator-content pair that fits flat at the current column stays on
/// the line; otherwise the separator breaks and the content starts the
/// next line, flat exactly when it fits there.
pub open spec fn lay_fill_rest(
    s: Seq<DocV>,
    ind: u64,
    gs: Seq<(u64, bool)>,
    st: LayoutStateV,
    o: FormatOptions,
) -> LayoutStateV
    decreases s,
{
    if s.len() == 0 {
        st
    } else if s.len() == 1 {
        lay(s[0], ind, fits_at(flat_width(s[0]), st.pos, o), gs, st, o)
    } else {
        let pair_w = match (flat_width(s[0]), flat_width(s[1])) {
            (Some(a), Some(b)) => Some(sat_add64(a, b)),
            _ => None,
        };
        if fits_at(pair_w, st.pos, o) {
            let st1 = lay(s[0], ind, true, gs, st, o);
            let st2 = lay(s[1], ind, true, gs, st1, o);
            lay_fill_rest(s.skip(2), ind, gs, st2, o)
        } else {
            let st1 = lay(s[0], ind, false, gs, st, o);
            let st2 = lay(s[1], ind, fits_at(flat_width(s[1]), st1.pos, o), gs, st1, o);
            lay_fill_rest(s.skip(2), ind, gs, st2, o)
        }
    }
}

/// The finished output: the whole document laid out broken at top level,
/// the pending suffix flushed, trailing whitespace and line endings
/// stripped, and one final line ending appended unless nothing remains.
pub open spec fn spec_print(d: DocV, o: FormatOptions) -> Seq<char> {
    let st = lay(
        d,
        0,
        false,
        Seq::empty(),
        LayoutStateV { out: Seq::empty(), pos: 0, suffix: Seq::empty() },
        o,
    );
    let full = strip_ws_nl(st.out + st.suffix);
    if full.len() == 0 {
        full
    } else {
        full + line_ending_chars(o.line_ending)
    }
}

/// The executable emission state; its view is [`LayoutStateV`].
pub struct PrintState {
    pub out: Vec<char>,
    pub pos: u64,
    pub suffix: Vec<char>,
}

impl View for PrintState {
    type V = LayoutStateV;

    open spec fn view(&self) -> LayoutStateV {
        LayoutStateV { out: self.out@, pos: self.pos, suffix: self.suffix@ }
    }
}

/// Relies on `String`'s `FromIterator<char>` (through `Iterator::collect`):
/// the collected string holds exactly the given characters in order.
#[verifier::external_body]
pub(crate) fn chars_to_string(v: &Vec<char>) -> (r: String)
    ensures
        r@ == v@,
{
    v.iter().collect()
}

/// Appends the characters of `s` to `out`.
fn push_str_chars(out: &mut Vec<char>, s: &str)
    ensures
        final(out)@ == old(out)@ + s@,
{
    let n = s.unicode_len();
    let mut i: usize = 0;
    while i < n
        invariant
            i <= n,
            n == s@.len(),
            out@ == old(out)@ + s@.take(i as int),
        decreases n - i,
    {
        out.push(s.get_char(i));
        proof {
            assert(s@.take(i + 1 as int) =~= s@.take(i as int).push(s@[i as int]));
        }
        i = i + 1;
    }
    proof {
        assert(s@.take(n as int) =~= s@);
    }
}

/// Appends `n` copies of `c` to `out`.
fn push_repeat(out: &mut Vec<char>, c: char, n: u64)
    ensures
        final(out)@ == old(out)@ + repeat_char(c, n),
    decreases n,
{
    let mut k: u64 = 0;
    while k < n
        invariant
            k <= n,
            out@ == old(out)@ + repeat_char(c, k),
        decreases n - k,
    {
        out.push(c);
        proof {
            assert(repeat_char(c, (k + 1) as u64) =~= repeat_char(c, k).push(c));
        }
        k = k + 1;
    }
}

/// The flat width of `d`, as [`flat_width`] defines it.
fn flat_width_exec(d: &FormatElement) -> (r: Option<u64>)
    ensures
        r == flat_width(d@),
    decreases *d,
{
    match d {
        FormatElement::Empty => Some(0u64),
        FormatElement::Token(s) => {
            let l = s.as_str().unicode_len();
            proof {
                assert(sat64(s@.len()) == l as u64);
            }
            Some(l as u64)
        },
        FormatElement::Space => Some(1u64),
        FormatElement::Line(m) => match m {
            LineMode::Soft => Some(0u64),
            LineMode::SoftSpace => Some(1u64),
            LineMode::Hard => None,
        },
        FormatElement::Concat(items) => flat_width_list_exec(items),
        FormatElement::Indent(b) => flat_width_exec(b),
        FormatElement::Dedent(b) => flat_width_exec(b),
        FormatElement::Align(_, b) => flat_width_exec(b),
        FormatElement::Group(_, b) => flat_width_exec(b),
        FormatElement::IfBreak(f, _, _) => flat_width_exec(f),
        FormatElement::LineSuffix(_) => Some(0u64),
        FormatElement::Fill(items) => flat_width_list_exec(items),
        FormatElement::Label(_, b) => flat_width_exec(b),
    }
}

/// The flat width of a list, summed with saturation; `None` as soon as an
/// item contains a hard seam.
fn flat_width_list_exec(items: &Vec<FormatElement>) -> (r: Option<u64>)
    ensures
        r == flat_width_list(docs_view(items@)),
    decreases items@,
{
    let ghost ivs = docs_view(items@);
    proof {
        lemma_docs_view(items@);
        assert(ivs.skip(0) =~= ivs);
    }
    let mut acc: u64 = 0;
    let mut i: usize = 0;
    while i < items.len()
        invariant
            i <= items.len(),
            ivs == docs_view(items@),
            ivs.len() == items@.len(),
            forall|j: int| 0 <= j < ivs.len() ==> ivs[j] == doc_view(items@[j]),
            flat_width_list(ivs) == match flat_width_list(ivs.skip(i as int)) {
                Some(rest) => Some(sat_add64(acc, rest)),
                None => None::<u64>,
            },
        decreases items.len() - i,
    {
        proof {
            assert(ivs.skip(i as int).drop_first() =~= ivs.skip(i + 1 as int));
            assert(ivs.skip(i as int)[0] == ivs[i as int]);
        }
        match flat_width_exec(&items[i]) {
            Some(w) => {
                proof {
                    lemma_sat_add64_assoc(acc, w);
                }
                acc = acc.saturating_add(w);
            },
            None => {
                return None;
            },
        }
        i = i + 1;
    }
    proof {
        assert(ivs.skip(ivs.len() as int) =~= Seq::<DocV>::empty());
    }
    Some(acc)
}

/// Saturating addition folds associatively over a saturated tail.
pub proof fn lemma_sat_add64_assoc(a: u64, b: u64)
    ensures
        forall|c: u64| sat_add64(a, sat_add64(b, c)) == sat_add64(sat_add64(a, b), c),
{
}

/// Appends the flat text of `d` to `out`, as [`flat_text`] defines it.
fn flat_text_exec(d: &FormatElement, out: &mut Vec<char>)
    ensures
        final(out)@ == old(out)@ + flat_text(d@),
    decreases *d,
{
    match d {
        FormatElement::Empty => {
            proof {
                assert(out@ =~= old(out)@ + flat_text(d@));
            }
        },
        FormatElement::Token(s) => {
            push_str_chars(out, s.as_str());
        },
        FormatElement::Space => {
            out.push(' ');
            proof {
                assert(out@ =~= old(out)@ + seq![' ']);
            }
        },
        FormatElement::Line(m) => match m {
            LineMode::SoftSpace => {
                out.push(' ');
                proof {
                    assert(out@ =~= old(out)@ + seq![' ']);
                }
            },
            LineMode::Soft | LineMode::Hard => {
                proof {
                    assert(out@ =~= old(out)@ + flat_text(d@));
                }
            },
        },
        FormatElement::Concat(items) => {
            flat_text_list_exec(items, out);
        },
        FormatElement::Indent(b) => flat_text_exec(b, out),
        FormatElement::Dedent(b) => flat_text_exec(b, out),
        FormatElement::Align(_, b) => flat_text_exec(b, out),
        FormatElement::Group(_, b) => flat_text_exec(b, out),
        FormatElement::IfBreak(f, _, _) => flat_text_exec(f, out),
        FormatElement::LineSuffix(_) => {
            proof {
                assert(out@ =~= old(out)@ + flat_text(d@));
            }
        },
        FormatElement::Fill(items) => {
            flat_text_list_exec(items, out);
        },
        FormatElement::Label(_, b) => flat_text_exec(b, out),
    }
}

fn flat_text_list_exec(items: &Vec<FormatElement>, out: &mut Vec<char>)
    ensures
        final(out)@ == old(out)@ + flat_text_list(docs_view(items@)),
    decreases items@,
{
    let ghost ivs = docs_view(items@);
    proof {
        lemma_docs_view(items@);
        assert(ivs.skip(0) =~= ivs);
    }
    let mut i: usize = 0;
    while i < items.len()
        invariant
            i <= items.len(),
            ivs == docs_view(items@),
            ivs.len() == items@.len(),
            forall|j: int| 0 <= j < ivs.len() ==> ivs[j] == doc_view(items@[j]),
            out@ + flat_text_list(ivs.skip(i as int)) == old(out)@ + flat_text_list(ivs),
        decreases items.len() - i,
    {
        proof {
            assert(ivs.skip(i as int).drop_first() =~= ivs.skip(i + 1 as int));
            assert(ivs.skip(i as int)[0] == ivs[i as int]);
        }
        flat_text_exec(&items[i], out);
        i = i + 1;
    }
    proof {
        assert(ivs.skip(ivs.len() as int) =~= Seq::<DocV>::empty());
        assert(out@ =~= out@ + flat_text_list(ivs.skip(ivs.len() as int)));
    }
}

/// Removes trailing spaces and tabs.
fn strip_hws_exec(v: &mut Vec<char>)
    ensures
        final(v)@ == strip_hws(old(v)@),
{
    let mut done = false;
    while !done
        invariant
            strip_hws(v@) == strip_hws(old(v)@),
            done ==> v@ == strip_hws(v@),
        decreases v@.len(), (if done {
            0int
        } else {
            1int
        }),
    {
        if v.len() == 0 {
            done = true;
        } else {
            let c = v[v.len() - 1];
            if c == ' ' || c == '\t' {
                proof {
                    assert(v@.drop_last() =~= v@.subrange(0, v@.len() - 1));
                }
                v.pop();
            } else {
                done = true;
            }
        }
    }
}

/// Removes trailing whitespace and line endings.
fn strip_ws_nl_exec(v: &mut Vec<char>)
    ensures
        final(v)@ == strip_ws_nl(old(v)@),
{
    let mut done = false;
    while !done
        invariant
            strip_ws_nl(v@) == strip_ws_nl(old(v)@),
            done ==> v@ == strip_ws_nl(v@),
        decreases v@.len(), (if done {
            0int
        } else {
            1int
        }),
    {
        if v.len() == 0 {
            done = true;
        } else {
            let c = v[v.len() - 1];
            if c == ' ' || c == '\t' || c == '\n' || c == '\r' {
                proof {
                    assert(v@.drop_last() =~= v@.subrange(0, v@.len() - 1));
                }
                v.pop();
            } else {
                done = true;
            }
        }
    }
}

/// Appends one line ending.
fn push_line_ending(v: &mut Vec<char>, ending: LineEnding)
    ensures
        final(v)@ == old(v)@ + line_ending_chars(ending),
{
    match ending {
        LineEnding::Lf => {
            v.push('\n');
            proof {
                assert(v@ =~= old(v)@ + line_ending_chars(ending));
            }
        },
        LineEnding::Crlf => {
            v.push('\r');
            v.push('\n');
            proof {
                assert(v@ =~= old(v)@ + line_ending_chars(ending));
            }
        },
    }
}

/// Appends the indentation for column `ind`.
fn push_indent(v: &mut Vec<char>, ind: u64, o: &FormatOptions)
    ensures
        final(v)@ == old(v)@ + indent_text(ind, *o),
{
    if matches!(o.indent_style, IndentStyle::Tabs) && o.indent_width > 0 {
        let iw = o.indent_width as u64;
        push_repeat(v, '\t', ind / iw);
        push_repeat(v, ' ', ind % iw);
        proof {
            assert(v@ =~= old(v)@ + indent_text(ind, *o));
        }
    } else {
        push_repeat(v, ' ', ind);
        proof {
            assert(v@ =~= old(v)@ + indent_text(ind, *o));
        }
    }
}

/// One newline, as [`emit_line`] defines it.
fn emit_line_exec(st: &mut PrintState, ind: u64, collapse: bool, o: &FormatOptions)
    ensures
        final(st)@ == emit_line(old(st)@, ind, collapse, *o),
{
    st.out.append(&mut st.suffix);
    strip_hws_exec(&mut st.out);
    let line_empty = if st.out.len() == 0 {
        true
    } else {
        st.out[st.out.len() - 1] == '\n'
    };
    if !(collapse && line_empty) {
        push_line_ending(&mut st.out, o.line_ending);
    }
    push_indent(&mut st.out, ind, o);
    st.pos = ind;
}

/// The innermost recorded decision for group `id`.
fn lookup_group_exec(gs: &Vec<(u64, bool)>, id: u64) -> (r: Option<bool>)
    ensures
        r == lookup_group(gs@, id),
{
    let mut i: usize = gs.len();
    proof {
        assert(gs@.take(gs@.len() as int) =~= gs@);
    }
    while i > 0
        invariant
            i <= gs@.len(),
            lookup_group(gs@, id) == lookup_group(gs@.take(i as int), id),
        decreases i,
    {
        i = i - 1;
        let entry = gs[i];
        proof {
            assert(gs@.take(i + 1 as int).last() == gs@[i as int]);
            assert(gs@.take(i + 1 as int).drop_last() =~= gs@.take(i as int));
        }
        if entry.0 == id {
            return Some(entry.1);
        }
    }
    proof {
        assert(gs@.take(0) =~= Seq::<(u64, bool)>::empty());
    }
    None
}

/// Copies the group-decision stack.
fn clone_gs(gs: &Vec<(u64, bool)>) -> (r: Vec<(u64, bool)>)
    ensures
        r@ == gs@,
{
    let mut out: Vec<(u64, bool)> = Vec::new();
    let mut i: usize = 0;
    while i < gs.len()
        invariant
            i <= gs@.len(),
            out@ =~= gs@.take(i as int),
        decreases gs@.len() - i,
    {
        out.push(gs[i]);
        proof {
            assert(gs@.take(i + 1 as int) =~= gs@.take(i as int).push(gs@[i as int]));
        }
        i = i + 1;
    }
    proof {
        assert(gs@.take(gs@.len() as int) =~= gs@);
    }
    out
}

/// Whether a flat width fits at `pos`, as [`fits_at`] defines it.
fn fits_at_exec(w: Option<u64>, pos: u64, o: &FormatOptions) -> (r: bool)
    ensures
        r == fits_at(w, pos, *o),
{
    match w {
        None => false,
        Some(x) => {
            let width = o.print_width as u64;
            pos <= width && x <= width - pos
        },
    }
}

/// Lays out one element, as [`lay`] defines it.
fn lay_exec(
    d: &FormatElement,
    ind: u64,
    flat: bool,
    gs: &Vec<(u64, bool)>,
    st: &mut PrintState,
    o: &FormatOptions,
)
    ensures
        final(st)@ == lay(d@, ind, flat, gs@, old(st)@, *o),
    decreases *d,
{
    match d {
        FormatElement::Empty => {},
        FormatElement::Token(s) => {
            let l = s.as_str().unicode_len();
            push_str_chars(&mut st.out, s.as_str());
            proof {
                assert(sat64(s@.len()) == l as u64);
            }
            st.pos = st.pos.saturating_add(l as u64);
        },
        FormatElement::Space => {
            st.out.push(' ');
            st.pos = st.pos.saturating_add(1);
            proof {
                assert(st.out@ =~= old(st).out@ + seq![' ']);
            }
        },
        FormatElement::Line(m) => {
            if flat && matches!(m, LineMode::Soft) {
            } else if flat && matches!(m, LineMode::SoftSpace) {
                st.out.push(' ');
                st.pos = st.pos.saturating_add(1);
                proof {
                    assert(st.out@ =~= old(st).out@ + seq![' ']);
                }
            } else {
                let collapse = !matches!(m, LineMode::Hard);
                emit_line_exec(st, ind, collapse, o);
            }
        },
        FormatElement::Concat(items) => {
            proof {
                assert(decreases_to!(*d => items@));
            }
            lay_list_exec(items, ind, flat, gs, st, o);
        },
        FormatElement::Indent(b) => {
            lay_exec(b, ind.saturating_add(o.indent_width as u64), flat, gs, st, o);
        },
        FormatElement::Dedent(b) => {
            let iw = o.indent_width as u64;
            let ind2 = if ind >= iw {
                ind - iw
            } else {
                0u64
            };
            lay_exec(b, ind2, flat, gs, st, o);
        },
        FormatElement::Align(n, b) => {
            lay_exec(b, ind.saturating_add(*n as u64), flat, gs, st, o);
        },
        FormatElement::Group(id, b) => {
            let fw = flat_width_exec(b);
            let flat2 = flat || fits_at_exec(fw, st.pos, o);
            match id {
                Some(i) => {
                    let mut gs2 = clone_gs(gs);
                    gs2.push((*i, !flat2));
                    lay_exec(b, ind, flat2, &gs2, st, o);
                },
                None => {
                    lay_exec(b, ind, flat2, gs, st, o);
                },
            }
        },
        FormatElement::IfBreak(f, br, idref) => {
            let broken = match idref {
                Some(i) => match lookup_group_exec(gs, *i) {
                    Some(dec) => dec,
                    None => !flat,
                },
                None => !flat,
            };
            if broken {
                lay_exec(br, ind, flat, gs, st, o);
            } else {
                lay_exec(f, ind, flat, gs, st, o);
            }
        },
        FormatElement::LineSuffix(b) => {
            if st.suffix.len() > 0 {
                st.suffix.push(' ');
                flat_text_exec(b, &mut st.suffix);
                proof {
                    assert(st.suffix@ =~= old(st).suffix@ + seq![' '] + flat_text(b@));
                }
            } else {
                flat_text_exec(b, &mut st.suffix);
                proof {
                    assert(old(st).suffix@ + flat_text(b@) =~= flat_text(b@));
                }
            }
        },
        FormatElement::Fill(items) => {
            proof {
                assert(decreases_to!(*d => items@));
            }
            lay_fill_exec(items, ind, gs, st, o);
        },
        FormatElement::Label(_, b) => {
            lay_exec(b, ind, flat, gs, st, o);
        },
    }
}

/// Lays out a list in order, as [`lay_list`] defines it.
fn lay_list_exec(
    items: &Vec<FormatElement>,
    ind: u64,
    flat: bool,
    gs: &Vec<(u64, bool)>,
    st: &mut PrintState,
    o: &FormatOptions,
)
    ensures
        final(st)@ == lay_list(docs_view(items@), ind, flat, gs@, old(st)@, *o),
    decreases items@,
{
    let ghost ivs = docs_view(items@);
    proof {
        lemma_docs_view(items@);
        assert(ivs.skip(0) =~= ivs);
    }
    let mut i: usize = 0;
    while i < items.len()
        invariant
            i <= items.len(),
            ivs == docs_view(items@),
            ivs.len() == items@.len(),
            forall|j: int| 0 <= j < ivs.len() ==> ivs[j] == doc_view(items@[j]),
            lay_list(ivs.skip(i as int), ind, flat, gs@, st@, *o) == lay_list(
                ivs,
                ind,
                flat,
                gs@,
                old(st)@,
                *o,
            ),
        decreases items.len() - i,
    {
        proof {
            assert(ivs.skip(i as int).drop_first() =~= ivs.skip(i + 1 as int));
            assert(ivs.skip(i as int)[0] == ivs[i as int]);
            assert(decreases_to!(items@ => items@[i as int]));
        }
        lay_exec(&items[i], ind, flat, gs, st, o);
        i = i + 1;
    }
    proof {
        assert(ivs.skip(ivs.len() as int) =~= Seq::<DocV>::empty());
    }
}

/// Lays out a fill, as [`lay_fill_first`] defines it.
fn lay_fill_exec(
    items: &Vec<FormatElement>,
    ind: u64,
    gs: &Vec<(u64, bool)>,
    st: &mut PrintState,
    o: &FormatOptions,
)
    ensures
        final(st)@ == lay_fill_first(docs_view(items@), ind, gs@, old(st)@, *o),
    decreases items@,
{
    let ghost ivs = docs_view(items@);
    proof {
        lemma_docs_view(items@);
    }
    if items.len() == 0 {
        proof {
            assert(lay_fill_first(ivs, ind, gs@, old(st)@, *o) == old(st)@);
        }
        return ;
    }
    let fw0 = flat_width_exec(&items[0]);
    let f0 = fits_at_exec(fw0, st.pos, o);
    proof {
        assert(decreases_to!(items@ => items@[0int]));
    }
    lay_exec(&items[0], ind, f0, gs, st, o);
    let ghost target = lay_fill_first(ivs, ind, gs@, old(st)@, *o);
    proof {
        assert(ivs.drop_first() =~= ivs.skip(1));
        assert(lay_fill_rest(ivs.skip(1), ind, gs@, st@, *o) == target);
    }
    let mut k: usize = 1;
    while k < items.len()
        invariant
            1 <= k <= items.len(),
            ivs == docs_view(items@),
            ivs.len() == items@.len(),
            forall|j: int| 0 <= j < ivs.len() ==> ivs[j] == doc_view(items@[j]),
            lay_fill_rest(ivs.skip(k as int), ind, gs@, st@, *o) == target,
        decreases items.len() - k,
    {
        let ghost rest = ivs.skip(k as int);
        proof {
            assert(rest[0] == ivs[k as int]);
            assert(decreases_to!(items@ => items@[k as int]));
        }
        if k + 1 >= items.len() {
            let fw = flat_width_exec(&items[k]);
            let f = fits_at_exec(fw, st.pos, o);
            lay_exec(&items[k], ind, f, gs, st, o);
            proof {
                assert(rest.len() == 1);
            }
            k = k + 1;
            proof {
                assert(ivs.skip(k as int) =~= Seq::<DocV>::empty());
                assert(lay_fill_rest(ivs.skip(k as int), ind, gs@, st@, *o) == st@);
            }
        } else {
            proof {
                assert(rest[1] == ivs[k + 1 as int]);
                assert(rest.skip(2) =~= ivs.skip(k + 2 as int));
                assert(decreases_to!(items@ => items@[k + 1 as int]));
            }
            let wsep = flat_width_exec(&items[k]);
            let wc = flat_width_exec(&items[k + 1]);
            let pw = match (wsep, wc) {
                (Some(a), Some(b)) => Some(a.saturating_add(b)),
                _ => None,
            };
            if fits_at_exec(pw, st.pos, o) {
                lay_exec(&items[k], ind, true, gs, st, o);
                lay_exec(&items[k + 1], ind, true, gs, st, o);
            } else {
                lay_exec(&items[k], ind, false, gs, st, o);
                let fc = fits_at_exec(wc, st.pos, o);
                lay_exec(&items[k + 1], ind, fc, gs, st, o);
            }
            k = k + 2;
        }
    }
    proof {
        assert(ivs.skip(k as int) =~= Seq::<DocV>::empty());
        assert(lay_fill_rest(ivs.skip(k as int), ind, gs@, st@, *o) == st@);
    }
}

/// Prints a whole document, returning exactly [`spec_print`] of its view.
pub fn print(doc: &FormatElement, o: &FormatOptions) -> (r: String)
    ensures
        r@ == spec_print(doc@, *o),
{
    let mut st = PrintState { out: Vec::new(), pos: 0, suffix: Vec::new() };
    let gs: Vec<(u64, bool)> = Vec::new();
    proof {
        assert(gs@ =~= Seq::<(u64, bool)>::empty());
        assert(st@.out =~= Seq::<char>::empty());
        assert(st@.suffix =~= Seq::<char>::empty());
    }
    lay_exec(doc, 0, false, &gs, &mut st, o);
    st.out.append(&mut st.suffix);
    strip_ws_nl_exec(&mut st.out);
    if st.out.len() > 0 {
        push_line_ending(&mut st.out, o.line_ending);
    }
    chars_to_string(&st.out)
}

} // verus!
