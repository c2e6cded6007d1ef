//! Quote normalization for string-literal tokens.
//!
//! A string literal is rewritten to the configured quote unless its
//! content forces the other: an unescaped instance of the preferred quote
//! with none of the alternative keeps the alternative.  Under the chosen
//! delimiter the content is re-escaped one character at a time: an
//! unescaped delimiter gains a backslash, an escaped quote character other
//! than the delimiter loses its now-needless one, and every other
//! character, escape sequences included, is kept verbatim — so the
//! literal's meaning never changes.

use vstd::prelude::*;

use crate::options::QuoteStyle;
use crate::format_element::{clean_text, lemma_clean_concat, lemma_clean_singleton};

verus! {

/// The quote character a style prefers.
pub open spec fn preferred_quote(style: QuoteStyle) -> char {
    match style {
        QuoteStyle::Single => '\'',
        QuoteStyle::Double => '"',
    }
}

/// The quote character a style avoids.
pub open spec fn alternate_quote(style: QuoteStyle) -> char {
    match style {
        QuoteStyle::Single => '"',
        QuoteStyle::Double => '\'',
    }
}

/// Whether `content` holds `c` outside any backslash escape.
pub open spec fn has_unescaped(content: Seq<char>, c: char) -> bool
    decreases content.len(),
{
    if content.len() == 0 {
        false
    } else if content[0] == '\\' && content.len() >= 2 {
        has_unescaped(content.skip(2), c)
    } else {
        content[0] == c || has_unescaped(content.skip(1), c)
    }
}

/// The content rewritten for the delimiter `q`: an unescaped `q` is
/// escaped, an escaped quote character `other` loses its backslash, and
/// everything else — other escape sequences included — is kept verbatim.
pub open spec fn requote(content: Seq<char>, q: char, other: char) -> Seq<char>
    decreases content.len(),
{
    if content.len() == 0 {
        Seq::empty()
    } else if content[0] == '\\' && content.len() >= 2 {
        if content[1] == other {
            seq![other] + requote(content.skip(2), q, other)
        } else {
            seq!['\\', content[1]] + requote(content.skip(2), q, other)
        }
    } else if content[0] == q {
        seq!['\\', q] + requote(content.skip(1), q, other)
    } else {
        seq![content[0]] + requote(content.skip(1), q, other)
    }
}

/// What a string-literal token becomes under `style`: the configured
/// quote, unless the content holds the preferred quote unescaped and none
/// of the alternative unescaped, which forces the alternative; the
/// content is re-escaped for the chosen delimiter.  A text that is not a
/// quoted literal at all is kept verbatim.
pub open spec fn normalize_quotes(text: Seq<char>, style: QuoteStyle) -> Seq<char> {
    let p = preferred_quote(style);
    let a = alternate_quote(style);
    if text.len() >= 2 && (text[0] == '\'' || text[0] == '"') && text.last() == text[0] {
        let content = text.subrange(1, text.len() - 1);
        let q = if has_unescaped(content, p) && !has_unescaped(content, a) {
            a
        } else {
            p
        };
        let other = if q == p {
            a
        } else {
            p
        };
        seq![q] + requote(content, q, other) + seq![q]
    } else {
        text
    }
}

/// Requoting never introduces a raw newline: every emitted character is
/// one of the content's, a backslash, or a quote.
pub proof fn lemma_requote_clean(content: Seq<char>, q: char, other: char)
    requires
        clean_text(content),
        q != '\n' && q != '\r',
        other != '\n' && other != '\r',
    ensures
        clean_text(requote(content, q, other)),
    decreases content.len(),
{
    lemma_clean_singleton('\\');
    if content.len() == 0 {
        assert(!requote(content, q, other).contains('\n'));
        assert(!requote(content, q, other).contains('\r'));
    } else {
        assert(content[0] != '\n' && content[0] != '\r');
        if content.len() >= 2 {
            assert(content[1] != '\n' && content[1] != '\r');
        }
        if content[0] == '\\' && content.len() >= 2 {
            lemma_subtext_clean(content, 2);
            lemma_requote_clean(content.skip(2), q, other);
            if content[1] == other {
                lemma_clean_singleton(other);
                lemma_clean_concat(seq![other], requote(content.skip(2), q, other));
            } else {
                lemma_clean_singleton(content[1]);
                lemma_clean_concat(seq!['\\'], seq![content[1]]);
                assert(seq!['\\'] + seq![content[1]] =~= seq!['\\', content[1]]);
                lemma_clean_concat(seq!['\\', content[1]], requote(content.skip(2), q, other));
            }
        } else if content[0] == q {
            lemma_subtext_clean(content, 1);
            lemma_requote_clean(content.skip(1), q, other);
            lemma_clean_singleton(q);
            lemma_clean_concat(seq!['\\'], seq![q]);
            assert(seq!['\\'] + seq![q] =~= seq!['\\', q]);
            lemma_clean_concat(seq!['\\', q], requote(content.skip(1), q, other));
        } else {
            lemma_subtext_clean(content, 1);
            lemma_requote_clean(content.skip(1), q, other);
            lemma_clean_singleton(content[0]);
            lemma_clean_concat(seq![content[0]], requote(content.skip(1), q, other));
        }
    }
}

/// A suffix of a clean text is clean.
proof fn lemma_subtext_clean(s: Seq<char>, k: int)
    requires
        clean_text(s),
        0 <= k <= s.len(),
    ensures
        clean_text(s.skip(k)),
{
    if s.skip(k).contains('\n') {
        let i = choose|i: int| 0 <= i < s.skip(k).len() && s.skip(k)[i] == '\n';
        assert(s[k + i] == '\n');
    }
    if s.skip(k).contains('\r') {
        let i = choose|i: int| 0 <= i < s.skip(k).len() && s.skip(k)[i] == '\r';
        assert(s[k + i] == '\r');
    }
}

/// A clean literal stays clean through quote normalization.
pub proof fn lemma_normalize_quotes_clean(text: Seq<char>, style: QuoteStyle)
    requires
        clean_text(text),
    ensures
        clean_text(normalize_quotes(text, style)),
{
    let p = preferred_quote(style);
    let a = alternate_quote(style);
    if text.len() >= 2 && (text[0] == '\'' || text[0] == '"') && text.last() == text[0] {
        let content = text.subrange(1, text.len() - 1);
        if content.contains('\n') {
            let i = choose|i: int| 0 <= i < content.len() && content[i] == '\n';
            assert(text[1 + i] == '\n');
        }
        if content.contains('\r') {
            let i = choose|i: int| 0 <= i < content.len() && content[i] == '\r';
            assert(text[1 + i] == '\r');
        }
        let q = if has_unescaped(content, p) && !has_unescaped(content, a) {
            a
        } else {
            p
        };
        let other = if q == p {
            a
        } else {
            p
        };
        lemma_requote_clean(content, q, other);
        lemma_clean_singleton(q);
        lemma_clean_concat(seq![q], requote(content, q, other));
        lemma_clean_concat(seq![q] + requote(content, q, other), seq![q]);
    }
}

/// Whether the text holds `c` unescaped anywhere in `[from, to)`.
fn has_unescaped_range(s: &str, from: usize, to: usize, c: char) -> (r: bool)
    requires
        from <= to <= s@.len(),
    ensures
        r == has_unescaped(s@.subrange(from as int, to as int), c),
{
    let ghost content = s@.subrange(from as int, to as int);
    let mut i: usize = from;
    proof {
        assert(content.skip(0) =~= content);
    }
    while i < to
        invariant
            from <= i <= to <= s@.len(),
            content == s@.subrange(from as int, to as int),
            has_unescaped(content, c) == has_unescaped(content.skip(i - from), c),
        decreases to - i,
    {
        let ghost rest = content.skip(i - from);
        proof {
            assert(rest[0] == s@[i as int]);
            if rest.len() >= 2 {
                assert(rest[1] == s@[i + 1 as int]);
            }
        }
        let ch = s.get_char(i);
        if ch == '\\' && i + 1 < to {
            proof {
                assert(rest.skip(2) =~= content.skip(i + 2 - from));
            }
            i = i + 2;
        } else if ch == c {
            proof {
                assert(has_unescaped(rest, c));
            }
            return true;
        } else {
            proof {
                assert(rest.skip(1) =~= content.skip(i + 1 - from));
            }
            i = i + 1;
        }
    }
    proof {
        assert(content.skip(to - from) =~= Seq::<char>::empty());
    }
    false
}

/// Appends the re-escaped content of `[from, to)` for the delimiter `q`,
/// as [`requote`] defines it.
fn requote_range(s: &str, from: usize, to: usize, q: char, other: char, out: &mut Vec<char>)
    requires
        from <= to <= s@.len(),
    ensures
        final(out)@ == old(out)@ + requote(
            s@.subrange(from as int, to as int),
            q,
            other,
        ),
{
    let ghost content = s@.subrange(from as int, to as int);
    let mut i: usize = from;
    proof {
        assert(content.skip(0) =~= content);
    }
    while i < to
        invariant
            from <= i <= to <= s@.len(),
            content == s@.subrange(from as int, to as int),
            old(out)@ + requote(content, q, other) == out@ + requote(
                content.skip(i - from),
                q,
                other,
            ),
        decreases to - i,
    {
        let ghost rest = content.skip(i - from);
        proof {
            assert(rest[0] == s@[i as int]);
            if rest.len() >= 2 {
                assert(rest[1] == s@[i + 1 as int]);
            }
        }
        let ch = s.get_char(i);
        if ch == '\\' && i + 1 < to {
            let nxt = s.get_char(i + 1);
            proof {
                assert(rest.skip(2) =~= content.skip(i + 2 - from));
            }
            if nxt == other {
                out.push(other);
                proof {
                    assert(requote(rest, q, other) =~= seq![other] + requote(
                        rest.skip(2),
                        q,
                        other,
                    ));
                    assert(old(out)@ + requote(content, q, other) =~= out@ + requote(
                        rest.skip(2),
                        q,
                        other,
                    ));
                }
            } else {
                out.push('\\');
                out.push(nxt);
                proof {
                    assert(requote(rest, q, other) =~= seq!['\\', nxt] + requote(
                        rest.skip(2),
                        q,
                        other,
                    ));
                    assert(old(out)@ + requote(content, q, other) =~= out@ + requote(
                        rest.skip(2),
                        q,
                        other,
                    ));
                }
            }
            i = i + 2;
        } else if ch == q {
            out.push('\\');
            out.push(q);
            proof {
                assert(rest.skip(1) =~= content.skip(i + 1 - from));
                assert(requote(rest, q, other) =~= seq!['\\', q] + requote(
                    rest.skip(1),
                    q,
                    other,
                ));
                assert(old(out)@ + requote(content, q, other) =~= out@ + requote(
                    rest.skip(1),
                    q,
                    other,
                ));
            }
            i = i + 1;
        } else {
            out.push(ch);
            proof {
                assert(rest.skip(1) =~= content.skip(i + 1 - from));
                assert(requote(rest, q, other) =~= seq![ch] + requote(rest.skip(1), q, other));
                assert(old(out)@ + requote(content, q, other) =~= out@ + requote(
                    rest.skip(1),
                    q,
                    other,
                ));
            }
            i = i + 1;
        }
    }
    proof {
        assert(content.skip(to - from) =~= Seq::<char>::empty());
        assert(out@ + requote(content.skip(to - from), q, other) =~= out@);
    }
}

/// Rewrites a string-literal token to the quote its style and content
/// select, as [`normalize_quotes`] defines.
pub fn normalize_string_token(text: &str, style: QuoteStyle) -> (r: String)
    ensures
        r@ == normalize_quotes(text@, style),
{
    let n = text.unicode_len();
    if n < 2 {
        return text.to_owned();
    }
    let first = text.get_char(0);
    let last = text.get_char(n - 1);
    if !((first == '\'' || first == '"') && last == first) {
        return text.to_owned();
    }
    let ghost content = text@.subrange(1, text@.len() - 1);
    let p: char = match style {
        QuoteStyle::Single => '\'',
        QuoteStyle::Double => '"',
    };
    let a: char = match style {
        QuoteStyle::Single => '"',
        QuoteStyle::Double => '\'',
    };
    let has_p = has_unescaped_range(text, 1, n - 1, p);
    let has_a = has_unescaped_range(text, 1, n - 1, a);
    let forced = has_p && !has_a;
    let q: char = if forced {
        a
    } else {
        p
    };
    let other: char = if forced {
        p
    } else {
        a
    };
    let mut out: Vec<char> = Vec::new();
    out.push(q);
    proof {
        assert(out@ =~= seq![q]);
    }
    requote_range(text, 1, n - 1, q, other, &mut out);
    out.push(q);
    let r = crate::printer::chars_to_string(&out);
    proof {
        assert(p != a);
        assert(r@ =~= seq![q] + requote(content, q, other) + seq![q]);
        assert(r@ =~= normalize_quotes(text@, style));
    }
    r
}

} // verus!
