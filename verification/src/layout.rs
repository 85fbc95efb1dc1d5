//! The text-layout engine: greedy word-wrapping with per-line prefixes, plus
//! the centering and two-sided alignment helpers used by the plain-text
//! renderer.
//!
//! The specification model works on `Seq<char>`.  A string is first split
//! into whitespace-separated words (`words`); the greedy wrapper then decides
//! for each word whether it starts a new line (`line_breaks`), and the final
//! text is assembled from the words, those decisions and the two prefixes
//! (`assemble`).  Keeping the break decisions separate from the assembly makes
//! the "no word is ever split across lines" argument direct: the output is by
//! construction a concatenation of whole words and separators.

use vstd::prelude::*;
use crate::strutil::{chars_to_string, lemma_spaces_len, push_chars, push_spaces, spaces, str_to_chars};

verus! {

/// The Unicode `White_Space` characters, the separator set used when
/// splitting text into words.
pub open spec fn is_wspace(c: char) -> bool {
    c == ' ' || c == '\u{9}' || c == '\u{A}' || c == '\u{B}' || c == '\u{C}' || c == '\u{D}'
        || c == '\u{85}' || c == '\u{A0}' || c == '\u{1680}' || c == '\u{2000}'
        || c == '\u{2001}' || c == '\u{2002}' || c == '\u{2003}' || c == '\u{2004}'
        || c == '\u{2005}' || c == '\u{2006}' || c == '\u{2007}' || c == '\u{2008}'
        || c == '\u{2009}' || c == '\u{200A}' || c == '\u{2028}' || c == '\u{2029}'
        || c == '\u{202F}' || c == '\u{205F}' || c == '\u{3000}'
}

/// Executable test for [`is_wspace`].
pub fn is_whitespace_char(c: char) -> (r: bool)
    ensures
        r == is_wspace(c),
{
    c == ' ' || c == '\u{9}' || c == '\u{A}' || c == '\u{B}' || c == '\u{C}' || c == '\u{D}'
        || c == '\u{85}' || c == '\u{A0}' || c == '\u{1680}' || c == '\u{2000}'
        || c == '\u{2001}' || c == '\u{2002}' || c == '\u{2003}' || c == '\u{2004}'
        || c == '\u{2005}' || c == '\u{2006}' || c == '\u{2007}' || c == '\u{2008}'
        || c == '\u{2009}' || c == '\u{200A}' || c == '\u{2028}' || c == '\u{2029}'
        || c == '\u{202F}' || c == '\u{205F}' || c == '\u{3000}'
}

/// The whitespace-separated words of `s`, with `cur` the partial word read so
/// far.  Words are maximal runs of non-whitespace characters; leading and
/// trailing whitespace contribute nothing.
pub open spec fn words_acc(s: Seq<char>, cur: Seq<char>) -> Seq<Seq<char>>
    decreases s.len(),
{
    if s.len() == 0 {
        if cur.len() == 0 {
            Seq::empty()
        } else {
            seq![cur]
        }
    } else if is_wspace(s[0]) {
        if cur.len() == 0 {
            words_acc(s.drop_first(), Seq::empty())
        } else {
            seq![cur] + words_acc(s.drop_first(), Seq::empty())
        }
    } else {
        words_acc(s.drop_first(), cur.push(s[0]))
    }
}

/// The whitespace-separated words of `s`.
pub open spec fn words(s: Seq<char>) -> Seq<Seq<char>> {
    words_acc(s, Seq::empty())
}

/// The greedy break decisions from word `i` on: `cur` is the number of
/// characters already on the current line.  A word is moved to a new line
/// whenever the line length plus a separating space plus the word would
/// exceed `width`.  The check is also made for the very first word, so the
/// output can begin with a line break.
pub open spec fn breaks_from(ws: Seq<Seq<char>>, width: int, cur: int, contlen: int, i: int) -> Seq<bool>
    decreases ws.len() - i,
{
    if i < 0 || i >= ws.len() {
        Seq::empty()
    } else {
        let over = cur + ws[i].len() + 1 > width;
        let next = if over {
            contlen + ws[i].len()
        } else if i == 0 {
            cur + ws[i].len()
        } else {
            cur + 1 + ws[i].len()
        };
        seq![over] + breaks_from(ws, width, next, contlen, i + 1)
    }
}

/// The greedy break decision for every word: `true` means the word starts a
/// new line.
pub open spec fn line_breaks(ws: Seq<Seq<char>>, width: int, firstlen: int, contlen: int) -> Seq<bool> {
    breaks_from(ws, width, firstlen, contlen, 0)
}

/// There is one break decision for each word from `i` on.
proof fn lemma_breaks_from_len(ws: Seq<Seq<char>>, width: int, cur: int, contlen: int, i: int)
    requires
        0 <= i <= ws.len(),
    ensures
        breaks_from(ws, width, cur, contlen, i).len() == ws.len() - i,
    decreases ws.len() - i,
{
    if i < ws.len() {
        let over = cur + ws[i].len() + 1 > width;
        let next = if over {
            contlen + ws[i].len()
        } else if i == 0 {
            cur + ws[i].len()
        } else {
            cur + 1 + ws[i].len()
        };
        lemma_breaks_from_len(ws, width, next, contlen, i + 1);
    }
}

/// The text from word `i` on, given the break decisions `b`: each word is
/// preceded by a newline and the continuation prefix where `b` says so, by a
/// single space otherwise — except the first word, which follows the
/// first-line prefix directly.
pub open spec fn assemble_from(ws: Seq<Seq<char>>, b: Seq<bool>, cont: Seq<char>, i: int) -> Seq<char>
    decreases ws.len() - i,
{
    if i < 0 || i >= ws.len() {
        Seq::empty()
    } else {
        let sep = if i < b.len() && b[i] {
            seq!['\n'] + cont
        } else if i == 0 {
            Seq::<char>::empty()
        } else {
            seq![' ']
        };
        sep + ws[i] + assemble_from(ws, b, cont, i + 1)
    }
}

/// The whole wrapped text: the first-line prefix followed by every word with
/// its separator.
pub open spec fn assemble(ws: Seq<Seq<char>>, b: Seq<bool>, first: Seq<char>, cont: Seq<char>) -> Seq<char> {
    first + assemble_from(ws, b, cont, 0)
}

/// The view of an optional prefix: absent means empty.
pub open spec fn opt_str_view(o: Option<String>) -> Seq<char> {
    match o {
        Some(s) => s@,
        None => Seq::empty(),
    }
}

/// What [`split_string_across_lines`] returns: the words of `s`, wrapped
/// greedily at `width` with the given prefixes.
pub open spec fn wrap_spec(s: Seq<char>, width: int, first: Seq<char>, cont: Seq<char>) -> Seq<char> {
    assemble(
        words(s),
        line_breaks(words(s), width, first.len() as int, cont.len() as int),
        first,
        cont,
    )
}

/// Splits `s` into its whitespace-separated words.
fn split_whitespace_chars(s: &Vec<char>) -> (r: Vec<Vec<char>>)
    ensures
        r@.len() == words(s@).len(),
        forall|k: int| 0 <= k < r@.len() ==> r@[k]@ == words(s@)[k],
{
    let mut out: Vec<Vec<char>> = Vec::new();
    let mut cur: Vec<char> = Vec::new();
    let ghost mut g: Seq<Seq<char>> = Seq::empty();
    let mut i: usize = 0;
    proof {
        assert(s@.skip(0) =~= s@);
        assert(g + words_acc(s@, cur@) =~= words_acc(s@, cur@));
    }
    while i < s.len()
        invariant
            i <= s@.len(),
            g.len() == out@.len(),
            forall|k: int| 0 <= k < g.len() ==> out@[k]@ == g[k],
            words(s@) == g + words_acc(s@.skip(i as int), cur@),
        decreases s@.len() - i,
    {
        let ghost cur0 = cur@;
        let ghost rest0 = s@.skip(i as int);
        let c = s[i];
        proof {
            assert(rest0[0] == s@[i as int]);
            assert(rest0.drop_first() =~= s@.skip(i + 1 as int));
        }
        if is_whitespace_char(c) {
            if cur.len() > 0 {
                out.push(cur);
                proof {
                    g = g.push(cur0);
                    assert(words_acc(rest0, cur0) == seq![cur0] + words_acc(
                        s@.skip(i + 1 as int),
                        Seq::empty(),
                    ));
                    assert(words(s@) =~= g + words_acc(s@.skip(i + 1 as int), Seq::empty()));
                }
                cur = Vec::new();
            } else {
                proof {
                    assert(cur0 =~= Seq::<char>::empty());
                    assert(words_acc(rest0, cur0) == words_acc(
                        s@.skip(i + 1 as int),
                        Seq::empty(),
                    ));
                }
            }
        } else {
            cur.push(c);
            proof {
                assert(words_acc(rest0, cur0) == words_acc(
                    s@.skip(i + 1 as int),
                    cur0.push(s@[i as int]),
                ));
            }
        }
        i = i + 1;
    }
    proof {
        assert(s@.skip(s@.len() as int) =~= Seq::<char>::empty());
    }
    if cur.len() > 0 {
        out.push(cur);
        proof {
            g = g.push(cur@);
            assert(words(s@) =~= g);
        }
    } else {
        proof {
            assert(words(s@) =~= g);
        }
    }
    out
}

/// Word-wraps `s` at `width` columns.  Whitespace runs separate words; the
/// first line begins with `first_line_prefix` and every later line with
/// `line_prefix` (absent prefixes count as empty).  A word that does not fit
/// is placed alone on its own line, never split.
pub fn split_string_across_lines(
    s: &str,
    width: usize,
    first_line_prefix: Option<String>,
    line_prefix: Option<String>,
) -> (r: String)
    ensures
        r@ == wrap_spec(s@, width as int, opt_str_view(first_line_prefix), opt_str_view(line_prefix)),
{
    let fv: Vec<char> = match &first_line_prefix {
        Some(p) => str_to_chars(p.as_str()),
        None => Vec::new(),
    };
    let cv: Vec<char> = match &line_prefix {
        Some(p) => str_to_chars(p.as_str()),
        None => Vec::new(),
    };
    let sv = str_to_chars(s);
    let wv = split_whitespace_chars(&sv);
    let ghost ws: Seq<Seq<char>> = words(s@);
    let ghost b: Seq<bool> = line_breaks(ws, width as int, fv@.len() as int, cv@.len() as int);

    let mut out: Vec<char> = Vec::new();
    push_chars(&mut out, &fv);
    proof {
        assert(out@ =~= fv@);
        lemma_breaks_from_len(ws, width as int, fv@.len() as int, cv@.len() as int, 0);
        assert(b.skip(0) =~= b);
    }
    let mut line_length: u128 = fv.len() as u128;
    let mut i: usize = 0;
    while i < wv.len()
        invariant
            i <= wv@.len(),
            wv@.len() == ws.len(),
            forall|k: int| 0 <= k < ws.len() ==> wv@[k]@ == ws[k],
            b == line_breaks(ws, width as int, fv@.len() as int, cv@.len() as int),
            b.len() == ws.len(),
            breaks_from(ws, width as int, line_length as int, cv@.len() as int, i as int)
                == b.skip(i as int),
            line_length < 0x2_0000_0000_0000_0000,
            out@ + assemble_from(ws, b, cv@, i as int) == assemble(ws, b, fv@, cv@),
        decreases wv@.len() - i,
    {
        let w = &wv[i];
        let wlen: usize = w.len();
        proof {
            assert(b.skip(i as int)[0] == b[i as int]);
            assert(b.skip(i as int).drop_first() =~= b.skip(i + 1 as int));
        }
        if line_length + (wlen as u128) + 1 > (width as u128) {
            out.push('\n');
            push_chars(&mut out, &cv);
            push_chars(&mut out, w);
            line_length = (cv.len() as u128) + (wlen as u128);
            proof {
                assert(out@ + assemble_from(ws, b, cv@, i + 1 as int) =~= assemble(ws, b, fv@, cv@));
            }
        } else {
            if i > 0 {
                out.push(' ');
                line_length = line_length + 1 + (wlen as u128);
            } else {
                line_length = line_length + (wlen as u128);
            }
            push_chars(&mut out, w);
            proof {
                assert(out@ + assemble_from(ws, b, cv@, i + 1 as int) =~= assemble(ws, b, fv@, cv@));
            }
        }
        i = i + 1;
    }
    proof {
        assert(out@ =~= assemble(ws, b, fv@, cv@));
    }
    chars_to_string(&out)
}

/// Every word produced by [`words_acc`] is non-empty and holds no
/// whitespace, as long as the partial word read so far holds none.
pub proof fn lemma_words_acc_wsfree(s: Seq<char>, cur: Seq<char>)
    requires
        forall|t: int| 0 <= t < cur.len() ==> !is_wspace(cur[t]),
    ensures
        forall|k: int|
            0 <= k < words_acc(s, cur).len() ==> (#[trigger] words_acc(s, cur)[k]).len() > 0 && (
            forall|t: int| 0 <= t < words_acc(s, cur)[k].len() ==> !is_wspace(
                words_acc(s, cur)[k][t],
            )),
    decreases s.len(),
{
    let r = words_acc(s, cur);
    if s.len() == 0 {
    } else if is_wspace(s[0]) {
        lemma_words_acc_wsfree(s.drop_first(), Seq::empty());
        let rest = words_acc(s.drop_first(), Seq::empty());
        if cur.len() == 0 {
            assert(r == rest);
        } else {
            assert(r == seq![cur] + rest);
            assert forall|k: int| 0 <= k < r.len() implies (#[trigger] r[k]).len() > 0 && (
            forall|t: int| 0 <= t < r[k].len() ==> !is_wspace(r[k][t])) by {
                if k == 0 {
                    assert(r[0] == cur);
                } else {
                    assert(r[k] == rest[k - 1]);
                }
            }
        }
    } else {
        assert(forall|t: int| 0 <= t < cur.push(s[0]).len() ==> !is_wspace(cur.push(s[0])[t]));
        lemma_words_acc_wsfree(s.drop_first(), cur.push(s[0]));
        assert(r == words_acc(s.drop_first(), cur.push(s[0])));
    }
}

/// Reading a whitespace-free piece of text extends the current partial word
/// with it.
proof fn lemma_words_acc_through_word(w: Seq<char>, rest: Seq<char>, cur: Seq<char>)
    requires
        forall|t: int| 0 <= t < w.len() ==> !is_wspace(w[t]),
    ensures
        words_acc(w + rest, cur) == words_acc(rest, cur + w),
    decreases w.len(),
{
    if w.len() == 0 {
        assert(w + rest =~= rest);
        assert(cur + w =~= cur);
    } else {
        assert((w + rest)[0] == w[0]);
        assert((w + rest).drop_first() =~= w.drop_first() + rest);
        assert(cur.push(w[0]) + w.drop_first() =~= cur + w);
        lemma_words_acc_through_word(w.drop_first(), rest, cur.push(w[0]));
    }
}

/// Reading one whitespace character finishes the current partial word.
proof fn lemma_words_acc_ws_char(c: char, rest: Seq<char>, cur: Seq<char>)
    requires
        is_wspace(c),
    ensures
        words_acc(seq![c] + rest, cur) == if cur.len() == 0 {
            words_acc(rest, Seq::empty())
        } else {
            seq![cur] + words_acc(rest, Seq::empty())
        },
{
    assert((seq![c] + rest)[0] == c);
    assert((seq![c] + rest).drop_first() =~= rest);
}

/// Reading the assembly from word `i` on, with `cur` the partial word in
/// hand, yields that word (when there is one) followed by the remaining
/// words, whole and in order.
proof fn lemma_assemble_words_from(ws: Seq<Seq<char>>, b: Seq<bool>, i: int, cur: Seq<char>)
    requires
        1 <= i <= ws.len(),
        forall|k: int|
            0 <= k < ws.len() ==> (#[trigger] ws[k]).len() > 0 && (forall|t: int|
                0 <= t < ws[k].len() ==> !is_wspace(ws[k][t])),
        forall|t: int| 0 <= t < cur.len() ==> !is_wspace(cur[t]),
    ensures
        words_acc(assemble_from(ws, b, Seq::empty(), i), cur) == (if cur.len() == 0 {
            Seq::<Seq<char>>::empty()
        } else {
            seq![cur]
        }) + ws.skip(i),
    decreases ws.len() - i,
{
    let emit: Seq<Seq<char>> = if cur.len() == 0 {
        Seq::empty()
    } else {
        seq![cur]
    };
    if i == ws.len() {
        assert(assemble_from(ws, b, Seq::empty(), i) == Seq::<char>::empty());
        assert(ws.skip(i) =~= Seq::<Seq<char>>::empty());
        assert(emit + ws.skip(i) =~= emit);
    } else {
        let sep: char = if i < b.len() && b[i] {
            '\n'
        } else {
            ' '
        };
        let rest = ws[i] + assemble_from(ws, b, Seq::empty(), i + 1);
        assert(assemble_from(ws, b, Seq::empty(), i) =~= seq![sep] + rest) by {
            if i < b.len() && b[i] {
                assert((seq!['\n'] + Seq::<char>::empty()) =~= seq!['\n']);
            }
        }
        lemma_words_acc_ws_char(sep, rest, cur);
        lemma_words_acc_through_word(ws[i], assemble_from(ws, b, Seq::empty(), i + 1), Seq::empty());
        assert(Seq::<char>::empty() + ws[i] =~= ws[i]);
        lemma_assemble_words_from(ws, b, i + 1, ws[i]);
        assert(seq![ws[i]] + ws.skip(i + 1) =~= ws.skip(i));
        assert(words_acc(assemble_from(ws, b, Seq::empty(), i), cur) =~= emit + ws.skip(i));
    }
}

/// No break decision ever splits a word: assembled with empty prefixes,
/// under any break decisions at all, the text reads back as exactly the
/// words it was assembled from — whole, in order, none lost and none added.
pub proof fn lemma_assemble_keeps_words(ws: Seq<Seq<char>>, b: Seq<bool>)
    requires
        forall|k: int|
            0 <= k < ws.len() ==> (#[trigger] ws[k]).len() > 0 && (forall|t: int|
                0 <= t < ws[k].len() ==> !is_wspace(ws[k][t])),
    ensures
        words(assemble(ws, b, Seq::empty(), Seq::empty())) == ws,
{
    assert(Seq::<char>::empty() + assemble_from(ws, b, Seq::empty(), 0) =~= assemble_from(
        ws,
        b,
        Seq::empty(),
        0,
    ));
    if ws.len() == 0 {
        assert(words(assemble(ws, b, Seq::empty(), Seq::empty())) =~= ws);
    } else {
        let rest = ws[0] + assemble_from(ws, b, Seq::empty(), 1);
        if 0 < b.len() && b[0] {
            assert(assemble_from(ws, b, Seq::empty(), 0) =~= seq!['\n'] + rest) by {
                assert((seq!['\n'] + Seq::<char>::empty()) =~= seq!['\n']);
            }
            lemma_words_acc_ws_char('\n', rest, Seq::empty());
        } else {
            assert(assemble_from(ws, b, Seq::empty(), 0) =~= rest);
        }
        lemma_words_acc_through_word(ws[0], assemble_from(ws, b, Seq::empty(), 1), Seq::empty());
        assert(Seq::<char>::empty() + ws[0] =~= ws[0]);
        lemma_assemble_words_from(ws, b, 1, ws[0]);
        assert(seq![ws[0]] + ws.skip(1) =~= ws);
        assert(words(assemble(ws, b, Seq::empty(), Seq::empty())) =~= ws);
    }
}

/// Wrapping never splits a word, whatever the width: the words of the
/// wrapped text, with no prefixes, are exactly the words of the input —
/// even when a word alone exceeds the width.
pub proof fn lemma_wrap_never_splits_words(s: Seq<char>, width: int)
    ensures
        words(wrap_spec(s, width, Seq::empty(), Seq::empty())) == words(s),
{
    lemma_words_acc_wsfree(s, Seq::empty());
    lemma_assemble_keeps_words(
        words(s),
        line_breaks(words(s), width, 0, 0),
    );
}

/// The lines of the wrapped text from word `i` on, with `cur` the line
/// built so far: a break starts a fresh line holding the continuation
/// prefix and the word, while every other word joins the current line after
/// a single space (the very first word directly after the prefix).  By
/// construction every line is a prefix followed by whole words.
pub open spec fn wrapped_lines_from(
    ws: Seq<Seq<char>>,
    b: Seq<bool>,
    cont: Seq<char>,
    i: int,
    cur: Seq<char>,
) -> Seq<Seq<char>>
    decreases ws.len() - i,
{
    if i < 0 || i >= ws.len() {
        seq![cur]
    } else if i < b.len() && b[i] {
        seq![cur] + wrapped_lines_from(ws, b, cont, i + 1, cont + ws[i])
    } else if i == 0 {
        wrapped_lines_from(ws, b, cont, 1, cur + ws[0])
    } else {
        wrapped_lines_from(ws, b, cont, i + 1, cur + seq![' '] + ws[i])
    }
}

/// Reading a newline-free piece of text extends the current line with it.
proof fn lemma_split_through_piece(w: Seq<char>, rest: Seq<char>, cur: Seq<char>)
    requires
        forall|t: int| 0 <= t < w.len() ==> w[t] != '\n',
    ensures
        crate::strutil::split_newlines_acc(w + rest, cur) == crate::strutil::split_newlines_acc(
            rest,
            cur + w,
        ),
    decreases w.len(),
{
    if w.len() == 0 {
        assert(w + rest =~= rest);
        assert(cur + w =~= cur);
    } else {
        assert((w + rest)[0] == w[0]);
        assert((w + rest).drop_first() =~= w.drop_first() + rest);
        assert(cur.push(w[0]) + w.drop_first() =~= cur + w);
        lemma_split_through_piece(w.drop_first(), rest, cur.push(w[0]));
    }
}

/// Splitting the assembled text at newlines yields exactly the lines that
/// [`wrapped_lines_from`] describes.
proof fn lemma_split_assemble(
    ws: Seq<Seq<char>>,
    b: Seq<bool>,
    cont: Seq<char>,
    i: int,
    cur: Seq<char>,
)
    requires
        0 <= i <= ws.len(),
        forall|t: int| 0 <= t < cont.len() ==> cont[t] != '\n',
        forall|k: int, t: int|
            0 <= k < ws.len() && 0 <= t < ws[k].len() ==> #[trigger] ws[k][t] != '\n',
    ensures
        crate::strutil::split_newlines_acc(assemble_from(ws, b, cont, i), cur)
            == wrapped_lines_from(ws, b, cont, i, cur),
    decreases ws.len() - i,
{
    if i >= ws.len() {
    } else {
        let rest = assemble_from(ws, b, cont, i + 1);
        if i < b.len() && b[i] {
            assert(assemble_from(ws, b, cont, i) =~= seq!['\n'] + (cont + (ws[i] + rest)));
            assert((seq!['\n'] + (cont + (ws[i] + rest))).drop_first() =~= cont + (ws[i] + rest));
            lemma_split_through_piece(cont, ws[i] + rest, Seq::empty());
            assert(Seq::<char>::empty() + cont =~= cont);
            lemma_split_through_piece(ws[i], rest, cont);
            lemma_split_assemble(ws, b, cont, i + 1, cont + ws[i]);
        } else if i == 0 {
            assert(assemble_from(ws, b, cont, 0) =~= ws[0] + rest);
            lemma_split_through_piece(ws[0], rest, cur);
            lemma_split_assemble(ws, b, cont, 1, cur + ws[0]);
        } else {
            assert(assemble_from(ws, b, cont, i) =~= seq![' '] + (ws[i] + rest));
            lemma_split_through_piece(seq![' '], ws[i] + rest, cur);
            assert(forall|t: int| 0 <= t < seq![' '].len() ==> seq![' '][t] != '\n');
            lemma_split_through_piece(ws[i], rest, cur + seq![' ']);
            lemma_split_assemble(ws, b, cont, i + 1, cur + seq![' '] + ws[i]);
            assert((cur + seq![' ']) + ws[i] =~= cur + seq![' '] + ws[i]);
        }
    }
}

/// Wrapping splits no word even with prefixes in play: every line of the
/// wrapped text is the first-line or continuation prefix followed by whole
/// words of the input joined by single spaces, in order — as long as the
/// prefixes hold no newline of their own.
pub proof fn lemma_wrap_line_structure(s: Seq<char>, width: int, first: Seq<char>, cont: Seq<char>)
    requires
        forall|t: int| 0 <= t < first.len() ==> first[t] != '\n',
        forall|t: int| 0 <= t < cont.len() ==> cont[t] != '\n',
    ensures
        crate::strutil::split_lines(wrap_spec(s, width, first, cont)) == wrapped_lines_from(
            words(s),
            line_breaks(words(s), width, first.len() as int, cont.len() as int),
            cont,
            0,
            first,
        ),
{
    let ws = words(s);
    let b = line_breaks(ws, width, first.len() as int, cont.len() as int);
    lemma_words_acc_wsfree(s, Seq::empty());
    assert forall|k: int, t: int| 0 <= k < ws.len() && 0 <= t < ws[k].len() implies #[trigger] ws[k][t]
        != '\n' by {
        assert(!is_wspace(ws[k][t]));
    }
    lemma_split_through_piece(first, assemble_from(ws, b, cont, 0), Seq::empty());
    assert(Seq::<char>::empty() + first =~= first);
    lemma_split_assemble(ws, b, cont, 0, first);
}

/// The total length of the words from `i` on, as they stand on a single
/// line: a separating space before each word but the first.
pub open spec fn suffix_len(ws: Seq<Seq<char>>, i: int) -> int
    decreases ws.len() - i,
{
    if i < 0 || i >= ws.len() {
        0
    } else {
        (if i == 0 {
            0int
        } else {
            1int
        }) + ws[i].len() + suffix_len(ws, i + 1)
    }
}

/// [`suffix_len`] is the length of the text assembled with no breaks and no
/// prefixes.
proof fn lemma_assemble_false_len(ws: Seq<Seq<char>>, i: int)
    requires
        0 <= i <= ws.len(),
    ensures
        assemble_from(ws, Seq::new(ws.len(), |k: int| false), Seq::empty(), i).len() == suffix_len(
            ws,
            i,
        ),
        suffix_len(ws, i) >= 0,
    decreases ws.len() - i,
{
    if i < ws.len() {
        lemma_assemble_false_len(ws, i + 1);
    }
}

/// With everything from word `i` on fitting within the width of the current
/// line, the greedy wrapper decides on no further break.
proof fn lemma_no_breaks(ws: Seq<Seq<char>>, width: int, cur: int, i: int)
    requires
        0 <= i <= ws.len(),
        cur + suffix_len(ws, i) <= width,
        i == 0 ==> cur == 0,
        i == 0 && ws.len() > 0 ==> ws[0].len() + 1 <= width,
        cur >= 0,
    ensures
        breaks_from(ws, width, cur, 0, i) == Seq::new((ws.len() - i) as nat, |k: int| false),
    decreases ws.len() - i,
{
    if i < ws.len() {
        lemma_assemble_false_len(ws, i + 1);
        assert(suffix_len(ws, i) == (if i == 0 {
            0int
        } else {
            1int
        }) + ws[i].len() + suffix_len(ws, i + 1));
        let over = cur + ws[i].len() + 1 > width;
        if i == 0 {
            assert(!over);
        } else {
            assert(cur + ws[i].len() + 1 <= cur + suffix_len(ws, i) <= width);
            assert(!over);
        }
        let next = if i == 0 {
            cur + ws[i].len()
        } else {
            cur + 1 + ws[i].len()
        };
        lemma_no_breaks(ws, width, next, i + 1);
        assert(breaks_from(ws, width, cur, 0, i) =~= Seq::new(
            (ws.len() - i) as nat,
            |k: int| false,
        ));
    } else {
        assert(breaks_from(ws, width, cur, 0, i) =~= Seq::new(
            (ws.len() - i) as nat,
            |k: int| false,
        ));
    }
}

/// `s` is its own words joined by single spaces: no leading or trailing
/// whitespace, and no whitespace run longer than one space.
pub open spec fn single_space_form(s: Seq<char>) -> bool {
    s == assemble(
        words(s),
        Seq::new(words(s).len(), |k: int| false),
        Seq::empty(),
        Seq::empty(),
    )
}

/// Text that already fits needs no wrapping: a string in single-space form
/// whose length is within the width comes back from the wrapper unchanged.
/// A single word filling the width exactly is the one exception — the
/// greedy rule accounts for a separating space even there and moves the
/// word to a fresh line — so that case is excluded.
pub proof fn lemma_wrap_fitting_text_unchanged(s: Seq<char>, width: int)
    requires
        single_space_form(s),
        s.len() <= width,
        words(s).len() == 1 ==> s.len() + 1 <= width,
    ensures
        wrap_spec(s, width, Seq::empty(), Seq::empty()) == s,
{
    let ws = words(s);
    let bfalse = Seq::new(ws.len(), |k: int| false);
    lemma_assemble_false_len(ws, 0);
    assert(assemble(ws, bfalse, Seq::empty(), Seq::empty()).len() == suffix_len(ws, 0)) by {
        assert(Seq::<char>::empty() + assemble_from(ws, bfalse, Seq::empty(), 0) =~= assemble_from(
            ws,
            bfalse,
            Seq::empty(),
            0,
        ));
    }
    assert(suffix_len(ws, 0) == s.len());
    if ws.len() > 0 {
        assert(ws[0].len() + 1 <= width) by {
            if ws.len() == 1 {
                assert(suffix_len(ws, 1) == 0);
                assert(ws[0].len() == s.len());
            } else {
                lemma_assemble_false_len(ws, 2);
                assert(suffix_len(ws, 1) == 1 + ws[1].len() + suffix_len(ws, 2));
                assert(ws[0].len() + 1 <= suffix_len(ws, 0));
            }
        }
    }
    lemma_no_breaks(ws, width, 0, 0);
    assert(line_breaks(ws, width, 0, 0) == bfalse);
}

/// What [`centered_string`] returns: `s` preceded by enough spaces to end at
/// column `width / 2 + len / 2`.  The pad count uses integer division, so the
/// result is not perfectly symmetric for odd differences; a string already
/// longer than the target gets no padding.
pub open spec fn centered_spec(s: Seq<char>, width: int) -> Seq<char> {
    let target = width / 2 + s.len() / 2;
    if target > s.len() {
        spaces(target - s.len()) + s
    } else {
        s
    }
}

/// Pads `s` with leading spaces so that it appears centered in a field of
/// `width` columns.
pub fn centered_string(s: &str, width: usize) -> (r: String)
    ensures
        r@ == centered_spec(s@, width as int),
{
    let sv = str_to_chars(s);
    let len: usize = sv.len();
    let target: usize = width / 2 + len / 2;
    let mut out: Vec<char> = Vec::new();
    if target > len {
        push_spaces(&mut out, target - len);
    }
    push_chars(&mut out, &sv);
    proof {
        if width as int / 2 + s@.len() as int / 2 > s@.len() {
            assert(out@ =~= centered_spec(s@, width as int));
        } else {
            assert(out@ =~= s@);
        }
    }
    chars_to_string(&out)
}

/// `s` with every leading space removed.
pub open spec fn strip_leading_spaces(s: Seq<char>) -> Seq<char>
    decreases s.len(),
{
    if s.len() > 0 && s[0] == ' ' {
        strip_leading_spaces(s.drop_first())
    } else {
        s
    }
}

/// `s` with every trailing space removed.
pub open spec fn strip_trailing_spaces(s: Seq<char>) -> Seq<char>
    decreases s.len(),
{
    if s.len() > 0 && s.last() == ' ' {
        strip_trailing_spaces(s.drop_last())
    } else {
        s
    }
}

/// `s` with leading and trailing spaces removed.
pub open spec fn strip_spaces(s: Seq<char>) -> Seq<char> {
    strip_trailing_spaces(strip_leading_spaces(s))
}

/// Stripping leading spaces ignores a run of spaces put in front.
proof fn lemma_strip_leading_spaces_concat(n: int, s: Seq<char>)
    requires
        n >= 0,
    ensures
        strip_leading_spaces(spaces(n) + s) == strip_leading_spaces(s),
    decreases n,
{
    if n == 0 {
        assert(spaces(0) + s =~= s);
    } else {
        lemma_spaces_len(n);
        lemma_spaces_len(n - 1);
        assert((spaces(n) + s)[0] == ' ');
        assert((spaces(n) + s).drop_first() =~= spaces(n - 1) + s);
        lemma_strip_leading_spaces_concat(n - 1, s);
    }
}

/// Centering adds only leading spaces: stripping spaces from both ends of
/// the centered string recovers the original exactly, as long as the
/// original neither begins nor ends with a space of its own.
pub proof fn lemma_centered_strip(s: Seq<char>, width: int)
    requires
        s.len() > 0 ==> s[0] != ' ' && s.last() != ' ',
    ensures
        strip_spaces(centered_spec(s, width)) == s,
{
    let target = width / 2 + s.len() as int / 2;
    if target > s.len() {
        lemma_strip_leading_spaces_concat(target - s.len(), s);
    }
}

/// What [`right_and_left_aligned`] returns when a right part is present:
/// `l`, then enough spaces for `r` to end exactly at column `width`.  When
/// the two parts do not both fit, no padding is inserted and the line simply
/// overflows — a crash on underflow is deliberately avoided.
pub open spec fn two_sided_spec(l: Seq<char>, r: Seq<char>, width: int) -> Seq<char> {
    l + spaces(width - l.len() - r.len()) + r
}

/// Left-aligns `l` and right-aligns `r` within a field of `width` columns.
pub fn right_and_left_aligned(l: &str, r: Option<&str>, width: usize) -> (res: String)
    ensures
        match r {
            Some(rs) => res@ == two_sided_spec(l@, rs@, width as int),
            None => res@ == l@,
        },
{
    match r {
        Some(rs) => {
            let lv = str_to_chars(l);
            let rv = str_to_chars(rs);
            let mut out: Vec<char> = Vec::new();
            push_chars(&mut out, &lv);
            if width > lv.len() && width - lv.len() > rv.len() {
                push_spaces(&mut out, width - lv.len() - rv.len());
            }
            push_chars(&mut out, &rv);
            proof {
                assert(out@ =~= two_sided_spec(l@, rs@, width as int));
            }
            chars_to_string(&out)
        },
        None => {
            let lv = str_to_chars(l);
            chars_to_string(&lv)
        },
    }
}

} // verus!
