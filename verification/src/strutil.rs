//! Low-level helpers for moving between `String`, `&str` and `Vec<char>`.
//!
//! All layout logic in this crate works on sequences of characters, so the
//! renderers first turn their input strings into character vectors, work on
//! those, and turn the result back into a `String` at the end.

use vstd::prelude::*;
use vstd::string::{StrSliceExecFns, StringExecFns};

verus! {

/// Relies on `String::push`: appends the given character to the end of the
/// string, leaving the rest unchanged.
#[verifier::external_body]
pub(crate) fn push_char(s: &mut String, c: char)
    ensures
        final(s)@ == old(s)@.push(c),
{
    s.push(c);
}

/// The characters of `s`, in order, as a vector.
pub(crate) fn str_to_chars(s: &str) -> (r: Vec<char>)
    ensures
        r@ == s@,
{
    let n = s.unicode_len();
    let mut v: Vec<char> = Vec::new();
    let mut i: usize = 0;
    while i < n
        invariant
            i <= n,
            n == s@.len(),
            v@ == s@.subrange(0, i as int),
        decreases n - i,
    {
        let c = s.get_char(i);
        v.push(c);
        proof {
            assert(s@.subrange(0, i as int).push(s@[i as int]) =~= s@.subrange(0, i + 1 as int));
        }
        i = i + 1;
    }
    proof {
        assert(s@.subrange(0, n as int) =~= s@);
    }
    v
}

/// A `String` holding exactly the characters of `v`, in order.
pub(crate) fn chars_to_string(v: &Vec<char>) -> (r: String)
    ensures
        r@ == v@,
{
    let mut s = String::new();
    let mut i: usize = 0;
    while i < v.len()
        invariant
            i <= v@.len(),
            s@ == v@.subrange(0, i as int),
        decreases v@.len() - i,
    {
        push_char(&mut s, v[i]);
        proof {
            assert(v@.subrange(0, i as int).push(v@[i as int]) =~= v@.subrange(0, i + 1 as int));
        }
        i = i + 1;
    }
    proof {
        assert(v@.subrange(0, v@.len() as int) =~= v@);
    }
    s
}

/// Appends all characters of `src` to `dst`.
pub(crate) fn push_chars(dst: &mut Vec<char>, src: &Vec<char>)
    ensures
        final(dst)@ == old(dst)@ + src@,
{
    let mut i: usize = 0;
    while i < src.len()
        invariant
            i <= src@.len(),
            dst@ == old(dst)@ + src@.subrange(0, i as int),
        decreases src@.len() - i,
    {
        dst.push(src[i]);
        proof {
            assert(old(dst)@ + src@.subrange(0, i as int).push(src@[i as int])
                =~= old(dst)@ + src@.subrange(0, i + 1 as int));
        }
        i = i + 1;
    }
    proof {
        assert(old(dst)@ + src@.subrange(0, src@.len() as int) =~= old(dst)@ + src@);
    }
}

/// Appends the characters of `s` to `dst`.
pub(crate) fn push_str_chars(dst: &mut Vec<char>, s: &str)
    ensures
        final(dst)@ == old(dst)@ + s@,
{
    let v = str_to_chars(s);
    push_chars(dst, &v);
}

/// A sequence of `n` space characters.
pub open spec fn spaces(n: int) -> Seq<char>
    decreases n,
{
    if n <= 0 {
        Seq::empty()
    } else {
        spaces(n - 1).push(' ')
    }
}

/// Appends `n` spaces to `dst`.
pub(crate) fn push_spaces(dst: &mut Vec<char>, n: usize)
    ensures
        final(dst)@ == old(dst)@ + spaces(n as int),
{
    let mut i: usize = 0;
    while i < n
        invariant
            i <= n,
            dst@ == old(dst)@ + spaces(i as int),
        decreases n - i,
    {
        dst.push(' ');
        i = i + 1;
    }
}

/// `items` joined into one sequence with `sep` between consecutive items.
pub open spec fn join_sep(items: Seq<Seq<char>>, sep: Seq<char>) -> Seq<char>
    decreases items.len(),
{
    if items.len() == 0 {
        Seq::empty()
    } else if items.len() == 1 {
        items[0]
    } else {
        join_sep(items.drop_last(), sep) + sep + items.last()
    }
}

/// The views of a sequence of strings.
pub open spec fn seq_views(ss: Seq<String>) -> Seq<Seq<char>> {
    ss.map_values(|s: String| s@)
}

/// Joins `items` with `sep` between consecutive items.
pub fn join_strings(items: &Vec<String>, sep: &str) -> (r: String)
    ensures
        r@ == join_sep(seq_views(items@), sep@),
{
    if items.len() == 0 {
        return String::new();
    }
    let mut acc: String = items[0].clone();
    proof {
        assert(seq_views(items@.subrange(0, 1))[0] == items@[0]@);
        assert(acc@ == join_sep(seq_views(items@.subrange(0, 1)), sep@));
    }
    let mut i: usize = 1;
    while i < items.len()
        invariant
            1 <= i <= items@.len(),
            acc@ == join_sep(seq_views(items@.subrange(0, i as int)), sep@),
        decreases items@.len() - i,
    {
        acc = acc.concat(sep).concat(items[i].as_str());
        proof {
            let pre = seq_views(items@.subrange(0, i + 1 as int));
            assert(pre.drop_last() =~= seq_views(items@.subrange(0, i as int)));
            assert(pre.last() == items@[i as int]@);
        }
        i = i + 1;
    }
    proof {
        assert(items@.subrange(0, items@.len() as int) =~= items@);
    }
    acc
}

/// The views of a sequence of character vectors.
pub open spec fn vec_views(vs: Seq<Vec<char>>) -> Seq<Seq<char>> {
    vs.map_values(|v: Vec<char>| v@)
}

/// The pieces of `s` between newline characters, with `cur` the partial
/// piece read so far.  Empty pieces are kept, so joining the result with
/// newlines restores `s` exactly.
pub open spec fn split_newlines_acc(s: Seq<char>, cur: Seq<char>) -> Seq<Seq<char>>
    decreases s.len(),
{
    if s.len() == 0 {
        seq![cur]
    } else if s[0] == '\n' {
        seq![cur] + split_newlines_acc(s.drop_first(), Seq::empty())
    } else {
        split_newlines_acc(s.drop_first(), cur.push(s[0]))
    }
}

/// The lines of `s`: the pieces between newline characters, empties kept.
pub open spec fn split_lines(s: Seq<char>) -> Seq<Seq<char>> {
    split_newlines_acc(s, Seq::empty())
}

/// Splits `v` at newline characters, keeping empty pieces.
pub fn split_newlines(v: &Vec<char>) -> (r: Vec<Vec<char>>)
    ensures
        vec_views(r@) == split_lines(v@),
{
    let mut out: Vec<Vec<char>> = Vec::new();
    let mut cur: Vec<char> = Vec::new();
    let ghost mut g: Seq<Seq<char>> = Seq::empty();
    let mut i: usize = 0;
    proof {
        assert(v@.skip(0) =~= v@);
        assert(g + split_newlines_acc(v@, cur@) =~= split_newlines_acc(v@, cur@));
    }
    while i < v.len()
        invariant
            i <= v@.len(),
            g.len() == out@.len(),
            forall|k: int| 0 <= k < g.len() ==> out@[k]@ == g[k],
            split_lines(v@) == g + split_newlines_acc(v@.skip(i as int), cur@),
        decreases v@.len() - i,
    {
        let ghost cur0 = cur@;
        let ghost rest0 = v@.skip(i as int);
        let c = v[i];
        proof {
            assert(rest0[0] == v@[i as int]);
            assert(rest0.drop_first() =~= v@.skip(i + 1 as int));
        }
        if c == '\n' {
            out.push(cur);
            proof {
                g = g.push(cur0);
                assert(split_newlines_acc(rest0, cur0) == seq![cur0] + split_newlines_acc(
                    v@.skip(i + 1 as int),
                    Seq::empty(),
                ));
                assert(split_lines(v@) =~= g + split_newlines_acc(
                    v@.skip(i + 1 as int),
                    Seq::empty(),
                ));
            }
            cur = Vec::new();
        } else {
            cur.push(c);
            proof {
                assert(split_newlines_acc(rest0, cur0) == split_newlines_acc(
                    v@.skip(i + 1 as int),
                    cur0.push(v@[i as int]),
                ));
            }
        }
        i = i + 1;
    }
    proof {
        assert(v@.skip(v@.len() as int) =~= Seq::<char>::empty());
    }
    out.push(cur);
    proof {
        g = g.push(cur@);
        assert(split_lines(v@) =~= g);
        assert(vec_views(out@) =~= split_lines(v@));
    }
    out
}

/// Joins the given lines with single newline characters between them.
pub fn join_line_vecs(items: &Vec<Vec<char>>) -> (r: Vec<char>)
    ensures
        r@ == join_sep(vec_views(items@), "\n"@),
{
    proof {
        reveal_strlit("\n");
    }
    let mut out: Vec<char> = Vec::new();
    if items.len() == 0 {
        return out;
    }
    push_chars(&mut out, &items[0]);
    proof {
        assert(vec_views(items@.subrange(0, 1))[0] == items@[0]@);
        assert(out@ =~= join_sep(vec_views(items@.subrange(0, 1)), "\n"@));
    }
    let mut i: usize = 1;
    while i < items.len()
        invariant
            1 <= i <= items@.len(),
            out@ == join_sep(vec_views(items@.subrange(0, i as int)), "\n"@),
        decreases items@.len() - i,
    {
        out.push('\n');
        push_chars(&mut out, &items[i]);
        proof {
            reveal_strlit("\n");
            assert("\n"@ =~= seq!['\n']);
            let pre = vec_views(items@.subrange(0, i + 1 as int));
            assert(pre.drop_last() =~= vec_views(items@.subrange(0, i as int)));
            assert(pre.last() == items@[i as int]@);
            assert(out@ =~= join_sep(vec_views(items@.subrange(0, i as int)), "\n"@) + "\n"@
                + items@[i as int]@);
        }
        i = i + 1;
    }
    proof {
        assert(items@.subrange(0, items@.len() as int) =~= items@);
    }
    out
}

/// `sub` occurs contiguously somewhere in `s`.
pub open spec fn contains_sub(s: Seq<char>, sub: Seq<char>) -> bool {
    exists|k: int| 0 <= k <= s.len() - sub.len() && #[trigger] s.subrange(k, k + sub.len()) == sub
}

/// Whether `needle` occurs contiguously in `hay`.
pub fn contains_chars(hay: &Vec<char>, needle: &Vec<char>) -> (r: bool)
    ensures
        r == contains_sub(hay@, needle@),
{
    let m = needle.len();
    if m > hay.len() {
        proof {
            assert(!contains_sub(hay@, needle@));
        }
        return false;
    }
    let mut k: usize = 0;
    while k <= hay.len() - m
        invariant
            m == needle@.len(),
            m <= hay@.len(),
            k <= hay@.len() - m + 1,
            forall|kk: int|
                0 <= kk < k ==> #[trigger] hay@.subrange(kk, kk + needle@.len()) != needle@,
        decreases hay@.len() - m - k + 1,
    {
        let mut j: usize = 0;
        let mut matched: bool = true;
        while j < m && matched
            invariant
                m == needle@.len(),
                m <= hay@.len(),
                k + m <= hay@.len(),
                j <= m,
                hay@.len() <= usize::MAX,
                k <= hay@.len() - m,
                !matched ==> m > 0,
                matched ==> forall|t: int| 0 <= t < j ==> hay@[k + t] == needle@[t],
                !matched ==> hay@.subrange(k as int, k + needle@.len()) != needle@,
            decreases m - j,
        {
            let idx: usize = k + j;
            if hay[idx] != needle[j] {
                proof {
                    assert(hay@.subrange(k as int, k + needle@.len())[j as int] != needle@[
                        j as int]);
                }
                matched = false;
            }
            j = j + 1;
        }
        if matched {
            proof {
                assert(hay@.subrange(k as int, k + needle@.len()) =~= needle@);
                assert(contains_sub(hay@, needle@));
            }
            return true;
        }
        k = k + 1;
    }
    proof {
        assert(!contains_sub(hay@, needle@));
    }
    false
}

/// `spaces(n)` really has `n` characters, all of them spaces.
pub proof fn lemma_spaces_len(n: int)
    requires
        n >= 0,
    ensures
        spaces(n).len() == n,
        forall|i: int| 0 <= i < n ==> spaces(n)[i] == ' ',
    decreases n,
{
    if n > 0 {
        lemma_spaces_len(n - 1);
    }
}

} // verus!
