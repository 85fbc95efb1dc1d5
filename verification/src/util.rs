//! Small formatting helpers shared by the renderers: escaping of
//! markup-significant characters, URL and date strings, file-name and path
//! shaping, and the generated-by footer.

use vstd::prelude::*;
use vstd::string::{StringExecFns, StrSliceExecFns};
use chrono::Datelike;
use crate::config::Config;
use crate::strutil::{chars_to_string, push_chars, push_str_chars, str_to_chars};

verus! {

/// The characters that are significant to the typesetting markup and must be
/// escaped.
pub open spec fn is_tex_special(c: char) -> bool {
    c == '\\' || c == '&' || c == '%' || c == '$' || c == '#' || c == '_' || c == '{' || c == '}'
        || c == '~' || c == '^'
}

/// Executable test for [`is_tex_special`].
pub fn is_tex_special_char(c: char) -> (r: bool)
    ensures
        r == is_tex_special(c),
{
    c == '\\' || c == '&' || c == '%' || c == '$' || c == '#' || c == '_' || c == '{' || c == '}'
        || c == '~' || c == '^'
}

/// How one character is escaped: a markup-significant character gains a
/// single leading backslash, every other character is kept as it is.
pub open spec fn escape_char(c: char) -> Seq<char> {
    if is_tex_special(c) {
        seq!['\\', c]
    } else {
        seq![c]
    }
}

/// What [`escape_special_chars`] returns: each character escaped on its own.
/// Stating the result character by character is the ordering contract: the
/// backslashes that escaping introduces are never escaped again by the same
/// pass.
pub open spec fn escape_spec(s: Seq<char>) -> Seq<char>
    decreases s.len(),
{
    if s.len() == 0 {
        Seq::empty()
    } else {
        escape_spec(s.drop_last()) + escape_char(s.last())
    }
}

/// Escape markup-significant characters by placing a `\` in front of each.
pub fn escape_special_chars(s: &str) -> (r: String)
    ensures
        r@ == escape_spec(s@),
{
    let sv = str_to_chars(s);
    let mut out: Vec<char> = Vec::new();
    let mut i: usize = 0;
    while i < sv.len()
        invariant
            i <= sv@.len(),
            sv@ == s@,
            out@ == escape_spec(s@.subrange(0, i as int)),
        decreases sv@.len() - i,
    {
        let c = sv[i];
        if is_tex_special_char(c) {
            out.push('\\');
            out.push(c);
        } else {
            out.push(c);
        }
        proof {
            let pre = s@.subrange(0, i + 1 as int);
            assert(pre.drop_last() =~= s@.subrange(0, i as int));
            assert(pre.last() == s@[i as int]);
            assert(out@ =~= escape_spec(s@.subrange(0, i as int)) + escape_char(s@[i as int]));
        }
        i = i + 1;
    }
    proof {
        assert(s@.subrange(0, s@.len() as int) =~= s@);
    }
    chars_to_string(&out)
}

/// Escaping a concatenation escapes the parts independently.
pub proof fn lemma_escape_append(a: Seq<char>, b: Seq<char>)
    ensures
        escape_spec(a + b) == escape_spec(a) + escape_spec(b),
    decreases b.len(),
{
    if b.len() == 0 {
        assert(a + b =~= a);
        assert(escape_spec(a) + escape_spec(b) =~= escape_spec(a));
    } else {
        lemma_escape_append(a, b.drop_last());
        assert((a + b).drop_last() =~= a + b.drop_last());
        assert((a + b).last() == b.last());
        assert(escape_spec(a) + escape_spec(b.drop_last()) + escape_char(b.last()) =~= escape_spec(
            a,
        ) + escape_spec(b));
    }
}

/// How one character comes out of escaping twice: the backslash introduced by
/// the first pass receives exactly one further backslash in the second pass,
/// and nothing compounds beyond that.
pub open spec fn escape_char_twice(c: char) -> Seq<char> {
    if c == '\\' {
        seq!['\\', '\\', '\\', '\\']
    } else if is_tex_special(c) {
        seq!['\\', '\\', '\\', c]
    } else {
        seq![c]
    }
}

/// Applying the escape twice escapes each introduced backslash exactly once:
/// a backslash of the input becomes `\\` then `\\\\`, any other
/// markup-significant character `c` becomes `\c` then `\\\c`, and ordinary
/// characters pass through both times unchanged.
pub proof fn lemma_escape_applied_twice(s: Seq<char>)
    ensures
        escape_spec(escape_spec(s)) == s.map_values(|c: char| escape_char_twice(c)).flatten(),
    decreases s.len(),
{
    let m = |c: char| escape_char_twice(c);
    if s.len() == 0 {
        assert(s.map_values(m).flatten() =~= Seq::<char>::empty());
    } else {
        lemma_escape_applied_twice(s.drop_last());
        let c = s.last();
        lemma_escape_append(escape_spec(s.drop_last()), escape_char(c));
        assert(escape_spec(escape_char(c)) =~= escape_char_twice(c)) by {
            let slash = seq!['\\'];
            assert(slash.len() == 1 && slash.last() == '\\');
            assert(slash.drop_last() =~= Seq::<char>::empty());
            assert(escape_spec(slash.drop_last()) == Seq::<char>::empty());
            assert(escape_spec(slash) == escape_spec(slash.drop_last()) + escape_char('\\'));
            assert(escape_spec(slash) =~= seq!['\\', '\\']);
            if is_tex_special(c) {
                let e = seq!['\\', c];
                assert(escape_char(c) == e);
                assert(e.len() == 2 && e.last() == c);
                assert(e.drop_last() =~= slash);
                assert(escape_spec(e) == escape_spec(slash) + escape_char(c));
                assert(escape_spec(e) =~= escape_char_twice(c));
            } else {
                let e = seq![c];
                assert(escape_char(c) == e);
                assert(e.len() == 1 && e.last() == c);
                assert(e.drop_last() =~= Seq::<char>::empty());
                assert(escape_spec(e) == escape_spec(e.drop_last()) + escape_char(c));
                assert(escape_spec(e) =~= escape_char_twice(c));
            }
        }
        assert(s.map_values(m) =~= s.drop_last().map_values(m).push(escape_char_twice(c)));
        s.drop_last().map_values(m).lemma_flatten_push(escape_char_twice(c));
        assert(escape_spec(escape_spec(s)) =~= s.map_values(m).flatten());
    }
}

/// `s` has `https://` as a prefix.
pub open spec fn has_https_prefix(s: Seq<char>) -> bool {
    s.len() >= 8 && s.subrange(0, 8) == "https://"@
}

/// What [`add_https_to_url`] returns: the URL itself when it already names
/// the scheme, otherwise the URL with `https://` put in front.
pub open spec fn add_https_spec(s: Seq<char>) -> Seq<char> {
    if has_https_prefix(s) {
        s
    } else {
        "https://"@ + s
    }
}

/// Prefixes `url` with `https://` unless it already starts with it.
pub fn add_https_to_url(url: &str) -> (r: String)
    ensures
        r@ == add_https_spec(url@),
{
    proof {
        reveal_strlit("https://");
    }
    let sv = str_to_chars(url);
    let pv = str_to_chars("https://");
    let mut matches: bool = sv.len() >= 8;
    let mut j: usize = 0;
    while j < 8 && matches
        invariant
            j <= 8,
            sv@ == url@,
            pv@ == "https://"@,
            pv@.len() == 8,
            matches ==> url@.len() >= 8,
            matches ==> forall|k: int| 0 <= k < j ==> url@[k] == "https://"@[k],
            !matches ==> !has_https_prefix(url@),
        decreases 8 - j,
    {
        if sv[j] != pv[j] {
            proof {
                assert(url@.subrange(0, 8)[j as int] != "https://"@[j as int]);
            }
            matches = false;
        }
        j = j + 1;
    }
    if matches {
        proof {
            assert(url@.subrange(0, 8) =~= "https://"@);
        }
        let mut out: Vec<char> = Vec::new();
        push_chars(&mut out, &sv);
        proof {
            assert(out@ =~= url@);
        }
        chars_to_string(&out)
    } else {
        let mut out: Vec<char> = Vec::new();
        push_chars(&mut out, &pv);
        push_chars(&mut out, &sv);
        proof {
            assert(out@ =~= "https://"@ + url@);
        }
        chars_to_string(&out)
    }
}

/// The largest index `>= lo` at which `c` occurs in `s`, or `-1` when there
/// is none.
pub open spec fn last_pos_ge(s: Seq<char>, c: char, lo: int) -> int
    decreases s.len(),
{
    if s.len() <= lo || s.len() == 0 {
        -1
    } else if s.last() == c {
        s.len() - 1
    } else {
        last_pos_ge(s.drop_last(), c, lo)
    }
}

/// When [`last_pos_ge`] finds nothing, `c` indeed occurs nowhere at or after
/// `lo`.
pub proof fn lemma_last_pos_ge_none(s: Seq<char>, c: char, lo: int)
    requires
        lo >= 0,
        last_pos_ge(s, c, lo) == -1,
    ensures
        forall|p: int| lo <= p < s.len() ==> s[p] != c,
    decreases s.len(),
{
    if s.len() > lo && s.len() > 0 {
        lemma_last_pos_ge_none(s.drop_last(), c, lo);
        assert(forall|p: int| lo <= p < s.len() - 1 ==> s[p] == s.drop_last()[p]);
    }
}

/// [`last_pos_ge`] yields `-1` or a valid index.
pub proof fn lemma_last_pos_ge_bounds(s: Seq<char>, c: char, lo: int)
    ensures
        -1 <= last_pos_ge(s, c, lo) < s.len(),
    decreases s.len(),
{
    if s.len() > lo && s.len() > 0 && s.last() != c {
        lemma_last_pos_ge_bounds(s.drop_last(), c, lo);
    }
}

/// Finds the last occurrence of `c` in `v` at an index `>= lo`.
fn find_last_ge(v: &Vec<char>, c: char, lo: usize) -> (r: Option<usize>)
    ensures
        match r {
            Some(k) => k == last_pos_ge(v@, c, lo as int),
            None => last_pos_ge(v@, c, lo as int) == -1,
        },
{
    if lo >= v.len() {
        return None;
    }
    let mut best: Option<usize> = None;
    let mut i: usize = lo;
    proof {
        assert(v@.subrange(0, lo as int).len() <= lo as int);
    }
    while i < v.len()
        invariant
            lo <= i <= v@.len(),
            match best {
                Some(k) => k == last_pos_ge(v@.subrange(0, i as int), c, lo as int),
                None => last_pos_ge(v@.subrange(0, i as int), c, lo as int) == -1,
            },
        decreases v@.len() - i,
    {
        proof {
            let pre = v@.subrange(0, i + 1 as int);
            assert(pre.drop_last() =~= v@.subrange(0, i as int));
            assert(pre.last() == v@[i as int]);
        }
        if v[i] == c {
            best = Some(i);
        }
        i = i + 1;
    }
    proof {
        assert(v@.subrange(0, v@.len() as int) =~= v@);
    }
    best
}

/// What [`get_path`] returns, before the extension is applied: the directory
/// (or `.`), a slash, and the file name.
pub open spec fn joined_path(dir: Option<String>, file_name: Seq<char>) -> Seq<char> {
    (match dir {
        Some(d) => d@,
        None => "."@,
    }) + "/"@ + file_name
}

/// What [`get_path`] returns.  The extension of the path's last component —
/// everything after the component's last dot, a dot in first position not
/// counting — is removed, and when `extension` is a non-empty string, a dot
/// and that string are appended.
pub open spec fn get_path_spec(dir: Option<String>, file_name: Seq<char>, extension: Option<
    String,
>) -> Seq<char> {
    let joined = joined_path(dir, file_name);
    let slash = last_pos_ge(joined, '/', 0);
    let dot = last_pos_ge(joined, '.', slash + 2);
    let stem = if dot >= 0 {
        joined.subrange(0, dot)
    } else {
        joined
    };
    match extension {
        Some(e) => if e@.len() > 0 {
            stem + "."@ + e@
        } else {
            stem
        },
        None => stem,
    }
}

/// Builds the path `dir/file_name`, with `dir` defaulting to the current
/// directory, and with `extension` (when present and non-empty) replacing the
/// file name's extension.
pub fn get_path(dir: Option<&String>, file_name: &str, extension: Option<&String>) -> (r: String)
    ensures
        match (dir, extension) {
            (Some(d), Some(e)) => r@ == get_path_spec(Some(*d), file_name@, Some(*e)),
            (Some(d), None) => r@ == get_path_spec(Some(*d), file_name@, None),
            (None, Some(e)) => r@ == get_path_spec(None, file_name@, Some(*e)),
            (None, None) => r@ == get_path_spec(None, file_name@, None),
        },
{
    let ghost dir_g: Option<String> = match dir {
        Some(d) => Some(*d),
        None => None,
    };
    let ghost ext_g: Option<String> = match extension {
        Some(e) => Some(*e),
        None => None,
    };
    let mut joined: Vec<char> = Vec::new();
    match dir {
        Some(d) => push_str_chars(&mut joined, d.as_str()),
        None => push_str_chars(&mut joined, "."),
    }
    push_str_chars(&mut joined, "/");
    push_str_chars(&mut joined, file_name);
    proof {
        assert(joined@ =~= joined_path(dir_g, file_name@));
        lemma_last_pos_ge_bounds(joined@, '/', 0);
    }
    let ghost slash = last_pos_ge(joined@, '/', 0);
    let slash_lo: usize = match find_last_ge(&joined, '/', 0) {
        Some(k) => {
            // the slash put in by the join above bounds the search from below
            if joined.len() >= 2 && k <= joined.len() - 2 {
                k + 2
            } else {
                joined.len()
            }
        },
        None => {
            proof {
                lemma_last_pos_ge_none(joined@, '/', 0);
                reveal_strlit("/");
                let dv = match dir_g {
                    Some(d) => d@,
                    None => "."@,
                };
                assert(joined@[dv.len() as int] == ("/"@ + file_name@)[0]);
                assert(false);
            }
            joined.len()
        },
    };
    proof {
        if slash + 2 <= joined@.len() {
            assert(slash_lo as int == slash + 2);
        } else {
            assert(joined@.len() <= slash + 2);
            assert(last_pos_ge(joined@, '.', slash + 2) == -1);
            assert(joined@.len() <= slash_lo as int);
            assert(last_pos_ge(joined@, '.', slash_lo as int) == -1);
        }
        lemma_last_pos_ge_bounds(joined@, '.', slash_lo as int);
    }
    let dot = find_last_ge(&joined, '.', slash_lo);
    let stem: Vec<char> = match dot {
        Some(k) => {
            let mut st: Vec<char> = Vec::new();
            let mut i: usize = 0;
            while i < k
                invariant
                    i <= k,
                    k < joined@.len(),
                    st@ == joined@.subrange(0, i as int),
                decreases k - i,
            {
                st.push(joined[i]);
                proof {
                    assert(joined@.subrange(0, i as int).push(joined@[i as int]) =~= joined@
                        .subrange(0, i + 1 as int));
                }
                i = i + 1;
            }
            st
        },
        None => joined,
    };
    let mut out: Vec<char> = stem;
    match extension {
        Some(e) => {
            if e.as_str().unicode_len() > 0 {
                push_str_chars(&mut out, ".");
                push_str_chars(&mut out, e.as_str());
            }
        },
        None => {},
    }
    proof {
        assert(out@ =~= get_path_spec(dir_g, file_name@, ext_g));
    }
    chars_to_string(&out)
}

/// Joins a start and an end date as `start - end`.
pub fn time_range_string(start: &str, end: &str) -> (r: String)
    ensures
        r@ == start@ + " - "@ + end@,
{
    String::from_str(start).concat(" - ").concat(end)
}

/// Picks the file name for a generated cover letter: the explicitly
/// configured name when one was given, otherwise the output name with
/// `-cover_letter` appended.
pub fn cover_letter_file_name(config: &Config) -> (r: String)
    ensures
        match config.args.cover_letter_output_name {
            Some(name) => r@ == name@,
            None => r@ == config.args.output_name@ + "-cover_letter"@,
        },
{
    match &config.args.cover_letter_output_name {
        Some(name) => name.clone(),
        None => String::from_str(config.args.output_name.as_str()).concat("-cover_letter"),
    }
}

/// Relies on chrono's `Local::now`, `Datelike` and `format`: the current
/// local date, written as day, full English month name and year, e.g.
/// `24 June 2021`.  The result depends on the wall clock, so nothing is
/// promised of it.
#[verifier::external_body]
pub fn date_string() -> String {
    let now = chrono::Local::now();
    format!("{} {} {}", now.day(), now.format("%B"), now.year())
}

/// The fixed URL named in the generated-by footer.
pub open spec fn footer_url() -> Seq<char> {
    "github.com/spencewenski/resume_generator"@
}

/// The footer prefix for a given date string.
pub open spec fn footer_prefix_of(date: Seq<char>) -> Seq<char> {
    "Updated on "@ + date + " using"@
}

/// The whole footer line for a given date string.
pub open spec fn footer_basic_of(date: Seq<char>) -> Seq<char> {
    footer_prefix_of(date) + " "@ + footer_url()
}

/// The text placed at the bottom of every rendered resume: when it was
/// generated, and by what.
pub struct FooterText {
    pub basic_text: String,
    pub prefix: String,
    pub url: String,
}

impl FooterText {
    /// Builds the footer for the given date string.
    pub fn new_with_date(date: &str) -> (r: FooterText)
        ensures
            r.prefix@ == footer_prefix_of(date@),
            r.url@ == footer_url(),
            r.basic_text@ == r.prefix@ + " "@ + r.url@,
    {
        let prefix = String::from_str("Updated on ").concat(date).concat(" using");
        let url = String::from_str("github.com/spencewenski/resume_generator");
        let basic_text = prefix.clone().concat(" ").concat(url.as_str());
        FooterText { basic_text, prefix, url }
    }

    /// Builds the footer for today, read from the wall clock.
    pub fn new() -> (r: FooterText)
        ensures
            r.url@ == footer_url(),
            r.basic_text@ == r.prefix@ + " "@ + r.url@,
            exists|d: Seq<char>| r.prefix@ == footer_prefix_of(d),
    {
        let today = date_string();
        let r = FooterText::new_with_date(today.as_str());
        proof {
            assert(exists|d: Seq<char>| r.prefix@ == footer_prefix_of(d)) by {
                assert(r.prefix@ == footer_prefix_of(today@));
            }
        }
        r
    }
}

impl Default for FooterText {
    fn default() -> (r: Self)
        ensures
            r.url@ == footer_url(),
            r.basic_text@ == r.prefix@ + " "@ + r.url@,
    {
        FooterText::new()
    }
}

/// `true`, as a named function (used as a field default by loaders).
pub fn default_true() -> (r: bool)
    ensures
        r,
{
    true
}

/// `false`, as a named function (used as a field default by loaders).
pub fn default_false() -> (r: bool)
    ensures
        !r,
{
    false
}

} // verus!
