use vstd::prelude::*;
use vstd::string::StrSliceExecFns;
use vstd::string::StringExecFns;

verus! {

// ---------------------------------------------------------------------------
// Occurrence of a pattern at an index
// ---------------------------------------------------------------------------

/// `pat` occurs in `s` starting at index `i`.
pub open spec fn pat_at(s: Seq<char>, pat: Seq<char>, i: int) -> bool {
    0 <= i && i + pat.len() <= s.len() && s.subrange(i, i + pat.len()) == pat
}

proof fn lemma_pat_mismatch(s: Seq<char>, pat: Seq<char>, i: int, j: int)
    requires
        0 <= i,
        i + pat.len() <= s.len(),
        0 <= j < pat.len(),
        s[i + j] != pat[j],
    ensures
        !pat_at(s, pat, i),
{
    assert(s.subrange(i, i + pat.len())[j] == s[i + j]);
}

/// Whether `pat` occurs in `s` at index `i`, by comparing characters.
pub(crate) fn pat_match_at(s: &str, n: usize, i: usize, pat: &str, m: usize) -> (r: bool)
    requires
        n == s@.len(),
        m == pat@.len(),
        i + m <= n,
    ensures
        r == pat_at(s@, pat@, i as int),
{
    let mut j: usize = 0;
    while j < m
        invariant
            n == s@.len(),
            m == pat@.len(),
            i + m <= n,
            j <= m,
            forall|t: int| 0 <= t < j ==> s@[i + t] == pat@[t],
        decreases m - j,
    {
        if s.get_char(i + j) != pat.get_char(j) {
            proof {
                lemma_pat_mismatch(s@, pat@, i as int, j as int);
            }
            return false;
        }
        j += 1;
    }
    proof {
        assert forall|t: int| 0 <= t < m implies s@.subrange(
            i as int,
            i as int + m as int,
        )[t] == pat@[t] by {
            assert(s@[i + t] == pat@[t]);
        }
        assert(s@.subrange(i as int, i as int + m as int) =~= pat@);
    }
    true
}

// ---------------------------------------------------------------------------
// Bare-path rewriting: every `/` becomes `base` + `/`
// ---------------------------------------------------------------------------

pub open spec fn rewrite_bare_path_from(s: Seq<char>, base: Seq<char>, i: int) -> Seq<char>
    decreases s.len() - i,
{
    if i < 0 || i >= s.len() {
        Seq::empty()
    } else if s[i] == '/' {
        base + seq!['/'] + rewrite_bare_path_from(s, base, i + 1)
    } else {
        seq![s[i]] + rewrite_bare_path_from(s, base, i + 1)
    }
}

/// Every `/` in `s` replaced by `base` followed by `/` — the blunt textual
/// rewrite used on permalink-shaped strings, not on general HTML.
pub open spec fn rewrite_bare_path_seq(s: Seq<char>, base: Seq<char>) -> Seq<char> {
    rewrite_bare_path_from(s, base, 0)
}

pub fn rewrite_bare_path(text: &str, base: &str) -> (r: String)
    ensures
        r@ == rewrite_bare_path_seq(text@, base@),
{
    let n: usize = text.unicode_len();
    let mut out = String::new();
    let mut i: usize = 0;
    while i < n
        invariant
            n == text@.len(),
            i <= n,
            out@ + rewrite_bare_path_from(text@, base@, i as int) == rewrite_bare_path_seq(
                text@,
                base@,
            ),
        decreases n - i,
    {
        let c = text.get_char(i);
        let ghost prev = out@;
        if c == '/' {
            out.append(base);
            out.append("/");
            proof {
                reveal_strlit("/");
                assert("/"@ =~= seq!['/']);
                assert(out@ + rewrite_bare_path_from(text@, base@, i as int + 1) =~= prev
                    + rewrite_bare_path_from(text@, base@, i as int));
            }
        } else {
            let piece = text.substring_char(i, i + 1);
            out.append(piece);
            proof {
                assert(piece@ =~= seq![text@[i as int]]);
                assert(out@ + rewrite_bare_path_from(text@, base@, i as int + 1) =~= prev
                    + rewrite_bare_path_from(text@, base@, i as int));
            }
        }
        i += 1;
    }
    proof {
        assert(out@ + rewrite_bare_path_from(text@, base@, n as int) =~= out@);
    }
    out
}

// ---------------------------------------------------------------------------
// Relative-date idiom: "<digits> hrs" becomes "-<digits> hours"
// ---------------------------------------------------------------------------

pub open spec fn is_digit(c: char) -> bool {
    48 <= c as u32 <= 57
}

/// The whole string is one or more digits followed by `" hrs"`.
pub open spec fn hrs_form(s: Seq<char>) -> bool {
    s.len() >= 5 && pat_at(s, " hrs"@, s.len() - 4) && (forall|i: int|
        0 <= i < s.len() - 4 ==> is_digit(s[i]))
}

/// The site-specific relative-time idiom `"<N> hrs"` rewritten to the
/// natural-language expression `"-<N> hours"`; any other string is unchanged.
pub open spec fn rewrite_hrs_seq(s: Seq<char>) -> Seq<char> {
    if hrs_form(s) {
        "-"@ + s.subrange(0, s.len() - 4) + " hours"@
    } else {
        s
    }
}

/// Recognise the `"<N> hrs"` idiom and rewrite it; best-effort, never fails.
pub fn rewrite_relative_date(text: &str) -> (r: String)
    ensures
        r@ == rewrite_hrs_seq(text@),
{
    let n: usize = text.unicode_len();
    let suffix = " hrs";
    let m: usize = suffix.unicode_len();
    proof {
        reveal_strlit(" hrs");
        assert(m == 4);
    }
    if n < 5 {
        return String::from_str(text);
    }
    if !pat_match_at(text, n, n - 4, suffix, m) {
        return String::from_str(text);
    }
    let mut i: usize = 0;
    while i < n - 4
        invariant
            n == text@.len(),
            n >= 5,
            i <= n - 4,
            forall|t: int| 0 <= t < i ==> is_digit(text@[t]),
        decreases n - i,
    {
        let c = text.get_char(i);
        let u: u32 = c as u32;
        if u < 48 || u > 57 {
            proof {
                assert(!is_digit(text@[i as int]));
            }
            return String::from_str(text);
        }
        i += 1;
    }
    let digits = text.substring_char(0, n - 4);
    let mut out = String::from_str("-");
    out.append(digits);
    out.append(" hours");
    proof {
        assert(hrs_form(text@));
    }
    out
}

// ---------------------------------------------------------------------------
// Permalink id recovery: the first "&id=" followed by a non-"&" run
// ---------------------------------------------------------------------------

/// The capture pattern `"&id="` matches at `i` with a non-empty capture.
pub open spec fn id_at(s: Seq<char>, i: int) -> bool {
    pat_at(s, "&id="@, i) && i + 4 < s.len() && s[i + 4] != '&'
}

pub open spec fn has_id(s: Seq<char>) -> bool {
    exists|i: int| id_at(s, i)
}

/// No `'&'` occurs in `s` at an index in `[a, b)`.
pub open spec fn amp_free(s: Seq<char>, a: int, b: int) -> bool {
    forall|m: int| a <= m < b ==> s[m] != '&'
}

/// `id` is the capture of the first `"&id="` match in `u`: the maximal
/// non-empty run of characters other than `'&'` that follows the earliest
/// occurrence of the marker.
pub open spec fn id_capture_of(u: Seq<char>, id: Seq<char>) -> bool {
    exists|i: int, e: int| id_capture_at(u, id, i, e)
}

/// The capture starts right after the earliest `"&id="` match, at `i + 4`,
/// and runs to `e`, the next `'&'` or the end of the string.
pub open spec fn id_capture_at(u: Seq<char>, id: Seq<char>, i: int, e: int) -> bool {
    &&& id_at(u, i)
    &&& forall|j: int| 0 <= j < i ==> !id_at(u, j)
    &&& i + 5 <= e <= u.len()
    &&& amp_free(u, i + 4, e)
    &&& (e == u.len() || u[e] == '&')
    &&& id == u.subrange(i + 4, e)
}

/// Law: a captured identifier is never empty — a post id recovered from a
/// permalink always has at least one character.
pub proof fn lemma_id_capture_nonempty(u: Seq<char>, id: Seq<char>)
    requires
        id_capture_of(u, id),
    ensures
        id.len() > 0,
{
    let (i, e) = choose|i: int, e: int| id_capture_at(u, id, i, e);
    assert(id.len() == e - (i + 4));
}

/// Recover a post identifier from a permalink: the capture of the first
/// occurrence of `"&id="` followed by at least one character other than `'&'`;
/// the capture runs to the next `'&'` or to the end of the string.
pub fn extract_id_from_permalink(url: &str) -> (r: Result<String, crate::error::Error>)
    ensures
        match r {
            Ok(id) => id_capture_of(url@, id@) && id@.len() > 0,
            Err(err) => err == crate::error::Error::NotFound && !has_id(url@),
        },
{
    let n: usize = url.unicode_len();
    let m: usize = "&id=".unicode_len();
    proof {
        reveal_strlit("&id=");
        assert(m == 4);
    }
    let mut i: usize = 0;
    while n - i >= 5 && i < n
        invariant
            n == url@.len(),
            m == "&id="@.len(),
            m == 4,
            i <= n,
            forall|j: int| 0 <= j < i ==> !id_at(url@, j),
        decreases n - i,
    {
        if pat_match_at(url, n, i, "&id=", m) && url.get_char(i + 4) != '&' {
            let mut e: usize = i + 5;
            while e < n
                invariant_except_break
                    n == url@.len(),
                    i + 5 <= e <= n,
                    amp_free(url@, i as int + 4, e as int),
                    url@[i as int + 4] != '&',
                ensures
                    i + 5 <= e <= n,
                    amp_free(url@, i as int + 4, e as int),
                    e == n || url@[e as int] == '&',
                decreases n - e,
            {
                if url.get_char(e) == '&' {
                    break ;
                }
                e += 1;
            }
            let id = String::from_str(url.substring_char(i + 4, e));
            proof {
                assert(id_at(url@, i as int));
                assert(id_capture_at(url@, id@, i as int, e as int));
            }
            return Ok(id);
        }
        proof {
            assert(!id_at(url@, i as int));
        }
        i += 1;
    }
    proof {
        assert forall|j: int| !id_at(url@, j) by {
            if 0 <= j && j + 4 < url@.len() {
                assert(j < i);
            }
        }
    }
    Err(crate::error::Error::NotFound)
}

// ---------------------------------------------------------------------------
// Relative-href rewriting: href="/path" becomes href="<base>/path"
// ---------------------------------------------------------------------------

pub open spec fn href_prefix() -> Seq<char> {
    "href=\""@
}

/// No `'"'` occurs in `s` at an index in `[a, b)`.
pub open spec fn quote_free(s: Seq<char>, a: int, b: int) -> bool {
    forall|m: int| a <= m < b ==> s[m] != '"'
}

/// `k` closes the attribute value of a relative href starting at `i`.
pub open spec fn close_at(s: Seq<char>, i: int, k: int) -> bool {
    i + 8 <= k < s.len() && s[k] == '"' && quote_free(s, i + 7, k)
}

/// A relative href attribute begins at `i`: `href="` then `/`, at least one
/// further character other than `'"'`, and a closing quote.
pub open spec fn rel_href_at(s: Seq<char>, i: int) -> bool {
    &&& pat_at(s, href_prefix(), i)
    &&& i + 6 < s.len() && s[i + 6] == '/'
    &&& i + 7 < s.len() && s[i + 7] != '"'
    &&& exists|k: int| close_at(s, i, k)
}

pub open spec fn close_of(s: Seq<char>, i: int) -> int {
    choose|k: int| close_at(s, i, k)
}

proof fn lemma_close_unique(s: Seq<char>, i: int, k: int)
    requires
        close_at(s, i, k),
    ensures
        close_of(s, i) == k,
{
    let k2 = close_of(s, i);
    assert(close_at(s, i, k2));
    if k2 < k {
        assert(s[k2] != '"');
    }
    if k2 > k {
        assert(s[k] != '"');
    }
}

pub open spec fn rewrite_href_from(s: Seq<char>, base: Seq<char>, i: int) -> Seq<char>
    decreases s.len() - i,
{
    if i < 0 || i >= s.len() {
        Seq::empty()
    } else if rel_href_at(s, i) {
        href_prefix() + base + s.subrange(i + 6, close_of(s, i)) + "\""@ + rewrite_href_from(
            s,
            base,
            close_of(s, i) + 1,
        )
    } else {
        seq![s[i]] + rewrite_href_from(s, base, i + 1)
    }
}

/// Every relative href attribute value in `s` prefixed with `base`; href
/// attributes that do not begin with `/` are left untouched.
pub open spec fn rewrite_href_seq(s: Seq<char>, base: Seq<char>) -> Seq<char> {
    rewrite_href_from(s, base, 0)
}

/// First `'"'` in `s` at an index in `[from, n)`, if any.
fn find_quote(s: &str, n: usize, from: usize) -> (r: Option<usize>)
    requires
        n == s@.len(),
        from <= n,
    ensures
        match r {
            Some(k) => from <= k < n && s@[k as int] == '"' && quote_free(
                s@,
                from as int,
                k as int,
            ),
            None => quote_free(s@, from as int, n as int),
        },
{
    let mut e: usize = from;
    while e < n
        invariant
            n == s@.len(),
            from <= e <= n,
            quote_free(s@, from as int, e as int),
        decreases n - e,
    {
        if s.get_char(e) == '"' {
            return Some(e);
        }
        e += 1;
    }
    None
}

/// Decide whether a relative href attribute begins at `i`, returning the
/// index of its closing quote when it does.
fn rel_href_check(s: &str, n: usize, i: usize) -> (r: Option<usize>)
    requires
        n == s@.len(),
        i < n,
    ensures
        match r {
            Some(k) => close_at(s@, i as int, k as int) && rel_href_at(s@, i as int) && i + 8 <= k
                < n,
            None => !rel_href_at(s@, i as int),
        },
{
    let pat = "href=\"";
    let m: usize = pat.unicode_len();
    proof {
        reveal_strlit("href=\"");
        assert(m == 6);
    }
    if n - i < 9 {
        proof {
            if rel_href_at(s@, i as int) {
                let k = choose|k: int| close_at(s@, i as int, k);
                assert(k < n);
            }
        }
        return None;
    }
    if !pat_match_at(s, n, i, pat, m) {
        return None;
    }
    if s.get_char(i + 6) != '/' {
        return None;
    }
    if s.get_char(i + 7) == '"' {
        return None;
    }
    match find_quote(s, n, i + 8) {
        Some(k) => {
            proof {
                assert(quote_free(s@, i as int + 7, k as int));
                assert(close_at(s@, i as int, k as int));
            }
            Some(k)
        },
        None => {
            proof {
                assert forall|k: int| !close_at(s@, i as int, k) by {
                    if i as int + 8 <= k < n as int {
                        assert(s@[k] != '"');
                    }
                }
            }
            None
        },
    }
}

/// Rewrite every `href="/..."` in an HTML fragment to an absolute address
/// under `base`; absolute hrefs are left unmodified.
pub fn rewrite_relative_href(fragment: &str, base: &str) -> (r: String)
    ensures
        r@ == rewrite_href_seq(fragment@, base@),
{
    let n: usize = fragment.unicode_len();
    let mut out = String::new();
    let mut i: usize = 0;
    while i < n
        invariant
            n == fragment@.len(),
            i <= n,
            out@ + rewrite_href_from(fragment@, base@, i as int) == rewrite_href_seq(
                fragment@,
                base@,
            ),
        decreases n - i,
    {
        let ghost prev = out@;
        match rel_href_check(fragment, n, i) {
            Some(k) => {
                out.append("href=\"");
                out.append(base);
                let mid = fragment.substring_char(i + 6, k);
                out.append(mid);
                out.append("\"");
                proof {
                    lemma_close_unique(fragment@, i as int, k as int);
                    assert(out@ =~= prev + href_prefix() + base@ + fragment@.subrange(
                        i as int + 6,
                        k as int,
                    ) + "\""@);
                    assert(out@ + rewrite_href_from(fragment@, base@, k as int + 1) =~= prev
                        + rewrite_href_from(fragment@, base@, i as int));
                }
                i = k + 1;
            },
            None => {
                let piece = fragment.substring_char(i, i + 1);
                out.append(piece);
                proof {
                    assert(piece@ =~= seq![fragment@[i as int]]);
                    assert(out@ + rewrite_href_from(fragment@, base@, i as int + 1) =~= prev
                        + rewrite_href_from(fragment@, base@, i as int));
                }
                i += 1;
            },
        }
    }
    proof {
        assert(out@ + rewrite_href_from(fragment@, base@, n as int) =~= out@);
    }
    out
}

/// Law: a fragment in which no relative href attribute occurs is returned
/// unchanged by the rewrite.
pub proof fn lemma_rewrite_href_no_match(s: Seq<char>, base: Seq<char>)
    requires
        forall|i: int| !rel_href_at(s, i),
    ensures
        rewrite_href_seq(s, base) == s,
{
    lemma_rewrite_href_no_match_from(s, base, 0);
    assert(s.subrange(0, s.len() as int) =~= s);
}

proof fn lemma_rewrite_href_no_match_from(s: Seq<char>, base: Seq<char>, i: int)
    requires
        0 <= i <= s.len(),
        forall|j: int| !rel_href_at(s, j),
    ensures
        rewrite_href_from(s, base, i) == s.subrange(i, s.len() as int),
    decreases s.len() - i,
{
    if i == s.len() {
        assert(s.subrange(i, s.len() as int) =~= Seq::<char>::empty());
    } else {
        lemma_rewrite_href_no_match_from(s, base, i + 1);
        assert(seq![s[i]] + s.subrange(i + 1, s.len() as int) =~= s.subrange(i, s.len() as int));
    }
}

} // verus!
