use vstd::prelude::*;
use vstd::string::StrSliceExecFns;
use crate::text::is_digit;
use crate::text::pat_at;
use crate::text::pat_match_at;
use crate::text::rewrite_hrs_seq;
use crate::text::rewrite_relative_date;

verus! {

/// Every character is ASCII.  The date parser slices identifier prefixes by
/// byte (`&s[0..3]`), which panics on a multi-byte character boundary, so it
/// is only handed ASCII text.
pub open spec fn ascii_only(s: Seq<char>) -> bool {
    forall|i: int| 0 <= i < s.len() ==> (s[i] as u32) < 128
}

/// No run of five decimal digits anywhere.  Every number the date parser
/// reads is then at most 9999, which keeps its 32-bit month/second
/// arithmetic and the resulting years far inside their ranges.
pub open spec fn digit_runs_short(s: Seq<char>) -> bool {
    forall|i: int|
        0 <= i && i + 4 < s.len() ==> !(is_digit(#[trigger] s[i]) && is_digit(s[i + 1]) && is_digit(
            s[i + 2],
        ) && is_digit(s[i + 3]) && is_digit(s[i + 4]))
}

/// No `'-'` or `'+'` immediately before a digit.  The scanner reads such a
/// pair as a signed number, and a negative hour wraps to a huge `u32` in
/// the parser's clock arithmetic (`hour + 12`), a panic under overflow
/// checks.
pub open spec fn sign_digit_free(s: Seq<char>) -> bool {
    forall|i: int|
        0 <= i && i + 1 < s.len() ==> !((s[i] == '-' || s[i] == '+') && is_digit(
            #[trigger] s[i + 1],
        ))
}

/// Exactly the shape the idiom rewrite emits: `'-'`, one or more digits,
/// then `" hours"`.  Safe despite the leading sign: the token after the
/// number is a word, not `'.'`, `':'`, `'a'` or `'p'`, so the parser takes
/// the relative-date path, whose arithmetic the digit bound keeps in range.
pub open spec fn minus_hours_form(s: Seq<char>) -> bool {
    &&& s.len() >= 8
    &&& s[0] == '-'
    &&& pat_at(s, " hours"@, s.len() - 6)
    &&& forall|i: int| 1 <= i < s.len() - 6 ==> is_digit(s[i])
}

/// The texts the natural-language date parser is allowed to see.
pub open spec fn date_parser_safe(s: Seq<char>) -> bool {
    ascii_only(s) && digit_runs_short(s) && (sign_digit_free(s) || minus_hours_form(s))
}

/// Decide `date_parser_safe` by scanning the characters.
fn date_parser_safe_check(s: &str) -> (r: bool)
    ensures
        r == date_parser_safe(s@),
{
    let n: usize = s.unicode_len();
    let mut i: usize = 0;
    while i < n
        invariant
            n == s@.len(),
            i <= n,
            forall|t: int| 0 <= t < i ==> (s@[t] as u32) < 128,
            forall|t: int|
                0 <= t < i && t + 4 < n ==> !(is_digit(#[trigger] s@[t]) && is_digit(s@[t + 1])
                    && is_digit(s@[t + 2]) && is_digit(s@[t + 3]) && is_digit(s@[t + 4])),
        decreases n - i,
    {
        let c = s.get_char(i);
        if c as u32 >= 128 {
            return false;
        }
        if n - i > 4 {
            let all_digits = digit_at(s, n, i) && digit_at(s, n, i + 1) && digit_at(s, n, i + 2)
                && digit_at(s, n, i + 3) && digit_at(s, n, i + 4);
            if all_digits {
                return false;
            }
        }
        i += 1;
    }
    sign_digit_free_check(s, n) || minus_hours_form_check(s, n)
}

fn sign_digit_free_check(s: &str, n: usize) -> (r: bool)
    requires
        n == s@.len(),
    ensures
        r == sign_digit_free(s@),
{
    let mut i: usize = 0;
    while i < n
        invariant
            n == s@.len(),
            i <= n,
            forall|t: int|
                0 <= t < i && t + 1 < n ==> !((s@[t] == '-' || s@[t] == '+') && is_digit(
                    #[trigger] s@[t + 1],
                )),
        decreases n - i,
    {
        if n - i > 1 {
            let c = s.get_char(i);
            if (c == '-' || c == '+') && digit_at(s, n, i + 1) {
                return false;
            }
        }
        i += 1;
    }
    true
}

fn minus_hours_form_check(s: &str, n: usize) -> (r: bool)
    requires
        n == s@.len(),
    ensures
        r == minus_hours_form(s@),
{
    let m: usize = " hours".unicode_len();
    proof {
        reveal_strlit(" hours");
        assert(m == 6);
    }
    if n < 8 {
        return false;
    }
    if s.get_char(0) != '-' {
        return false;
    }
    if !pat_match_at(s, n, n - 6, " hours", m) {
        return false;
    }
    let mut i: usize = 1;
    while i < n - 6
        invariant
            n == s@.len(),
            n >= 8,
            1 <= i <= n - 6,
            forall|t: int| 1 <= t < i ==> is_digit(s@[t]),
        decreases n - i,
    {
        if !digit_at(s, n, i) {
            return false;
        }
        i += 1;
    }
    true
}

fn digit_at(s: &str, n: usize, i: usize) -> (r: bool)
    requires
        n == s@.len(),
        i < n,
    ensures
        r == is_digit(s@[i as int]),
{
    let u: u32 = s.get_char(i) as u32;
    48 <= u && u <= 57
}

/// Relies on `chrono_english::parse_date_string` seeded with
/// `chrono::Local::now()`.  The parser slices identifier prefixes by byte,
/// multiplies parsed numbers in 32-bit arithmetic, and wraps a signed
/// number into a `u32` hour, so it is only called on ASCII text with short
/// digit runs and no sign glued to a digit (the one exception, the
/// `"-<N> hours"` shape, never reaches the hour path); within that guard
/// it returns a `Result` and does not panic.  The result depends on the
/// clock, so nothing is promised of it beyond success or failure.
#[verifier::external_body]
fn parse_english_date(text: &str) -> (r: Option<String>)
    requires
        date_parser_safe(text@),
{
    match chrono_english::parse_date_string(text, chrono::Local::now(), chrono_english::Dialect::Uk) {
        Ok(date) => Some(date.to_string()),
        Err(_) => None,
    }
}

/// The date that replaces a raw fragment once the natural-language parser has
/// spoken: its date on success, the rewritten fragment verbatim on failure.
pub fn finish_date(parsed: Option<String>, rewritten: String) -> (r: String)
    ensures
        r@ == match parsed {
            Some(d) => d@,
            None => rewritten@,
        },
{
    match parsed {
        Some(d) => d,
        None => rewritten,
    }
}

/// Normalise a relative-date fragment: rewrite the `"<N> hrs"` idiom, then
/// hand the text to the natural-language date parser seeded with the current
/// instant; text the parser must not see (non-ASCII, unreasonably long
/// numbers, a sign glued to a digit) and text it cannot parse come back
/// rewritten but otherwise verbatim.  Best-effort: this never fails.  A
/// parsed date depends on the clock, so the contract pins the result only
/// where the parser is not consulted; the rewrite and the fallback each
/// carry their own exact contract.
pub fn parse_date(text: &str) -> (r: String)
    ensures
        !date_parser_safe(rewrite_hrs_seq(text@)) ==> r@ == rewrite_hrs_seq(text@),
{
    let rewritten = rewrite_relative_date(text);
    let parsed = if date_parser_safe_check(rewritten.as_str()) {
        parse_english_date(rewritten.as_str())
    } else {
        None
    };
    finish_date(parsed, rewritten)
}

} // verus!
