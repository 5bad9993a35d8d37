//! The grammar of media file names: bracketed and parenthesised tags,
//! `(year)` markers, `[id]` markers, trailing hyphen decorations and
//! `SxxEyy` episode identifiers.
//!
//! Every scanner here works on the characters of a name and is proved equal to
//! a recursive specification that reads left to right, taking at each position
//! the first (leftmost) match, as a regular-expression search does.
use vstd::prelude::*;
use crate::text::{all_digits, extend_chars, is_digit, string_from_chars, trim_spec};

verus! {

// ---------------------------------------------------------------------------
// Runs and closing brackets
// ---------------------------------------------------------------------------

/// Length of the run of spaces starting at `i`.
pub open spec fn space_run(s: Seq<char>, i: int) -> nat
    decreases s.len() - i,
{
    if 0 <= i < s.len() && s[i] == ' ' {
        1 + space_run(s, i + 1)
    } else {
        0
    }
}

/// Length of the run of decimal digits starting at `i`.
pub open spec fn digit_run(s: Seq<char>, i: int) -> nat
    decreases s.len() - i,
{
    if 0 <= i < s.len() && is_digit(s[i]) {
        1 + digit_run(s, i + 1)
    } else {
        0
    }
}

/// First index `k >= j` holding `close` or a line break (which no `.` crosses).
pub open spec fn scan_close(s: Seq<char>, j: int, close: char) -> Option<int>
    decreases s.len() - j,
{
    if j < 0 || j >= s.len() {
        None
    } else if s[j] == close || s[j] == '\n' {
        Some(j)
    } else {
        scan_close(s, j + 1, close)
    }
}

/// Index of the character closing the group opened at `p` (lazy `\[.*?\]`).
pub open spec fn group_end(s: Seq<char>, p: int, open: char, close: char) -> Option<int> {
    if 0 <= p < s.len() && s[p] == open {
        match scan_close(s, p + 1, close) {
            Some(k) => if s[k] == close {
                Some(k)
            } else {
                None
            },
            None => None,
        }
    } else {
        None
    }
}

pub proof fn lemma_space_run_bound(s: Seq<char>, i: int)
    requires
        0 <= i <= s.len(),
    ensures
        i + space_run(s, i) <= s.len(),
        forall|j: int| i <= j < i + space_run(s, i) ==> s[j] == ' ',
    decreases s.len() - i,
{
    if i < s.len() && s[i] == ' ' {
        lemma_space_run_bound(s, i + 1);
    }
}

/// A run of exactly `k` digits starts at `i`.
pub proof fn lemma_digit_run_exact(s: Seq<char>, i: int, k: int)
    requires
        0 <= i,
        0 <= k,
        i + k <= s.len(),
        forall|j: int| i <= j < i + k ==> is_digit(#[trigger] s[j]),
        i + k == s.len() || !is_digit(s[i + k]),
    ensures
        digit_run(s, i) == k,
    decreases k,
{
    if k > 0 {
        lemma_digit_run_exact(s, i + 1, k - 1);
    }
}

pub proof fn lemma_digit_run_bound(s: Seq<char>, i: int)
    requires
        0 <= i <= s.len(),
    ensures
        i + digit_run(s, i) <= s.len(),
        forall|j: int| i <= j < i + digit_run(s, i) ==> is_digit(#[trigger] s[j]),
    decreases s.len() - i,
{
    if i < s.len() && is_digit(s[i]) {
        lemma_digit_run_bound(s, i + 1);
    }
}

pub proof fn lemma_scan_close_bound(s: Seq<char>, j: int, close: char)
    requires
        0 <= j,
    ensures
        scan_close(s, j, close) matches Some(k) ==> j <= k < s.len() && (s[k] == close || s[k]
            == '\n'),
        scan_close(s, j, close) matches Some(k) ==> forall|m: int|
            j <= m < k ==> s[m] != close && s[m] != '\n',
    decreases s.len() - j,
{
    if j < s.len() && !(s[j] == close || s[j] == '\n') {
        lemma_scan_close_bound(s, j + 1, close);
    }
}

fn space_run_exec(s: &Vec<char>, i: usize) -> (res: usize)
    requires
        i <= s.len(),
    ensures
        res == space_run(s@, i as int),
        i + res <= s.len(),
{
    let mut j = i;
    while j < s.len() && s[j] == ' '
        invariant
            i <= j <= s.len(),
            space_run(s@, i as int) == (j - i) + space_run(s@, j as int),
        decreases s.len() - j,
    {
        j = j + 1;
    }
    j - i
}

fn digit_run_exec(s: &Vec<char>, i: usize) -> (res: usize)
    requires
        i <= s.len(),
    ensures
        res == digit_run(s@, i as int),
        i + res <= s.len(),
{
    let mut j = i;
    while j < s.len() && ('0' <= s[j] && s[j] <= '9')
        invariant
            i <= j <= s.len(),
            digit_run(s@, i as int) == (j - i) + digit_run(s@, j as int),
        decreases s.len() - j,
    {
        j = j + 1;
    }
    j - i
}

fn scan_close_exec(s: &Vec<char>, j: usize, close: char) -> (res: Option<usize>)
    ensures
        res matches Some(k) ==> scan_close(s@, j as int, close) == Some(k as int),
        res is None ==> scan_close(s@, j as int, close) is None,
{
    let mut k = j;
    while k < s.len()
        invariant
            j <= k,
            scan_close(s@, j as int, close) == scan_close(s@, k as int, close),
        decreases s.len() - k,
    {
        if s[k] == close || s[k] == '\n' {
            return Some(k);
        }
        k = k + 1;
    }
    None
}

fn group_end_exec(s: &Vec<char>, p: usize, open: char, close: char) -> (res: Option<usize>)
    ensures
        res matches Some(k) ==> group_end(s@, p as int, open, close) == Some(k as int),
        res is None ==> group_end(s@, p as int, open, close) is None,
{
    if p < s.len() && s[p] == open {
        match scan_close_exec(s, p + 1, close) {
            Some(k) => {
                proof {
                    lemma_scan_close_bound(s@, p + 1, close);
                }
                if s[k] == close {
                    Some(k)
                } else {
                    None
                }
            },
            None => None,
        }
    } else {
        None
    }
}

// ---------------------------------------------------------------------------
// Tag trimming: ` *\[.*?\] *| *\(.*?\) *` removed everywhere
// ---------------------------------------------------------------------------

pub open spec fn closer_of(c: char) -> char {
    if c == '[' {
        ']'
    } else {
        ')'
    }
}

/// Length of the tag (with the spaces around it) that starts at `p`, or 0.
pub open spec fn tag_len(s: Seq<char>, p: int) -> nat {
    let q = p + space_run(s, p);
    if 0 <= p && q < s.len() && (s[q] == '[' || s[q] == '(') {
        match group_end(s, q, s[q], closer_of(s[q])) {
            Some(e) => (e + 1 + space_run(s, e + 1) - p) as nat,
            None => 0,
        }
    } else {
        0
    }
}

pub proof fn lemma_tag_len_bound(s: Seq<char>, p: int)
    requires
        0 <= p <= s.len(),
    ensures
        p + tag_len(s, p) <= s.len(),
{
    lemma_space_run_bound(s, p);
    let q = p + space_run(s, p);
    if q < s.len() && (s[q] == '[' || s[q] == '(') {
        lemma_scan_close_bound(s, q + 1, closer_of(s[q]));
        if let Some(e) = group_end(s, q, s[q], closer_of(s[q])) {
            lemma_space_run_bound(s, e + 1);
        }
    }
}

/// `s` from `i` on, with every tag removed.
pub open spec fn strip_tags_from(s: Seq<char>, i: int) -> Seq<char>
    decreases s.len() - i,
{
    if i < 0 || i >= s.len() {
        Seq::empty()
    } else if tag_len(s, i) > 0 {
        proof {
            lemma_tag_len_bound(s, i);
        }
        strip_tags_from(s, i + tag_len(s, i))
    } else {
        seq![s[i]] + strip_tags_from(s, i + 1)
    }
}

fn tag_len_exec(s: &Vec<char>, p: usize) -> (res: usize)
    requires
        p <= s.len(),
    ensures
        res == tag_len(s@, p as int),
        p + res <= s.len(),
{
    proof {
        lemma_tag_len_bound(s@, p as int);
    }
    let q = p + space_run_exec(s, p);
    if q < s.len() && (s[q] == '[' || s[q] == '(') {
        let close = if s[q] == '[' {
            ']'
        } else {
            ')'
        };
        match group_end_exec(s, q, s[q], close) {
            Some(e) => {
                proof {
                    lemma_scan_close_bound(s@, q + 1, close);
                }
                let after = space_run_exec(s, e + 1);
                e + 1 + after - p
            },
            None => 0,
        }
    } else {
        0
    }
}

/// Removes every bracketed or parenthesised tag, together with the spaces around it.
pub fn strip_tags(s: &Vec<char>) -> (res: Vec<char>)
    ensures
        res@ == strip_tags_from(s@, 0),
{
    let mut out: Vec<char> = Vec::new();
    let mut i: usize = 0;
    while i < s.len()
        invariant
            i <= s.len(),
            out@ + strip_tags_from(s@, i as int) == strip_tags_from(s@, 0),
        decreases s.len() - i,
    {
        let l = tag_len_exec(s, i);
        if l > 0 {
            i = i + l;
        } else {
            let ghost rest = strip_tags_from(s@, i + 1);
            let ghost prev = out@;
            assert(strip_tags_from(s@, i as int) == seq![s@[i as int]] + rest);
            out.push(s[i]);
            assert(prev + (seq![s@[i as int]] + rest) =~= out@ + rest);
            i = i + 1;
        }
    }
    assert(strip_tags_from(s@, i as int) =~= Seq::<char>::empty());
    assert(out@ + Seq::<char>::empty() =~= out@);
    out
}

// ---------------------------------------------------------------------------
// Hyphen decoration: `- *$` removed
// ---------------------------------------------------------------------------

/// Number of spaces at the end of `s`.
pub open spec fn trailing_spaces(s: Seq<char>) -> nat
    decreases s.len(),
{
    if s.len() > 0 && s.last() == ' ' {
        1 + trailing_spaces(s.drop_last())
    } else {
        0
    }
}

/// `s` without a final hyphen that only spaces follow (and without those spaces).
pub open spec fn strip_decoration_spec(s: Seq<char>) -> Seq<char> {
    let t = trailing_spaces(s);
    if t < s.len() && s[s.len() - t - 1] == '-' {
        s.take(s.len() - t - 1)
    } else {
        s
    }
}

proof fn lemma_trailing_spaces_bound(s: Seq<char>)
    ensures
        trailing_spaces(s) <= s.len(),
    decreases s.len(),
{
    if s.len() > 0 && s.last() == ' ' {
        lemma_trailing_spaces_bound(s.drop_last());
    }
}

pub fn strip_decoration(s: &Vec<char>) -> (res: Vec<char>)
    ensures
        res@ == strip_decoration_spec(s@),
{
    let mut end: usize = s.len();
    assert(s@.take(end as int) =~= s@);
    while end > 0 && s[end - 1] == ' '
        invariant
            end <= s.len(),
            trailing_spaces(s@) == (s.len() - end) + trailing_spaces(s@.take(end as int)),
        decreases end,
    {
        assert(s@.take(end as int).drop_last() =~= s@.take(end - 1));
        end = end - 1;
    }
    assert(trailing_spaces(s@.take(end as int)) == 0);
    let mut out: Vec<char> = Vec::new();
    let keep: usize = if end > 0 && s[end - 1] == '-' {
        end - 1
    } else {
        s.len()
    };
    let mut i: usize = 0;
    while i < keep
        invariant
            i <= keep <= s.len(),
            out@ =~= s@.take(i as int),
        decreases keep - i,
    {
        out.push(s[i]);
        i = i + 1;
    }
    proof {
        lemma_trailing_spaces_bound(s@);
        if keep == s.len() {
            assert(s@.take(keep as int) =~= s@);
        }
    }
    out
}

/// What the search term of a file name is: its tags, then a final hyphen
/// decoration, then surrounding whitespace removed.
pub open spec fn trim_search_term_spec(term: Seq<char>) -> Seq<char> {
    trim_spec(strip_decoration_spec(strip_tags_from(term, 0)))
}

// ---------------------------------------------------------------------------
// Year markers `\([0-9]+?\)` removed everywhere
// ---------------------------------------------------------------------------

/// Length of the `(digits)` marker starting at `p`, or 0.
pub open spec fn year_len(s: Seq<char>, p: int) -> nat {
    let r = digit_run(s, p + 1);
    if 0 <= p && p + 1 + r < s.len() && s[p] == '(' && r >= 1 && s[p + 1 + r] == ')' {
        r + 2
    } else {
        0
    }
}

pub open spec fn strip_years_from(s: Seq<char>, i: int) -> Seq<char>
    decreases s.len() - i,
{
    if i < 0 || i >= s.len() {
        Seq::empty()
    } else if year_len(s, i) > 0 {
        proof {
            lemma_digit_run_bound(s, i + 1);
        }
        strip_years_from(s, i + year_len(s, i))
    } else {
        seq![s[i]] + strip_years_from(s, i + 1)
    }
}

fn year_len_exec(s: &Vec<char>, p: usize) -> (res: usize)
    requires
        p < s.len(),
    ensures
        res == year_len(s@, p as int),
        p + res <= s.len(),
{
    if s[p] != '(' {
        return 0;
    }
    let r = digit_run_exec(s, p + 1);
    if r >= 1 && p + 1 + r < s.len() && s[p + 1 + r] == ')' {
        r + 2
    } else {
        0
    }
}

pub fn strip_years(s: &Vec<char>) -> (res: Vec<char>)
    ensures
        res@ == strip_years_from(s@, 0),
{
    let mut out: Vec<char> = Vec::new();
    let mut i: usize = 0;
    while i < s.len()
        invariant
            i <= s.len(),
            out@ + strip_years_from(s@, i as int) == strip_years_from(s@, 0),
        decreases s.len() - i,
    {
        let l = year_len_exec(s, i);
        if l > 0 {
            i = i + l;
        } else {
            let ghost rest = strip_years_from(s@, i + 1);
            let ghost prev = out@;
            assert(strip_years_from(s@, i as int) == seq![s@[i as int]] + rest);
            out.push(s[i]);
            assert(prev + (seq![s@[i as int]] + rest) =~= out@ + rest);
            i = i + 1;
        }
    }
    assert(out@ + Seq::<char>::empty() =~= out@);
    out
}

// ---------------------------------------------------------------------------
// Id markers: the first `\[[a-z]+?id-[a-z]*[0-9]+?\]|\[[a-z]*[0-9]+\]` removed
// ---------------------------------------------------------------------------

pub open spec fn is_lower(c: char) -> bool {
    'a' <= c && c <= 'z'
}

pub open spec fn all_lower(s: Seq<char>) -> bool {
    forall|i: int| 0 <= i < s.len() ==> is_lower(#[trigger] s[i])
}

/// Number of digits at the end of `s`.
pub open spec fn digit_suffix(s: Seq<char>) -> nat
    decreases s.len(),
{
    if s.len() > 0 && is_digit(s.last()) {
        1 + digit_suffix(s.drop_last())
    } else {
        0
    }
}

/// First index of `c` in `s` at or after `i`.
pub open spec fn index_from(s: Seq<char>, i: int, c: char) -> Option<int>
    decreases s.len() - i,
{
    if i < 0 || i >= s.len() {
        None
    } else if s[i] == c {
        Some(i)
    } else {
        index_from(s, i + 1, c)
    }
}

/// Whether `c` is what an id marker holds between its brackets:
/// lowercase letters then digits (`tt0449088`), or lowercase letters, `id-`,
/// lowercase letters and digits (`tmdbid-1234`).
pub open spec fn is_id_content(c: Seq<char>) -> bool {
    let n = digit_suffix(c);
    let r = c.take(c.len() - n);
    &&& n >= 1
    &&& {
        ||| all_lower(r)
        ||| match index_from(r, 0, '-') {
            Some(i) => i >= 3 && r[i - 2] == 'i' && r[i - 1] == 'd' && all_lower(r.take(i))
                && all_lower(r.skip(i + 1)),
            None => false,
        }
    }
}

/// End index of the id marker starting at `p`.
pub open spec fn id_end(s: Seq<char>, p: int) -> Option<int> {
    match group_end(s, p, '[', ']') {
        Some(e) => if is_id_content(s.subrange(p + 1, e)) {
            Some(e)
        } else {
            None
        },
        None => None,
    }
}

/// The first id marker at or after `i`: its start and end.
pub open spec fn first_id(s: Seq<char>, i: int) -> Option<(int, int)>
    decreases s.len() - i,
{
    if i < 0 || i >= s.len() {
        None
    } else {
        match id_end(s, i) {
            Some(e) => Some((i, e)),
            None => first_id(s, i + 1),
        }
    }
}

pub open spec fn remove_first_id_spec(s: Seq<char>) -> Seq<char> {
    match first_id(s, 0) {
        Some((p, e)) => s.take(p) + s.skip(e + 1),
        None => s,
    }
}

proof fn lemma_digit_suffix_bound(s: Seq<char>)
    ensures
        digit_suffix(s) <= s.len(),
        forall|j: int| s.len() - digit_suffix(s) <= j < s.len() ==> is_digit(#[trigger] s[j]),
    decreases s.len(),
{
    if s.len() > 0 && is_digit(s.last()) {
        lemma_digit_suffix_bound(s.drop_last());
        assert forall|j: int| s.len() - digit_suffix(s) <= j < s.len() implies is_digit(
            #[trigger] s[j],
        ) by {
            if j < s.len() - 1 {
                assert(s[j] == s.drop_last()[j]);
            }
        }
    }
}

fn digit_suffix_exec(c: &Vec<char>) -> (n: usize)
    ensures
        n == digit_suffix(c@),
        n <= c.len(),
{
    let mut k: usize = c.len();
    assert(c@.take(k as int) =~= c@);
    while k > 0 && ('0' <= c[k - 1] && c[k - 1] <= '9')
        invariant
            k <= c.len(),
            digit_suffix(c@) == (c.len() - k) + digit_suffix(c@.take(k as int)),
        decreases k,
    {
        assert(c@.take(k as int).drop_last() =~= c@.take(k - 1));
        k = k - 1;
    }
    c.len() - k
}

fn all_lower_range(s: &Vec<char>, lo: usize, hi: usize) -> (res: bool)
    requires
        lo <= hi <= s.len(),
    ensures
        res == all_lower(s@.subrange(lo as int, hi as int)),
{
    let mut i = lo;
    while i < hi
        invariant
            lo <= i <= hi <= s.len(),
            forall|j: int| lo <= j < i ==> is_lower(#[trigger] s@[j]),
        decreases hi - i,
    {
        if !('a' <= s[i] && s[i] <= 'z') {
            assert(s@.subrange(lo as int, hi as int)[i - lo] == s@[i as int]);
            return false;
        }
        i = i + 1;
    }
    assert forall|j: int| 0 <= j < hi - lo implies is_lower(
        #[trigger] s@.subrange(lo as int, hi as int)[j],
    ) by {
        assert(s@.subrange(lo as int, hi as int)[j] == s@[lo + j]);
    }
    true
}

fn index_from_exec(s: &Vec<char>, hi: usize, c: char) -> (res: Option<usize>)
    requires
        hi <= s.len(),
    ensures
        res matches Some(i) ==> index_from(s@.take(hi as int), 0, c) == Some(i as int),
        res is None ==> index_from(s@.take(hi as int), 0, c) is None,
{
    let ghost r = s@.take(hi as int);
    let mut i: usize = 0;
    while i < hi
        invariant
            i <= hi <= s.len(),
            r == s@.take(hi as int),
            index_from(r, 0, c) == index_from(r, i as int, c),
        decreases hi - i,
    {
        if s[i] == c {
            return Some(i);
        }
        i = i + 1;
    }
    None
}

/// Decides `is_id_content` for the characters `s[lo..hi]`.
fn is_id_content_exec(s: &Vec<char>, lo: usize, hi: usize) -> (res: bool)
    requires
        lo <= hi <= s.len(),
    ensures
        res == is_id_content(s@.subrange(lo as int, hi as int)),
{
    let mut c: Vec<char> = Vec::new();
    let mut i = lo;
    while i < hi
        invariant
            lo <= i <= hi <= s.len(),
            c@ =~= s@.subrange(lo as int, i as int),
        decreases hi - i,
    {
        c.push(s[i]);
        i = i + 1;
    }
    let n = digit_suffix_exec(&c);
    if n < 1 {
        return false;
    }
    let rlen = c.len() - n;
    let ghost r = c@.take(rlen as int);
    if all_lower_range(&c, 0, rlen) {
        assert(c@.subrange(0, rlen as int) =~= r);
        return true;
    }
    assert(c@.subrange(0, rlen as int) =~= r);
    match index_from_exec(&c, rlen, '-') {
        Some(k) => {
            proof {
                lemma_index_from_bound(r, 0, '-');
            }
            if k >= 3 && c[k - 2] == 'i' && c[k - 1] == 'd' {
                let left = all_lower_range(&c, 0, k);
                let right = all_lower_range(&c, k + 1, rlen);
                assert(c@.subrange(0, k as int) =~= r.take(k as int));
                assert(c@.subrange(k + 1, rlen as int) =~= r.skip(k + 1));
                left && right
            } else {
                false
            }
        },
        None => false,
    }
}

proof fn lemma_index_from_bound(s: Seq<char>, i: int, c: char)
    requires
        0 <= i,
    ensures
        index_from(s, i, c) matches Some(k) ==> i <= k < s.len() && s[k] == c,
    decreases s.len() - i,
{
    if i < s.len() && s[i] != c {
        lemma_index_from_bound(s, i + 1, c);
    }
}

fn id_end_exec(s: &Vec<char>, p: usize) -> (res: Option<usize>)
    ensures
        res matches Some(e) ==> id_end(s@, p as int) == Some(e as int),
        res is None ==> id_end(s@, p as int) is None,
{
    match group_end_exec(s, p, '[', ']') {
        Some(e) => {
            proof {
                lemma_scan_close_bound(s@, p + 1, ']');
            }
            if is_id_content_exec(s, p + 1, e) {
                Some(e)
            } else {
                None
            }
        },
        None => None,
    }
}

/// Removes the first id marker (`[tt0449088]`, `[tmdbid-1234]`, ...), if any.
pub fn remove_first_id(s: &Vec<char>) -> (res: Vec<char>)
    ensures
        res@ == remove_first_id_spec(s@),
{
    let mut p: usize = 0;
    while p < s.len()
        invariant
            p <= s.len(),
            first_id(s@, 0) == first_id(s@, p as int),
        decreases s.len() - p,
    {
        match id_end_exec(s, p) {
            Some(e) => {
                proof {
                    lemma_scan_close_bound(s@, p + 1, ']');
                }
                let mut out: Vec<char> = Vec::new();
                let mut i: usize = 0;
                while i < p
                    invariant
                        i <= p < s.len(),
                        out@ =~= s@.take(i as int),
                    decreases p - i,
                {
                    out.push(s[i]);
                    i = i + 1;
                }
                let mut j: usize = e + 1;
                while j < s.len()
                    invariant
                        e + 1 <= j <= s.len(),
                        out@ =~= s@.take(p as int) + s@.subrange(e + 1, j as int),
                    decreases s.len() - j,
                {
                    out.push(s[j]);
                    j = j + 1;
                }
                assert(out@ =~= s@.take(p as int) + s@.skip(e + 1));
                return out;
            },
            None => {
                p = p + 1;
            },
        }
    }
    let mut out: Vec<char> = Vec::new();
    extend_chars(&mut out, s);
    out
}

// ---------------------------------------------------------------------------
// Tags `\[.*?\]`, found left to right
// ---------------------------------------------------------------------------

/// The contents of the bracketed tags of `s` from `i` on, left to right.
pub open spec fn tags_from(s: Seq<char>, i: int) -> Seq<Seq<char>>
    decreases s.len() - i,
{
    if i < 0 || i >= s.len() {
        Seq::empty()
    } else {
        match group_end(s, i, '[', ']') {
            Some(e) => {
                proof {
                    lemma_scan_close_bound(s, i + 1, ']');
                }
                seq![s.subrange(i + 1, e)] + tags_from(s, e + 1)
            },
            None => tags_from(s, i + 1),
        }
    }
}

/// What `tag_extract` finds in a name: with year markers and the first id
/// marker gone, the contents of the remaining bracketed tags.
pub open spec fn extract_tags_spec(term: Seq<char>) -> Seq<Seq<char>> {
    tags_from(remove_first_id_spec(strip_years_from(term, 0)), 0)
}

pub fn collect_tags(s: &Vec<char>) -> (res: Vec<String>)
    ensures
        res@.map_values(|t: String| t@) == tags_from(s@, 0),
{
    let mut out: Vec<String> = Vec::new();
    let mut i: usize = 0;
    while i < s.len()
        invariant
            i <= s.len(),
            out@.map_values(|t: String| t@) + tags_from(s@, i as int) == tags_from(s@, 0),
        decreases s.len() - i,
    {
        match group_end_exec(s, i, '[', ']') {
            Some(e) => {
                proof {
                    lemma_scan_close_bound(s@, i + 1, ']');
                }
                let mut t: Vec<char> = Vec::new();
                let mut k = i + 1;
                while k < e
                    invariant
                        i + 1 <= k <= e < s.len(),
                        t@ =~= s@.subrange(i + 1, k as int),
                    decreases e - k,
                {
                    t.push(s[k]);
                    k = k + 1;
                }
                let ghost before = out@.map_values(|t: String| t@);
                let ghost rest = tags_from(s@, e + 1);
                out.push(string_from_chars(&t));
                assert(out@.map_values(|t: String| t@) =~= before.push(s@.subrange(i + 1, e as int)));
                assert(before + (seq![s@.subrange(i + 1, e as int)] + rest) =~= before.push(
                    s@.subrange(i + 1, e as int),
                ) + rest);
                i = e + 1;
            },
            None => {
                i = i + 1;
            },
        }
    }
    assert(out@.map_values(|t: String| t@) + Seq::<Seq<char>>::empty() =~= out@.map_values(
        |t: String| t@,
    ));
    out
}

// ---------------------------------------------------------------------------
// Episode identifiers `[sS][0-9]+[eE][0-9]+`
// ---------------------------------------------------------------------------

/// Whether an episode identifier starts at `p`: `s` or `S`, digits, `e` or `E`, digits.
pub open spec fn se_match_at(s: Seq<char>, p: int) -> bool {
    let r1 = digit_run(s, p + 1);
    let q = p + 1 + r1;
    &&& 0 <= p < s.len()
    &&& (s[p] == 's' || s[p] == 'S')
    &&& r1 >= 1
    &&& q < s.len()
    &&& (s[q] == 'e' || s[q] == 'E')
    &&& digit_run(s, q + 1) >= 1
}

/// The leftmost episode identifier at or after `i`.
pub open spec fn first_se_match(s: Seq<char>, i: int) -> Option<int>
    decreases s.len() - i,
{
    if i < 0 || i >= s.len() {
        None
    } else if se_match_at(s, i) {
        Some(i)
    } else {
        first_se_match(s, i + 1)
    }
}

/// The season digits of the identifier at `p`.
pub open spec fn se_season_digits(s: Seq<char>, p: int) -> Seq<char> {
    s.subrange(p + 1, p + 1 + digit_run(s, p + 1))
}

/// The episode digits of the identifier at `p`.
pub open spec fn se_episode_digits(s: Seq<char>, p: int) -> Seq<char> {
    let q = p + 1 + digit_run(s, p + 1);
    s.subrange(q + 1, q + 1 + digit_run(s, q + 1))
}

/// The leftmost episode identifier of `s`, as its season and episode digits.
pub open spec fn episode_ident_spec(s: Seq<char>) -> Option<(Seq<char>, Seq<char>)> {
    match first_se_match(s, 0) {
        Some(p) => Some((se_season_digits(s, p), se_episode_digits(s, p))),
        None => None,
    }
}

fn subrange_exec(s: &Vec<char>, lo: usize, hi: usize) -> (res: Vec<char>)
    requires
        lo <= hi <= s.len(),
    ensures
        res@ == s@.subrange(lo as int, hi as int),
{
    let mut out: Vec<char> = Vec::new();
    let mut i = lo;
    while i < hi
        invariant
            lo <= i <= hi <= s.len(),
            out@ =~= s@.subrange(lo as int, i as int),
        decreases hi - i,
    {
        out.push(s[i]);
        i = i + 1;
    }
    out
}

/// Finds the leftmost episode identifier and returns its season and episode digits.
pub fn episode_ident(s: &Vec<char>) -> (res: Option<(Vec<char>, Vec<char>)>)
    ensures
        match res {
            Some((a, b)) => episode_ident_spec(s@) == Some((a@, b@)),
            None => episode_ident_spec(s@) is None,
        },
        res matches Some((a, b)) ==> a@.len() >= 1 && b@.len() >= 1 && all_digits(a@)
            && all_digits(b@),
{
    let mut p: usize = 0;
    while p < s.len()
        invariant
            p <= s.len(),
            first_se_match(s@, 0) == first_se_match(s@, p as int),
        decreases s.len() - p,
    {
        if s[p] == 's' || s[p] == 'S' {
            let r1 = digit_run_exec(s, p + 1);
            let q = p + 1 + r1;
            if r1 >= 1 && q < s.len() && (s[q] == 'e' || s[q] == 'E') {
                let r2 = digit_run_exec(s, q + 1);
                if r2 >= 1 {
                    assert(se_match_at(s@, p as int));
                    proof {
                        lemma_digit_run_bound(s@, p + 1);
                        lemma_digit_run_bound(s@, q + 1);
                    }
                    let a = subrange_exec(s, p + 1, q);
                    let b = subrange_exec(s, q + 1, q + 1 + r2);
                    assert forall|j: int| 0 <= j < a@.len() implies is_digit(#[trigger] a@[j]) by {
                        assert(a@[j] == s@[p + 1 + j]);
                    }
                    assert forall|j: int| 0 <= j < b@.len() implies is_digit(#[trigger] b@[j]) by {
                        assert(b@[j] == s@[q + 1 + j]);
                    }
                    return Some((a, b));
                }
            }
        }
        p = p + 1;
    }
    None
}

// ---------------------------------------------------------------------------
// Two-digit episode identifiers `S[0-9][0-9]E[0-9][0-9]`
// ---------------------------------------------------------------------------

pub open spec fn se2_match_at(s: Seq<char>, p: int) -> bool {
    &&& 0 <= p
    &&& p + 6 <= s.len()
    &&& s[p] == 'S'
    &&& is_digit(s[p + 1])
    &&& is_digit(s[p + 2])
    &&& s[p + 3] == 'E'
    &&& is_digit(s[p + 4])
    &&& is_digit(s[p + 5])
}

pub open spec fn first_se2_match(s: Seq<char>, i: int) -> Option<int>
    decreases s.len() - i,
{
    if i < 0 || i >= s.len() {
        None
    } else if se2_match_at(s, i) {
        Some(i)
    } else {
        first_se2_match(s, i + 1)
    }
}

/// Position of the leftmost `SddEdd` identifier.
pub fn find_se2(s: &Vec<char>) -> (res: Option<usize>)
    ensures
        match res {
            Some(p) => first_se2_match(s@, 0) == Some(p as int) && se2_match_at(s@, p as int),
            None => first_se2_match(s@, 0) is None,
        },
{
    let mut p: usize = 0;
    while p < s.len()
        invariant
            p <= s.len(),
            first_se2_match(s@, 0) == first_se2_match(s@, p as int),
        decreases s.len() - p,
    {
        if s.len() >= 6 && p <= s.len() - 6 && s[p] == 'S' && ('0' <= s[p + 1] && s[p + 1] <= '9') && ('0'
            <= s[p + 2] && s[p + 2] <= '9') && s[p + 3] == 'E' && ('0' <= s[p + 4] && s[p + 4]
            <= '9') && ('0' <= s[p + 5] && s[p + 5] <= '9') {
            return Some(p);
        }
        p = p + 1;
    }
    None
}

} // verus!
